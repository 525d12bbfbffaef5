//! The viewer's own state: which of the built shaders is shown, alone or
//! as one page of a grid, how keys move through them, what the pointer
//! reports to the shaders, and what the window is called.

use vstd::prelude::*;
use vstd::string::*;
use crate::text::{decimal, push_decimal};

verus! {

/// The division of the window into equal cells.
#[derive(Debug, PartialEq, Eq, Structural, Copy, Clone)]
pub struct Grid {
    columns: usize,
    rows: usize,
}

/// One cell of a grid, and the shader that is drawn into it. The cell
/// covers the fraction `1 / columns` by `1 / rows` of the window, at
/// `column / columns` from the left and `row / rows` from the top.
#[derive(Debug, PartialEq, Eq, Structural, Copy, Clone)]
pub struct Tile {
    pub column: usize,
    pub row: usize,
    pub columns: usize,
    pub rows: usize,
    /// Position of the shader among the built shaders.
    pub shader: usize,
}

impl Grid {
    pub closed spec fn columns(self) -> int {
        self.columns as int
    }

    pub closed spec fn rows(self) -> int {
        self.rows as int
    }

    /// A grid has at least one cell, and no more than can be counted.
    pub open spec fn wf(self) -> bool {
        &&& self.columns() >= 1
        &&& self.rows() >= 1
        &&& self.columns() * self.rows() <= usize::MAX
    }

    /// How many cells the grid has.
    pub open spec fn cells(self) -> int {
        self.columns() * self.rows()
    }

    /// A grid of `columns` by `rows` cells; none if it would have no cell,
    /// or more cells than can be counted.
    pub fn new(columns: usize, rows: usize) -> (grid: Option<Grid>)
        ensures
            match grid {
                Some(g) => g.wf() && g.columns() == columns && g.rows() == rows,
                None => columns == 0 || rows == 0 || columns * rows > usize::MAX,
            },
    {
        if columns == 0 || rows == 0 {
            return None;
        }
        match columns.checked_mul(rows) {
            Some(_) => Some(Grid { columns, rows }),
            None => None,
        }
    }

    /// The number of cells.
    pub fn cell_count(&self) -> (n: usize)
        requires
            self.wf(),
        ensures
            n == self.cells(),
            n >= 1,
    {
        assert(self.columns() * self.rows() >= 1) by (nonlinear_arith)
            requires
                self.columns() >= 1,
                self.rows() >= 1,
        ;
        self.columns * self.rows
    }
}

/// A key that the viewer reacts to.
#[derive(Debug, PartialEq, Eq, Structural, Copy, Clone)]
pub enum Key {
    Left,
    Right,
    Space,
    Return,
    /// The platform's chord for leaving the program.
    Quit,
    Other,
}

/// What the window reports.
#[derive(Debug, PartialEq, Eq, Structural, Copy, Clone)]
pub enum WindowEvent {
    CloseRequested,
    KeyPressed(Key),
    Resized,
    Other,
}

/// What the caller has to do after an event.
#[derive(Debug, PartialEq, Eq, Structural, Copy, Clone)]
pub enum ViewerAction {
    Nothing,
    /// Show the page of this shader in the user's browser.
    OpenInBrowser(usize),
    /// Hand the window to the backend again.
    InitWindow,
}

/// The viewer's position among the built shaders.
#[derive(Debug, PartialEq, Eq, Structural, Copy, Clone)]
pub struct Viewer {
    grid: Grid,
    count: usize,
    index: usize,
    draw_grid: bool,
    running: bool,
}

/// The state of a viewer as contracts speak of it.
pub struct ViewerView {
    pub grid: Grid,
    /// How many shaders were built.
    pub count: int,
    /// The shader that is selected.
    pub index: int,
    /// Whether a page of the grid is shown, rather than one shader alone.
    pub draw_grid: bool,
    /// Whether the viewer goes on.
    pub running: bool,
}

impl ViewerView {
    pub open spec fn wf(self) -> bool {
        &&& self.grid.wf()
        &&& 0 <= self.count <= usize::MAX
        &&& 0 <= self.index
        &&& self.index == 0 || self.index < self.count
    }

    /// How far a key moves the selection: by a page of the grid, or by one.
    pub open spec fn increment(self) -> int {
        if self.draw_grid {
            self.grid.cells()
        } else {
            1
        }
    }

    /// The first shader of the page that holds the selection.
    pub open spec fn page_start(self) -> int {
        self.index / self.increment() * self.increment()
    }

    /// How many tiles are drawn: a page of the grid as far as there are
    /// shaders for it, or the selected shader alone.
    pub open spec fn tile_count(self) -> int {
        if self.draw_grid {
            if self.page_start() < self.count {
                if self.count - self.page_start() < self.grid.cells() {
                    self.count - self.page_start()
                } else {
                    self.grid.cells()
                }
            } else {
                0
            }
        } else if self.index < self.count {
            1
        } else {
            0
        }
    }

    /// The `k`-th tile that is drawn: cells are filled row by row, with the
    /// shaders of the page in their order.
    pub open spec fn tile(self, k: int) -> Tile {
        if self.draw_grid {
            Tile {
                column: (k % self.grid.columns()) as usize,
                row: (k / self.grid.columns()) as usize,
                columns: self.grid.columns() as usize,
                rows: self.grid.rows() as usize,
                shader: (self.page_start() + k) as usize,
            }
        } else {
            Tile { column: 0, row: 0, columns: 1, rows: 1, shader: self.index as usize }
        }
    }

    /// The tiles of a frame, in the order in which they are drawn.
    pub open spec fn tiles(self) -> Seq<Tile> {
        Seq::new(self.tile_count() as nat, |k: int| self.tile(k))
    }

    /// The state after `event`, and what the caller has to do.
    pub open spec fn after(self, event: WindowEvent) -> (ViewerView, ViewerAction) {
        match event {
            WindowEvent::CloseRequested => (
                ViewerView { running: false, ..self },
                ViewerAction::Nothing,
            ),
            WindowEvent::Resized => (self, ViewerAction::InitWindow),
            WindowEvent::Other => (self, ViewerAction::Nothing),
            WindowEvent::KeyPressed(key) => match key {
                Key::Left => (
                    ViewerView {
                        index: if self.index >= self.increment() {
                            self.index - self.increment()
                        } else {
                            0
                        },
                        ..self
                    },
                    ViewerAction::Nothing,
                ),
                Key::Right => (
                    ViewerView {
                        index: if self.index + self.increment() < self.count {
                            self.index + self.increment()
                        } else {
                            self.index
                        },
                        ..self
                    },
                    ViewerAction::Nothing,
                ),
                Key::Space => (
                    ViewerView { draw_grid: !self.draw_grid, ..self },
                    ViewerAction::Nothing,
                ),
                Key::Return => (
                    self,
                    if self.index < self.count {
                        ViewerAction::OpenInBrowser(self.index as usize)
                    } else {
                        ViewerAction::Nothing
                    },
                ),
                Key::Quit => (ViewerView { running: false, ..self }, ViewerAction::Nothing),
                Key::Other => (self, ViewerAction::Nothing),
            },
        }
    }
}

/// What the window is called: in grid view the selection and the number of
/// shaders, for a single shader also its name and author, and the name of
/// the program if there is nothing to show.
pub open spec fn title_of(
    draw_grid: bool,
    index: int,
    count: int,
    active: Option<(Seq<char>, Seq<char>)>,
) -> Seq<char> {
    if draw_grid && count > 0 {
        "Shadertoy ("@ + decimal((index + 1) as nat) + " / "@ + decimal(count as nat) + ")"@
    } else {
        match active {
            Some((name, author)) => "Shadertoy ("@ + decimal((index + 1) as nat) + " / "@
                + decimal(count as nat) + ") - "@ + name + " by "@ + author,
            None => "Shadertoy Browser"@,
        }
    }
}

impl View for Viewer {
    type V = ViewerView;

    closed spec fn view(&self) -> ViewerView {
        ViewerView {
            grid: self.grid,
            count: self.count as int,
            index: self.index as int,
            draw_grid: self.draw_grid,
            running: self.running,
        }
    }
}

impl Viewer {
    /// A viewer of `count` built shaders that shows the first page of
    /// `grid`.
    pub fn new(grid: Grid, count: usize) -> (viewer: Viewer)
        requires
            grid.wf(),
        ensures
            viewer@ == (ViewerView {
                grid,
                count: count as int,
                index: 0,
                draw_grid: true,
                running: true,
            }),
            viewer@.wf(),
    {
        Viewer { grid, count, index: 0, draw_grid: true, running: true }
    }

    /// Whether the viewer goes on.
    pub fn is_running(&self) -> (running: bool)
        ensures
            running == self@.running,
    {
        self.running
    }

    /// The shader that is selected.
    pub fn index(&self) -> (index: usize)
        ensures
            index == self@.index,
    {
        self.index
    }

    /// Whether a page of the grid is shown.
    pub fn draws_grid(&self) -> (grid: bool)
        ensures
            grid == self@.draw_grid,
    {
        self.draw_grid
    }

    fn increment(&self) -> (n: usize)
        requires
            self@.wf(),
        ensures
            n == self@.increment(),
            n >= 1,
    {
        if self.draw_grid {
            self.grid.cell_count()
        } else {
            1
        }
    }

    /// Reacts to what the window reports.
    pub fn handle(&mut self, event: WindowEvent) -> (action: ViewerAction)
        requires
            old(self)@.wf(),
        ensures
            (final(self)@, action) == old(self)@.after(event),
            final(self)@.wf(),
    {
        match event {
            WindowEvent::CloseRequested => {
                self.running = false;
                ViewerAction::Nothing
            },
            WindowEvent::Resized => ViewerAction::InitWindow,
            WindowEvent::Other => ViewerAction::Nothing,
            WindowEvent::KeyPressed(key) => match key {
                Key::Left => {
                    let step = self.increment();
                    self.index = if self.index >= step {
                        self.index - step
                    } else {
                        0
                    };
                    ViewerAction::Nothing
                },
                Key::Right => {
                    let step = self.increment();
                    if self.index < self.count && step < self.count - self.index {
                        self.index = self.index + step;
                    }
                    ViewerAction::Nothing
                },
                Key::Space => {
                    self.draw_grid = !self.draw_grid;
                    ViewerAction::Nothing
                },
                Key::Return => {
                    if self.index < self.count {
                        ViewerAction::OpenInBrowser(self.index)
                    } else {
                        ViewerAction::Nothing
                    }
                },
                Key::Quit => {
                    self.running = false;
                    ViewerAction::Nothing
                },
                Key::Other => ViewerAction::Nothing,
            },
        }
    }

    /// The tiles of the frame to draw, in drawing order. Each is a cell of
    /// its grid and shows one of the built shaders.
    pub fn frame_tiles(&self) -> (tiles: Vec<Tile>)
        requires
            self@.wf(),
        ensures
            tiles@ == self@.tiles(),
            forall|k: int|
                0 <= k < tiles@.len() ==> (#[trigger] tiles@[k]).column < tiles@[k].columns
                    && tiles@[k].row < tiles@[k].rows && tiles@[k].shader < self@.count,
    {
        proof {
            lemma_tiles_apart(self@);
            assert forall|k: int| 0 <= k < self@.tiles().len() implies (#[trigger] self@.tiles()[
                k
            ]).column < self@.tiles()[k].columns && self@.tiles()[k].row < self@.tiles()[k].rows
                && self@.tiles()[k].shader < self@.count by {
                assert(self@.tiles()[k] == self@.tile(k));
            }
        }
        let mut tiles: Vec<Tile> = Vec::new();
        if !self.draw_grid {
            if self.index < self.count {
                tiles.push(
                    Tile { column: 0, row: 0, columns: 1, rows: 1, shader: self.index },
                );
            }
            assert(tiles@ =~= self@.tiles());
            return tiles;
        }
        let cells = self.grid.cell_count();
        assert((self.index as int) % (cells as int) <= self.index) by (nonlinear_arith)
            requires
                cells >= 1,
                self.index >= 0,
        ;
        let start = self.index - self.index % cells;
        assert(start == self@.page_start()) by (nonlinear_arith)
            requires
                start == self.index - (self.index as int) % (cells as int),
                self@.page_start() == (self.index as int) / (cells as int) * (cells as int),
                cells >= 1,
        ;
        if start >= self.count {
            assert(tiles@ =~= self@.tiles());
            return tiles;
        }
        let n = if self.count - start < cells {
            self.count - start
        } else {
            cells
        };
        let mut k: usize = 0;
        while k < n
            invariant
                self@.wf(),
                self.draw_grid,
                k <= n,
                n == self@.tile_count(),
                n <= cells,
                cells == self@.grid.cells(),
                start == self@.page_start(),
                start + n <= self.count,
                tiles@.len() == k,
                forall|j: int| 0 <= j < k ==> tiles@[j] == self@.tile(j),
            decreases n - k,
        {
            tiles.push(
                Tile {
                    column: k % self.grid.columns,
                    row: k / self.grid.columns,
                    columns: self.grid.columns,
                    rows: self.grid.rows,
                    shader: start + k,
                },
            );
            k += 1;
        }
        assert(tiles@ =~= self@.tiles());
        tiles
    }

    /// The title of the window. `active` is the name and the author of the
    /// selected shader, if there is one.
    pub fn window_title(&self, active: Option<(&str, &str)>) -> (title: String)
        requires
            self@.wf(),
        ensures
            title@ == title_of(
                self@.draw_grid,
                self@.index,
                self@.count,
                match active {
                    Some((name, author)) => Some((name@, author@)),
                    None => None,
                },
            ),
    {
        if self.draw_grid && self.count > 0 {
            let mut title = String::from_str("Shadertoy (");
            push_decimal(&mut title, self.index as u64 + 1);
            title.append(" / ");
            push_decimal(&mut title, self.count as u64);
            title.append(")");
            return title;
        }
        match active {
            Some((name, author)) => {
                let mut title = String::from_str("Shadertoy (");
                push_decimal(&mut title, self.index as u64 + 1);
                title.append(" / ");
                push_decimal(&mut title, self.count as u64);
                title.append(") - ");
                title.append(name);
                title.append(" by ");
                title.append(author);
                title
            },
            None => String::from_str("Shadertoy Browser"),
        }
    }
}

/// The tiles of a frame do not overlap: each lies inside the grid, no two
/// share a cell, and no two show the same shader.
pub proof fn lemma_tiles_apart(viewer: ViewerView)
    requires
        viewer.wf(),
    ensures
        forall|k: int|
            0 <= k < viewer.tile_count() ==> {
                let t = #[trigger] viewer.tile(k);
                0 <= t.column < t.columns && 0 <= t.row < t.rows && t.shader < viewer.count
            },
        forall|j: int, k: int|
            0 <= j < k < viewer.tile_count() ==> {
                let a = #[trigger] viewer.tile(j);
                let b = #[trigger] viewer.tile(k);
                (a.column != b.column || a.row != b.row) && a.shader != b.shader
            },
{
    if viewer.draw_grid {
        let c = viewer.grid.columns();
        let r = viewer.grid.rows();
        assert forall|k: int| 0 <= k < viewer.tile_count() implies {
            let t = #[trigger] viewer.tile(k);
            0 <= t.column < t.columns && 0 <= t.row < t.rows && t.shader < viewer.count
        } by {
            lemma_cell(k, c, r);
            let t = viewer.tile(k);
            assert(t.column == k % c && t.row == k / c);
            assert(t.shader == viewer.page_start() + k);
            assert(t.columns == c && t.rows == r);
        }
        assert forall|j: int, k: int| 0 <= j < k < viewer.tile_count() implies {
            let a = #[trigger] viewer.tile(j);
            let b = #[trigger] viewer.tile(k);
            (a.column != b.column || a.row != b.row) && a.shader != b.shader
        } by {
            lemma_cell(j, c, r);
            lemma_cell(k, c, r);
            let a = viewer.tile(j);
            let b = viewer.tile(k);
            assert(a.column == j % c && a.row == j / c);
            assert(b.column == k % c && b.row == k / c);
            assert(a.shader == viewer.page_start() + j);
            assert(b.shader == viewer.page_start() + k);
        }
    }
}

/// The cell with the running number `k` in a grid of `c` columns and `r`
/// rows lies inside the grid, and its place tells its number.
proof fn lemma_cell(k: int, c: int, r: int)
    requires
        0 <= k < c * r,
        c >= 1,
        r >= 1,
    ensures
        0 <= k % c < c,
        0 <= k / c < r,
        k == (k / c) * c + k % c,
{
    assert(k == c * (k / c) + k % c && 0 <= k % c < c) by (nonlinear_arith)
        requires
            c >= 1,
    ;
    assert(0 <= k / c < r) by (nonlinear_arith)
        requires
            0 <= k < c * r,
            c >= 1,
            k == c * (k / c) + k % c,
            0 <= k % c < c,
    ;
    assert((k / c) * c == c * (k / c)) by (nonlinear_arith);
}

/// What the pointing device reports.
#[derive(Debug, Clone, Copy)]
pub enum PointerEvent<P> {
    /// The pointer is at this position now.
    Moved(P),
    /// A button went down; `left` tells whether it is the left one.
    Pressed { left: bool },
    /// A button went up.
    Released,
}

/// What the shaders are told of the pointer: where it is while the left
/// button is held, and where the button went down. Both are at `origin`
/// while no button is held.
#[derive(Debug, Clone, Copy)]
pub struct Pointer<P> {
    /// Where the pointer is.
    pub position: P,
    /// Where the pointer was when it last moved with the left button held.
    pub held: P,
    /// Where the pointer was when the left button went down.
    pub click: P,
    /// Whether the left button is held.
    pub pressed: bool,
    /// The position that stands for "nowhere".
    pub origin: P,
}

impl<P: Copy> Pointer<P> {
    /// The pointer after `event`.
    pub open spec fn after(self, event: PointerEvent<P>) -> Pointer<P> {
        match event {
            PointerEvent::Moved(position) => Pointer {
                position,
                held: if self.pressed {
                    position
                } else {
                    self.held
                },
                ..self
            },
            PointerEvent::Pressed { left } => if left {
                Pointer {
                    click: if self.pressed {
                        self.click
                    } else {
                        self.position
                    },
                    pressed: true,
                    ..self
                }
            } else {
                self
            },
            PointerEvent::Released => Pointer {
                held: self.origin,
                click: self.origin,
                pressed: false,
                ..self
            },
        }
    }

    /// A pointer at `origin` with no button held.
    pub fn new(origin: P) -> (pointer: Pointer<P>)
        ensures
            pointer == (Pointer {
                position: origin,
                held: origin,
                click: origin,
                pressed: false,
                origin,
            }),
    {
        Pointer { position: origin, held: origin, click: origin, pressed: false, origin }
    }

    /// Takes in what the pointing device reports.
    pub fn handle(&mut self, event: PointerEvent<P>)
        ensures
            *final(self) == old(self).after(event),
    {
        match event {
            PointerEvent::Moved(position) => {
                self.position = position;
                if self.pressed {
                    self.held = position;
                }
            },
            PointerEvent::Pressed { left } => {
                if left {
                    if !self.pressed {
                        self.click = self.position;
                    }
                    self.pressed = true;
                }
            },
            PointerEvent::Released => {
                self.held = self.origin;
                self.click = self.origin;
                self.pressed = false;
            },
        }
    }
}

} // verus!
