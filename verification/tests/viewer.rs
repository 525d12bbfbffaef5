use shadertoy_browser::viewer::{
    Grid, Key, Pointer, PointerEvent, Tile, Viewer, ViewerAction, WindowEvent,
};

fn grid(columns: usize, rows: usize) -> Grid {
    Grid::new(columns, rows).unwrap()
}

#[test]
fn grids_need_cells() {
    assert!(Grid::new(0, 4).is_none());
    assert!(Grid::new(4, 0).is_none());
    assert!(Grid::new(usize::MAX, 2).is_none());
    assert_eq!(grid(4, 4).cell_count(), 16);
}

#[test]
fn first_page_of_a_grid() {
    let viewer = Viewer::new(grid(2, 2), 3);
    assert_eq!(
        viewer.frame_tiles(),
        vec![
            Tile { column: 0, row: 0, columns: 2, rows: 2, shader: 0 },
            Tile { column: 1, row: 0, columns: 2, rows: 2, shader: 1 },
            Tile { column: 0, row: 1, columns: 2, rows: 2, shader: 2 },
        ]
    );
}

#[test]
fn paging_through_a_grid() {
    let mut viewer = Viewer::new(grid(2, 2), 10);
    assert_eq!(viewer.handle(WindowEvent::KeyPressed(Key::Right)), ViewerAction::Nothing);
    assert_eq!(viewer.index(), 4);
    viewer.handle(WindowEvent::KeyPressed(Key::Right));
    assert_eq!(viewer.index(), 8);
    viewer.handle(WindowEvent::KeyPressed(Key::Right));
    assert_eq!(viewer.index(), 8);
    assert_eq!(
        viewer.frame_tiles(),
        vec![
            Tile { column: 0, row: 0, columns: 2, rows: 2, shader: 8 },
            Tile { column: 1, row: 0, columns: 2, rows: 2, shader: 9 },
        ]
    );
    viewer.handle(WindowEvent::KeyPressed(Key::Left));
    assert_eq!(viewer.index(), 4);
    viewer.handle(WindowEvent::KeyPressed(Key::Left));
    viewer.handle(WindowEvent::KeyPressed(Key::Left));
    assert_eq!(viewer.index(), 0);
}

#[test]
fn single_view() {
    let mut viewer = Viewer::new(grid(4, 4), 3);
    viewer.handle(WindowEvent::KeyPressed(Key::Space));
    assert!(!viewer.draws_grid());
    viewer.handle(WindowEvent::KeyPressed(Key::Right));
    assert_eq!(viewer.index(), 1);
    assert_eq!(
        viewer.frame_tiles(),
        vec![Tile { column: 0, row: 0, columns: 1, rows: 1, shader: 1 }]
    );
    assert_eq!(viewer.handle(WindowEvent::KeyPressed(Key::Return)), ViewerAction::OpenInBrowser(1));
    viewer.handle(WindowEvent::KeyPressed(Key::Right));
    viewer.handle(WindowEvent::KeyPressed(Key::Right));
    assert_eq!(viewer.index(), 2);
    viewer.handle(WindowEvent::KeyPressed(Key::Space));
    assert_eq!(viewer.frame_tiles().len(), 3);
    assert_eq!(viewer.frame_tiles()[2].shader, 2);
}

#[test]
fn nothing_to_show() {
    let mut viewer = Viewer::new(grid(4, 4), 0);
    assert!(viewer.frame_tiles().is_empty());
    assert_eq!(viewer.handle(WindowEvent::KeyPressed(Key::Return)), ViewerAction::Nothing);
    viewer.handle(WindowEvent::KeyPressed(Key::Space));
    assert!(viewer.frame_tiles().is_empty());
    assert_eq!(viewer.window_title(None), "Shadertoy Browser");
}

#[test]
fn closing_and_resizing() {
    let mut viewer = Viewer::new(grid(4, 4), 5);
    assert!(viewer.is_running());
    assert_eq!(viewer.handle(WindowEvent::Resized), ViewerAction::InitWindow);
    assert_eq!(viewer.handle(WindowEvent::Other), ViewerAction::Nothing);
    assert_eq!(viewer.handle(WindowEvent::KeyPressed(Key::Other)), ViewerAction::Nothing);
    assert!(viewer.is_running());
    viewer.handle(WindowEvent::KeyPressed(Key::Quit));
    assert!(!viewer.is_running());
    let mut other = Viewer::new(grid(4, 4), 5);
    other.handle(WindowEvent::CloseRequested);
    assert!(!other.is_running());
}

#[test]
fn titles() {
    let mut viewer = Viewer::new(grid(2, 2), 10);
    viewer.handle(WindowEvent::KeyPressed(Key::Right));
    assert_eq!(viewer.window_title(Some(("Seascape", "TDM"))), "Shadertoy (5 / 10)");
    viewer.handle(WindowEvent::KeyPressed(Key::Space));
    assert_eq!(
        viewer.window_title(Some(("Seascape", "TDM"))),
        "Shadertoy (5 / 10) - Seascape by TDM"
    );
    assert_eq!(viewer.window_title(None), "Shadertoy Browser");
}

#[test]
fn pointer_reports_drags() {
    let mut pointer = Pointer::new((0, 0));
    pointer.handle(PointerEvent::Moved((10, 20)));
    assert_eq!(pointer.held, (0, 0));
    assert_eq!(pointer.click, (0, 0));
    pointer.handle(PointerEvent::Pressed { left: false });
    assert!(!pointer.pressed);
    pointer.handle(PointerEvent::Pressed { left: true });
    assert!(pointer.pressed);
    assert_eq!(pointer.click, (10, 20));
    assert_eq!(pointer.held, (0, 0));
    pointer.handle(PointerEvent::Moved((30, 40)));
    assert_eq!(pointer.held, (30, 40));
    assert_eq!(pointer.click, (10, 20));
    pointer.handle(PointerEvent::Pressed { left: true });
    assert_eq!(pointer.click, (10, 20));
    pointer.handle(PointerEvent::Released);
    assert!(!pointer.pressed);
    assert_eq!(pointer.held, (0, 0));
    assert_eq!(pointer.click, (0, 0));
    assert_eq!(pointer.position, (30, 40));
}
