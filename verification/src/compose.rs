//! The composition of a frame: each quad is a rectangle of the target,
//! given in exact fractions of its width and height, into which one
//! pipeline draws. Quads are drawn in the order given and share the target,
//! so they must not overlap.

use vstd::prelude::*;
use crate::registry::RenderPipelineHandle;
use crate::viewer::{Tile, ViewerView};

verus! {

/// A fraction between nought and one.
#[derive(Debug, PartialEq, Eq, Structural, Copy, Clone)]
pub struct Fraction {
    pub numerator: u64,
    pub denominator: u64,
}

/// A length in pixels that need not be whole: `whole + part / of`.
#[derive(Debug, PartialEq, Eq, Structural, Copy, Clone)]
pub struct Pixels {
    pub whole: u32,
    pub part: u64,
    pub of: u64,
}

/// A rectangle of the target, in pixels from its top left corner.
#[derive(Debug, PartialEq, Eq, Copy, Clone)]
pub struct Viewport {
    pub origin: (Pixels, Pixels),
    pub size: (Pixels, Pixels),
}

/// A rectangle of the target and the pipeline that draws into it.
#[derive(Debug, PartialEq, Eq, Copy, Clone)]
pub struct RenderQuad {
    /// x & y position of the quad, as fractions of the target's size.
    pub pos: (Fraction, Fraction),
    /// width & height of the quad, as fractions of the target's size.
    pub size: (Fraction, Fraction),
    /// The shader pipeline to use.
    pub pipeline_handle: RenderPipelineHandle,
}

impl Fraction {
    /// A fraction has a denominator, and does not exceed one.
    pub open spec fn wf(self) -> bool {
        1 <= self.denominator && self.numerator <= self.denominator
    }

    /// This fraction of `length` pixels, exactly.
    pub open spec fn of_length(self, length: u32) -> Pixels {
        Pixels {
            whole: ((self.numerator * length) / (self.denominator as int)) as u32,
            part: ((self.numerator * length) % (self.denominator as int)) as u64,
            of: self.denominator,
        }
    }

    /// Whether the sum of this fraction and `step` is at most `other`.
    pub open spec fn ends_before(self, step: Fraction, other: Fraction) -> bool {
        (self.numerator * step.denominator + step.numerator * self.denominator)
            * other.denominator <= other.numerator * (self.denominator * step.denominator)
    }

    /// Takes this fraction of `length` pixels.
    pub fn scale(&self, length: u32) -> (pixels: Pixels)
        requires
            self.wf(),
        ensures
            pixels == self.of_length(length),
            pixels.whole <= length,
            pixels.part < pixels.of,
            pixels.whole * pixels.of + pixels.part == self.numerator * length,
    {
        assert((self.numerator as int) * (length as int) <= 0xffff_ffff_ffff_ffff * 0xffff_ffff)
            by (nonlinear_arith)
            requires
                0 <= self.numerator <= 0xffff_ffff_ffff_ffff,
                0 <= length <= 0xffff_ffff,
        ;
        let product: u128 = (self.numerator as u128) * (length as u128);
        let divisor: u128 = self.denominator as u128;
        let whole: u128 = product / divisor;
        let part: u128 = product % divisor;
        proof {
            let n = self.numerator as int;
            let d = self.denominator as int;
            let l = length as int;
            assert(product == n * l);
            assert(whole == (n * l) / d);
            assert(part == (n * l) % d);
            assert((n * l) / d <= l) by (nonlinear_arith)
                requires
                    0 <= n <= d,
                    1 <= d,
                    0 <= l,
            ;
            assert(0 <= (n * l) % d < d && ((n * l) / d) * d + (n * l) % d == n * l)
                by (nonlinear_arith)
                requires
                    1 <= d,
                    0 <= n * l,
            ;
            assert(0 <= n * l) by (nonlinear_arith)
                requires
                    0 <= n,
                    0 <= l,
            ;
        }
        Pixels { whole: whole as u32, part: part as u64, of: self.denominator }
    }
}

impl RenderQuad {
    /// A quad lies in the target.
    pub open spec fn wf(self) -> bool {
        &&& self.pos.0.wf()
        &&& self.pos.1.wf()
        &&& self.size.0.wf()
        &&& self.size.1.wf()
    }

    /// The quad that covers the cell `tile` of a grid.
    pub open spec fn over(tile: Tile, pipeline_handle: RenderPipelineHandle) -> RenderQuad {
        RenderQuad {
            pos: (
                Fraction { numerator: tile.column as u64, denominator: tile.columns as u64 },
                Fraction { numerator: tile.row as u64, denominator: tile.rows as u64 },
            ),
            size: (
                Fraction { numerator: 1, denominator: tile.columns as u64 },
                Fraction { numerator: 1, denominator: tile.rows as u64 },
            ),
            pipeline_handle,
        }
    }

    /// The rectangle of a target of `width` by `height` pixels that the
    /// quad covers: its position and its size, each scaled by the size of
    /// the target.
    pub open spec fn viewport_on(self, width: u32, height: u32) -> Viewport {
        Viewport {
            origin: (self.pos.0.of_length(width), self.pos.1.of_length(height)),
            size: (self.size.0.of_length(width), self.size.1.of_length(height)),
        }
    }

    /// Whether this quad and `other` share no part of the target: one ends
    /// where the other begins, or before.
    pub open spec fn apart_from(self, other: RenderQuad) -> bool {
        ||| self.pos.0.ends_before(self.size.0, other.pos.0)
        ||| other.pos.0.ends_before(other.size.0, self.pos.0)
        ||| self.pos.1.ends_before(self.size.1, other.pos.1)
        ||| other.pos.1.ends_before(other.size.1, self.pos.1)
    }

    /// Whether the quad lies in the target.
    pub fn is_well_formed(&self) -> (ok: bool)
        ensures
            ok == self.wf(),
    {
        1 <= self.pos.0.denominator && self.pos.0.numerator <= self.pos.0.denominator && 1
            <= self.pos.1.denominator && self.pos.1.numerator <= self.pos.1.denominator && 1
            <= self.size.0.denominator && self.size.0.numerator <= self.size.0.denominator && 1
            <= self.size.1.denominator && self.size.1.numerator <= self.size.1.denominator
    }

    /// Makes the quad that covers the cell `tile`, drawn by the pipeline
    /// `pipeline_handle`.
    pub fn covering(tile: &Tile, pipeline_handle: RenderPipelineHandle) -> (quad: RenderQuad)
        requires
            tile.column < tile.columns,
            tile.row < tile.rows,
        ensures
            quad == RenderQuad::over(*tile, pipeline_handle),
            quad.wf(),
    {
        RenderQuad {
            pos: (
                Fraction { numerator: tile.column as u64, denominator: tile.columns as u64 },
                Fraction { numerator: tile.row as u64, denominator: tile.rows as u64 },
            ),
            size: (
                Fraction { numerator: 1, denominator: tile.columns as u64 },
                Fraction { numerator: 1, denominator: tile.rows as u64 },
            ),
            pipeline_handle,
        }
    }

    /// Computes the rectangle of the target that the quad covers.
    pub fn viewport(&self, width: u32, height: u32) -> (viewport: Viewport)
        requires
            self.wf(),
        ensures
            viewport == self.viewport_on(width, height),
            viewport.origin.0.whole <= width,
            viewport.origin.1.whole <= height,
            viewport.size.0.whole <= width,
            viewport.size.1.whole <= height,
    {
        Viewport {
            origin: (self.pos.0.scale(width), self.pos.1.scale(height)),
            size: (self.size.0.scale(width), self.size.1.scale(height)),
        }
    }
}

/// The quads that cover the tiles of a frame share no part of the target,
/// whatever pipelines draw into them.
pub proof fn lemma_frame_quads_apart(viewer: ViewerView, j: int, k: int, a: usize, b: usize)
    requires
        viewer.wf(),
        0 <= j < k < viewer.tile_count(),
    ensures
        RenderQuad::over(viewer.tile(j), a).wf(),
        RenderQuad::over(viewer.tile(k), b).wf(),
        RenderQuad::over(viewer.tile(j), a).apart_from(RenderQuad::over(viewer.tile(k), b)),
{
    crate::viewer::lemma_tiles_apart(viewer);
    let t = viewer.tile(j);
    let u = viewer.tile(k);
    let first = RenderQuad::over(t, a);
    let second = RenderQuad::over(u, b);
    let c = t.columns as int;
    let r = t.rows as int;
    assert(u.columns == c && u.rows == r);
    if t.column < u.column {
        assert((t.column * c + 1 * c) * c <= u.column * (c * c)) by (nonlinear_arith)
            requires
                t.column + 1 <= u.column,
                c >= 1,
        ;
        assert(first.pos.0.ends_before(first.size.0, second.pos.0));
    } else if u.column < t.column {
        assert((u.column * c + 1 * c) * c <= t.column * (c * c)) by (nonlinear_arith)
            requires
                u.column + 1 <= t.column,
                c >= 1,
        ;
        assert(second.pos.0.ends_before(second.size.0, first.pos.0));
    } else if t.row < u.row {
        assert((t.row * r + 1 * r) * r <= u.row * (r * r)) by (nonlinear_arith)
            requires
                t.row + 1 <= u.row,
                r >= 1,
        ;
        assert(first.pos.1.ends_before(first.size.1, second.pos.1));
    } else {
        assert(u.row < t.row);
        assert((u.row * r + 1 * r) * r <= t.row * (r * r)) by (nonlinear_arith)
            requires
                u.row + 1 <= t.row,
                r >= 1,
        ;
        assert(second.pos.1.ends_before(second.size.1, first.pos.1));
    }
}

} // verus!
