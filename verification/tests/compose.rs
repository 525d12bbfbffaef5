use shadertoy_browser::compose::{Fraction, Pixels, RenderQuad, Viewport};
use shadertoy_browser::viewer::{Grid, Tile, Viewer};

fn whole(n: u32, of: u64) -> Pixels {
    Pixels { whole: n, part: 0, of }
}

#[test]
fn right_half_of_the_target() {
    let quad = RenderQuad {
        pos: (
            Fraction { numerator: 1, denominator: 2 },
            Fraction { numerator: 0, denominator: 1 },
        ),
        size: (
            Fraction { numerator: 1, denominator: 2 },
            Fraction { numerator: 1, denominator: 1 },
        ),
        pipeline_handle: 0,
    };
    assert!(quad.is_well_formed());
    assert_eq!(
        quad.viewport(1024, 768),
        Viewport {
            origin: (whole(512, 2), whole(0, 1)),
            size: (whole(512, 2), whole(768, 1)),
        }
    );
}

#[test]
fn tile_of_a_grid() {
    let tile = Tile { column: 1, row: 0, columns: 2, rows: 1, shader: 5 };
    let quad = RenderQuad::covering(&tile, 9);
    assert_eq!(quad.pipeline_handle, 9);
    assert_eq!(quad.pos.0, Fraction { numerator: 1, denominator: 2 });
    assert_eq!(quad.pos.1, Fraction { numerator: 0, denominator: 1 });
    assert_eq!(quad.size.0, Fraction { numerator: 1, denominator: 2 });
    assert_eq!(quad.size.1, Fraction { numerator: 1, denominator: 1 });
    let viewport = quad.viewport(1024, 768);
    assert_eq!((viewport.origin.0.whole, viewport.origin.1.whole), (512, 0));
    assert_eq!((viewport.size.0.whole, viewport.size.1.whole), (512, 768));
    assert_eq!((viewport.origin.0.part, viewport.size.0.part), (0, 0));
}

#[test]
fn thirds_are_not_whole_pixels() {
    let tile = Tile { column: 2, row: 1, columns: 3, rows: 3, shader: 0 };
    let viewport = RenderQuad::covering(&tile, 0).viewport(1024, 768);
    assert_eq!(viewport.origin.0, Pixels { whole: 682, part: 2, of: 3 });
    assert_eq!(viewport.origin.1, Pixels { whole: 256, part: 0, of: 3 });
    assert_eq!(viewport.size.0, Pixels { whole: 341, part: 1, of: 3 });
    assert_eq!(viewport.size.1, Pixels { whole: 256, part: 0, of: 3 });
}

#[test]
fn whole_target() {
    let tile = Tile { column: 0, row: 0, columns: 1, rows: 1, shader: 0 };
    let viewport = RenderQuad::covering(&tile, 0).viewport(u32::MAX, 0);
    assert_eq!(viewport.origin.0, whole(0, 1));
    assert_eq!(viewport.size.0, whole(u32::MAX, 1));
    assert_eq!(viewport.size.1, whole(0, 1));
}

#[test]
fn malformed_quads_are_told() {
    let f = Fraction { numerator: 1, denominator: 2 };
    let bad = Fraction { numerator: 3, denominator: 2 };
    let none = Fraction { numerator: 0, denominator: 0 };
    assert!(!RenderQuad { pos: (bad, f), size: (f, f), pipeline_handle: 0 }.is_well_formed());
    assert!(!RenderQuad { pos: (f, f), size: (f, none), pipeline_handle: 0 }.is_well_formed());
}

#[test]
fn quads_of_a_frame_tile_the_target() {
    let viewer = Viewer::new(Grid::new(4, 4).unwrap(), 16);
    let quads: Vec<RenderQuad> =
        viewer.frame_tiles().iter().map(|t| RenderQuad::covering(t, t.shader)).collect();
    assert_eq!(quads.len(), 16);
    let mut covered = vec![false; 1024 * 768 / (256 * 192)];
    for quad in &quads {
        let v = quad.viewport(1024, 768);
        assert_eq!((v.size.0.whole, v.size.1.whole), (256, 192));
        let cell = (v.origin.1.whole / 192 * 4 + v.origin.0.whole / 256) as usize;
        assert!(!covered[cell]);
        covered[cell] = true;
    }
    assert!(covered.iter().all(|c| *c));
}
