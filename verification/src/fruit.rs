use vstd::prelude::*;

use rand::RngExt;

use crate::geometry::Point;

verus! {

/// A fruit: one grid-aligned cell strictly inside the board.
pub struct Fruit {
    pub position: Point,
}

/// Relies on rand's `RngExt::random_range` on the thread-local generator:
/// it samples from `0..bound`, which is nonempty (so it does not panic)
/// when `bound > 0`, and every sample lies in that range.
#[verifier::external_body]
fn random_below(bound: i32) -> (r: i32)
    requires
        bound > 0,
    ensures
        0 <= r < bound,
{
    rand::rng().random_range(0..bound)
}

impl Fruit {
    /// Whether this fruit sits on a grid cell inside the board: both
    /// coordinates in `[0, size)` and aligned to `scale`.
    pub open spec fn spec_in_range(self, scale: int, size: [u32; 2]) -> bool {
        &&& 0 <= self.position.x < size[0] as int
        &&& 0 <= self.position.y < size[1] as int
        &&& self.position.x as int % scale == 0
        &&& self.position.y as int % scale == 0
    }

    /// A fruit at a uniformly random grid cell: each coordinate is a random
    /// cell index in `[0, dimension / scale)` scaled back to pixels, so it
    /// lands inside the board and aligned to the grid.
    pub fn random(scale: i32, size: [u32; 2]) -> (f: Fruit)
        requires
            0 < scale,
            scale as int <= size[0] as int,
            scale as int <= size[1] as int,
            size[0] as int <= i32::MAX as int,
            size[1] as int <= i32::MAX as int,
        ensures
            f.spec_in_range(scale as int, size),
    {
        let scale_u = scale as u32;
        let cells_x = size[0] / scale_u;
        let cells_y = size[1] / scale_u;
        proof {
            assert(cells_x >= 1) by (nonlinear_arith)
                requires
                    0 < scale_u as int <= size[0] as int,
                    cells_x == size[0] as int / scale_u as int,
            ;
            assert(cells_y >= 1) by (nonlinear_arith)
                requires
                    0 < scale_u as int <= size[1] as int,
                    cells_y == size[1] as int / scale_u as int,
            ;
        }
        let cx = random_below(cells_x as i32);
        let cy = random_below(cells_y as i32);
        proof {
            lemma_cell_to_pixel(cx as int, size[0] as int, scale as int);
            lemma_cell_to_pixel(cy as int, size[1] as int, scale as int);
        }
        Fruit { position: Point { x: cx * scale, y: cy * scale } }
    }
}

/// A cell index below `dimension / scale`, scaled back to pixels, yields a
/// grid-aligned pixel coordinate inside `[0, dimension)`.
proof fn lemma_cell_to_pixel(c: int, dimension: int, scale: int)
    requires
        0 < scale <= dimension,
        0 <= c < dimension / scale,
    ensures
        0 <= c * scale,
        c * scale + scale <= dimension,
        (c * scale) % scale == 0,
{
    assert(0 <= c * scale && c * scale + scale <= (dimension / scale) * scale) by (nonlinear_arith)
        requires
            0 < scale,
            0 <= c < dimension / scale,
    ;
    assert((dimension / scale) * scale <= dimension) by (nonlinear_arith)
        requires
            0 < scale <= dimension,
    ;
    assert((c * scale) % scale == 0) by (nonlinear_arith)
        requires
            0 < scale,
    ;
}

} // verus!
