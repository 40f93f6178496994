//! Row-major rendering of a pattern tree over a pixel grid.
//!
//! Cell `(x, y)` of a `width × height` grid is evaluated at the
//! conventional screen coordinates `(x / width - 1/2, y / width - 1/2)`
//! (both axes divide by the width, so pixels stay square when the grid
//! does not). The buffer is pinned element by element to the spec-level
//! evaluation, and two renderings of the same tree at the same size are
//! proved identical.

use vstd::prelude::*;
use crate::coord::{grid_coord, Coord, SCALE};
use crate::pattern::{pattern_color, pattern_wf, PatternNode};
use vstd::arithmetic::div_mod::{
    lemma_div_pos_is_pos, lemma_fundamental_div_mod, lemma_mod_bound, lemma_multiply_divide_lt,
};
use vstd::arithmetic::mul::{
    lemma_mul_inequality, lemma_mul_is_commutative, lemma_mul_is_distributive_add_other_way,
    lemma_mul_nonnegative,
};

verus! {

/// The packed color of grid cell `(x, y)` in a `width`-wide rendering
/// of `p`.
pub open spec fn rendered_pixel(p: PatternNode, width: int, x: int, y: int) -> u32 {
    pattern_color(p, grid_coord(x, width), grid_coord(y, width)).spec_packed()
}

/// A buffer is a rendering of `p` at `width × height` when it has one
/// packed color per cell, in row-major order.
pub open spec fn is_rendering(buf: Seq<u32>, p: PatternNode, width: int, height: int) -> bool {
    &&& buf.len() == width * height
    &&& forall|x: int, y: int|
        0 <= x < width && 0 <= y < height ==> #[trigger] buf[y * width + x] == rendered_pixel(
            p,
            width,
            x,
            y,
        )
}

/// A row-major index stays inside the first `rows` rows: cell `(x, y)`
/// with `y < rows` has `0 <= y * width + x < rows * width`.
proof fn lemma_row_index_bound(width: int, x: int, y: int, rows: int)
    requires
        1 <= width,
        0 <= x < width,
        0 <= y < rows,
    ensures
        0 <= y * width + x,
        y * width + x < rows * width,
{
    lemma_mul_nonnegative(y, width);
    lemma_mul_is_distributive_add_other_way(width, y, 1);
    lemma_mul_inequality(y + 1, rows, width);
}

/// Evaluate `p` over every cell of a `width × height` grid, row-major.
pub fn render(p: &PatternNode, width: usize, height: usize) -> (buf: Vec<u32>)
    requires
        1 <= width,
        width * SCALE <= i64::MAX,
        height * SCALE <= i64::MAX,
        width * height <= usize::MAX,
    ensures
        is_rendering(buf@, *p, width as int, height as int),
        pattern_wf(*p) ==> forall|i: int| 0 <= i < buf@.len() ==> #[trigger] buf@[i] < 0x1000000,
{
    let mut buf: Vec<u32> = Vec::new();
    let mut y: usize = 0;
    while y < height
        invariant
            y <= height,
            pattern_wf(*p) ==> forall|i: int| 0 <= i < buf@.len() ==> #[trigger] buf@[i]
                < 0x1000000,
            1 <= width,
            width * SCALE <= i64::MAX,
            height * SCALE <= i64::MAX,
            buf@.len() == y * width,
            forall|x2: int, y2: int|
                0 <= x2 < width && 0 <= y2 < y ==> #[trigger] buf@[y2 * width + x2]
                    == rendered_pixel(*p, width as int, x2, y2),
        decreases height - y,
    {
        let v = Coord::from_grid(y, width);
        let mut x: usize = 0;
        while x < width
            invariant
                x <= width,
                y < height,
                pattern_wf(*p) ==> forall|i: int| 0 <= i < buf@.len() ==> #[trigger] buf@[i]
                    < 0x1000000,
                1 <= width,
                width * SCALE <= i64::MAX,
                height * SCALE <= i64::MAX,
                v@ == grid_coord(y as int, width as int),
                buf@.len() == y * width + x,
                forall|x2: int, y2: int|
                    0 <= x2 < width && 0 <= y2 < y ==> #[trigger] buf@[y2 * width + x2]
                        == rendered_pixel(*p, width as int, x2, y2),
                forall|x2: int|
                    0 <= x2 < x ==> #[trigger] buf@[y * width + x2] == rendered_pixel(
                        *p,
                        width as int,
                        x2,
                        y as int,
                    ),
            decreases width - x,
        {
            let u = Coord::from_grid(x, width);
            let c = p.color(u, v);
            buf.push(c.packed());
            proof {
                assert forall|x2: int, y2: int| 0 <= x2 < width && 0 <= y2 < y implies #[trigger] buf@[y2
                    * width + x2] == rendered_pixel(*p, width as int, x2, y2) by {
                    lemma_row_index_bound(width as int, x2, y2, y as int);
                }
                assert forall|x2: int| 0 <= x2 < x + 1 implies #[trigger] buf@[y * width + x2]
                    == rendered_pixel(*p, width as int, x2, y as int) by {
                    lemma_mul_nonnegative(y as int, width as int);
                }
            }
            x = x + 1;
        }
        proof {
            lemma_mul_is_distributive_add_other_way(width as int, y as int, 1);
        }
        y = y + 1;
    }
    proof {
        assert(buf@.len() == width * height) by {
            lemma_mul_is_commutative(height as int, width as int);
        }
        assert forall|x2: int, y2: int| 0 <= x2 < width && 0 <= y2 < height implies #[trigger] buf@[y2
            * width + x2] == rendered_pixel(*p, width as int, x2, y2) by {}
    }
    buf
}

/// Determinism of a full-grid render: any two buffers that are renderings
/// of the same tree at the same size are identical.
pub proof fn lemma_render_deterministic(
    b1: Seq<u32>,
    b2: Seq<u32>,
    p: PatternNode,
    width: int,
    height: int,
)
    requires
        1 <= width,
        0 <= height,
        is_rendering(b1, p, width, height),
        is_rendering(b2, p, width, height),
    ensures
        b1 == b2,
{
    assert forall|i: int| 0 <= i < b1.len() implies b1[i] == b2[i] by {
        let x = i % width;
        let y = i / width;
        lemma_fundamental_div_mod(i, width);
        lemma_mod_bound(i, width);
        lemma_div_pos_is_pos(i, width);
        lemma_multiply_divide_lt(i, width, height);
        assert(i == y * width + x);
        assert(b1[y * width + x] == rendered_pixel(p, width, x, y));
        assert(b2[y * width + x] == rendered_pixel(p, width, x, y));
    }
    assert(b1 =~= b2);
}

} // verus!
