//! Fixed-point coordinates.
//!
//! A coordinate holds `raw` with real value `raw / SCALE`. `SCALE` is
//! divisible by 8, 24 and 16, so for each classifier the scaled floor
//! (`floor(8u)`, `floor(24u)`, and the ring radius in sixteenths) is exact
//! integer arithmetic on `raw`: `floor(k * raw / SCALE) == raw / (SCALE/k)`
//! under floor division. It is also divisible by common grid widths, so the
//! conventional screen mapping `i / extent - 1/2` stays exact up to the one
//! floor that the mapping itself takes.

use vstd::prelude::*;
use crate::math::floor_div;
use vstd::arithmetic::div_mod::{lemma_div_pos_is_pos, lemma_multiply_divide_lt};
use vstd::arithmetic::mul::lemma_mul_strict_inequality;

verus! {

/// Raw units per 1.0 of coordinate space.
pub const SCALE: i64 = 48000;

/// One checker cell (1/8 of coordinate space) in raw units: SCALE / 8.
pub const CHECKER_STEP: i64 = 6000;

/// One stripe (1/24 of coordinate space) in raw units: SCALE / 24.
pub const STRIPE_STEP: i64 = 2000;

/// One ring unit (1/16 of coordinate space) in raw units: SCALE / 16.
pub const RING_STEP: i64 = 3000;

/// A normalized 2D coordinate component, in raw units of 1/SCALE.
#[derive(Clone, Copy, PartialEq, Eq, Structural, Debug)]
pub struct Coord {
    pub raw: i64,
}

impl View for Coord {
    type V = int;

    open spec fn view(&self) -> int {
        self.raw as int
    }
}

/// The coordinate of grid cell `i` out of `extent`, in raw units:
/// `i / extent - 1/2`, floored onto the fixed-point lattice.
pub open spec fn grid_coord(i: int, extent: int) -> int {
    (i * SCALE) / extent - SCALE / 2
}

impl Coord {
    /// A coordinate from raw fixed-point units.
    pub fn new(raw: i64) -> (c: Coord)
        ensures
            c@ == raw as int,
    {
        Coord { raw }
    }

    /// The coordinate of grid cell `i` out of `extent`, the conventional
    /// screen mapping `i / extent - 1/2`.
    pub fn from_grid(i: usize, extent: usize) -> (c: Coord)
        requires
            1 <= extent,
            i * SCALE <= i64::MAX,
            extent <= i64::MAX,
        ensures
            c@ == grid_coord(i as int, extent as int),
            i < extent ==> -(SCALE as int) / 2 <= c@ < (SCALE as int) / 2,
    {
        let scaled: i64 = (i as i64) * SCALE;
        let q = floor_div(scaled, extent as i64);
        proof {
            lemma_div_pos_is_pos(scaled as int, extent as int);
            if i < extent {
                lemma_mul_strict_inequality(i as int, extent as int, SCALE as int);
                lemma_multiply_divide_lt(scaled as int, extent as int, SCALE as int);
            }
        }
        Coord { raw: q - SCALE / 2 }
    }
}

} // verus!
