//! The pattern tree and its evaluator.
//!
//! A tree of pattern nodes resolves a coordinate to a color: each node owns
//! two fills and a shape classifier; the classifier picks fill `a` or `b`
//! at `(u, v)`, and a nested pattern is evaluated at the same, untransformed
//! coordinates. The shape classifiers are a closed set of kinds, and every
//! executable step is proved equal to the spec-level evaluation.

use vstd::prelude::*;
use crate::color::Color;
use crate::coord::{Coord, CHECKER_STEP, RING_STEP, STRIPE_STEP};
use crate::math::{floor_div, is_even, is_even_i64, isqrt_u128, lemma_sqrt_floor_of, sqrt_floor};
use vstd::arithmetic::mul::lemma_mul_upper_bound;

verus! {

/// The closed set of shape classifiers.
#[derive(Clone, Copy, PartialEq, Eq, Structural, Debug)]
pub enum ShapeKind {
    /// 8×8 cells per unit square; `a` where cell parity is even.
    Checker,
    /// 24 vertical stripes per unit; `a` on even stripes.
    Stripes,
    /// Concentric rings of width 1/16 around the origin; `a` on even rings.
    Rings,
}

/// Either a terminal solid color or an owned nested pattern.
#[derive(Debug)]
pub enum Fill {
    Solid(Color),
    Pattern(Box<PatternNode>),
}

/// One level of composition: two owned fills and the classifier that
/// chooses between them.
#[derive(Debug)]
pub struct PatternNode {
    pub a: Fill,
    pub b: Fill,
    pub shape: ShapeKind,
}

/// Checker picks `a` iff `floor(8u) + floor(8v)` is even.
pub open spec fn checker_selects_a(u: int, v: int) -> bool {
    is_even(u / (CHECKER_STEP as int) + v / (CHECKER_STEP as int))
}

/// Stripes picks `a` iff `floor(24u)` is even.
pub open spec fn stripes_selects_a(u: int) -> bool {
    is_even(u / (STRIPE_STEP as int))
}

/// Rings picks `a` iff `floor(sqrt((16u)² + (16v)²))` is even.
pub open spec fn rings_selects_a(u: int, v: int) -> bool {
    is_even(sqrt_floor(u * u + v * v) / (RING_STEP as int))
}

/// The classifier of `shape` at `(u, v)`: true selects fill `a`.
pub open spec fn selects_a(shape: ShapeKind, u: int, v: int) -> bool {
    match shape {
        ShapeKind::Checker => checker_selects_a(u, v),
        ShapeKind::Stripes => stripes_selects_a(u),
        ShapeKind::Rings => rings_selects_a(u, v),
    }
}

/// Every solid color reachable in the fill fits in 24 bits.
pub open spec fn fill_wf(f: Fill) -> bool
    decreases f,
{
    match f {
        Fill::Solid(c) => c.wf(),
        Fill::Pattern(p) => fill_wf(p.a) && fill_wf(p.b),
    }
}

/// Every solid color reachable in the tree fits in 24 bits.
pub open spec fn pattern_wf(p: PatternNode) -> bool {
    fill_wf(p.a) && fill_wf(p.b)
}

/// The color a fill resolves to at `(u, v)`: a solid fill is its color; a
/// nested pattern is evaluated by its own classifier at the same `(u, v)`.
pub open spec fn fill_color(f: Fill, u: int, v: int) -> Color
    decreases f,
{
    match f {
        Fill::Solid(c) => c,
        Fill::Pattern(p) => if selects_a(p.shape, u, v) {
            fill_color(p.a, u, v)
        } else {
            fill_color(p.b, u, v)
        },
    }
}

/// The color a pattern node resolves to at `(u, v)`.
pub open spec fn pattern_color(p: PatternNode, u: int, v: int) -> Color {
    if selects_a(p.shape, u, v) {
        fill_color(p.a, u, v)
    } else {
        fill_color(p.b, u, v)
    }
}

/// The absolute value of a coordinate component, widened so that
/// `i64::MIN` is representable.
fn abs_i64(x: i64) -> (r: u64)
    ensures
        x >= 0 ==> r == x as int,
        x < 0 ==> r == -(x as int),
{
    if x >= 0 {
        x as u64
    } else {
        (-(x as i128)) as u64
    }
}

/// Decide which fill `shape` selects at `(u, v)`.
pub fn classify(shape: ShapeKind, u: Coord, v: Coord) -> (r: bool)
    ensures
        r == selects_a(shape, u@, v@),
{
    match shape {
        ShapeKind::Checker => {
            let x = floor_div(u.raw, CHECKER_STEP);
            let y = floor_div(v.raw, CHECKER_STEP);
            is_even_i64(x + y)
        },
        ShapeKind::Stripes => {
            is_even_i64(floor_div(u.raw, STRIPE_STEP))
        },
        ShapeKind::Rings => {
            let ua = abs_i64(u.raw);
            let va = abs_i64(v.raw);
            proof {
                lemma_mul_upper_bound(ua as int, 0x8000_0000_0000_0000, ua as int, 0x8000_0000_0000_0000);
                lemma_mul_upper_bound(va as int, 0x8000_0000_0000_0000, va as int, 0x8000_0000_0000_0000);
                assert((ua as int) * (ua as int) == u@ * u@) by (nonlinear_arith)
                    requires ua == u@ || ua == -u@;
                assert((va as int) * (va as int) == v@ * v@) by (nonlinear_arith)
                    requires va == v@ || va == -v@;
            }
            let s: u128 = (ua as u128) * (ua as u128) + (va as u128) * (va as u128);
            let root = isqrt_u128(s);
            proof {
                lemma_sqrt_floor_of(s as int, root as int);
            }
            let d = root / (RING_STEP as u64);
            d % 2 == 0
        },
    }
}

impl Fill {
    /// Resolve this fill to a concrete color at `(u, v)`.
    pub fn color(&self, u: Coord, v: Coord) -> (c: Color)
        ensures
            c == fill_color(*self, u@, v@),
            fill_wf(*self) ==> c.wf(),
        decreases *self,
    {
        match self {
            Fill::Solid(c) => *c,
            Fill::Pattern(p) => {
                if classify(p.shape, u, v) {
                    p.a.color(u, v)
                } else {
                    p.b.color(u, v)
                }
            },
        }
    }
}

impl PatternNode {
    /// Resolve this pattern to a concrete color at `(u, v)`: the node's
    /// classifier picks fill `a` or `b`, and the chosen fill is resolved
    /// at the same coordinates.
    pub fn color(&self, u: Coord, v: Coord) -> (c: Color)
        ensures
            c == pattern_color(*self, u@, v@),
            pattern_wf(*self) ==> c.wf(),
    {
        if classify(self.shape, u, v) {
            self.a.color(u, v)
        } else {
            self.b.color(u, v)
        }
    }
}

/// Wrap a color as a terminal fill.
pub fn make_solid_fill(color: Color) -> (f: Fill)
    ensures
        f == Fill::Solid(color),
{
    Fill::Solid(color)
}

/// Wrap an owned pattern node as a non-terminal fill.
pub fn make_pattern_fill(node: PatternNode) -> (f: Fill)
    ensures
        (f matches Fill::Pattern(p) && *p == node),
{
    Fill::Pattern(Box::new(node))
}

/// A node owning both fills, bound to one of the built-in classifiers.
pub fn make_pattern(a: Fill, b: Fill, shape: ShapeKind) -> (p: PatternNode)
    ensures
        p.a == a,
        p.b == b,
        p.shape == shape,
{
    PatternNode { a, b, shape }
}

/// Purity of evaluation: the resolved color is a function of the tree and
/// the coordinate pair alone, so any two results for the same tree and the
/// same `(u, v)` coincide.
pub proof fn lemma_color_pure(p: PatternNode, u: int, v: int, c1: Color, c2: Color)
    requires
        c1 == pattern_color(p, u, v),
        c2 == pattern_color(p, u, v),
    ensures
        c1 == c2,
{
}

} // verus!
