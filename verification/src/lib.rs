//! A small procedural-image engine: a tree of pattern nodes (checkerboard,
//! stripes, concentric rings) is evaluated at a 2D coordinate and resolves,
//! by bounded recursive descent, to one packed RGB color.
//!
//! Coordinates are exact fixed-point values (see [`coord`]), so every
//! classifier decision is plain integer arithmetic and is verified down to
//! the floor, parity and integer-square-root steps.

pub mod color;
pub mod coord;
pub mod math;
pub mod pattern;
pub mod render;
