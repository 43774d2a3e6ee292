//! The value type that crosses the boundary by value.

use vstd::prelude::*;

verus! {

/// A coordinate pair, the fixed-layout value type of the boundary.
///
/// Each field carries one finite numeric component as its raw bit pattern.
/// The core never interprets the components numerically: equality of two
/// coordinates is decided by a host-supplied callback, and distance is
/// computed by the numeric layer outside the library. Inside the library a
/// coordinate is a pure value with no ownership semantics.
#[derive(Copy, Clone, PartialEq, Eq, Structural, Debug)]
pub struct Point {
    /// Bit pattern of the horizontal component.
    pub x: u64,
    /// Bit pattern of the vertical component.
    pub y: u64,
}

impl Point {
    /// Builds a coordinate from the two component bit patterns.
    pub fn new(x: u64, y: u64) -> (p: Point)
        ensures
            p.x == x,
            p.y == y,
    {
        Point { x, y }
    }
}

} // verus!
