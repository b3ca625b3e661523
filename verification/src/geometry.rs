//! Positions of a drag in a view.

use vstd::prelude::*;

verus! {

/// A length in logical pixels.
///
/// The platform reports lengths as `f32`; this type carries that value's
/// IEEE-754 bit pattern unchanged, so that a position is handed back exactly
/// as it was received.
#[derive(Clone, Copy, Debug, PartialEq, Eq, Structural)]
pub struct Pixels {
    pub bits: u32,
}

impl Pixels {
    /// The length whose `f32` value has the bit pattern `bits`.
    pub fn from_bits(bits: u32) -> (p: Pixels)
        ensures
            p.bits == bits,
    {
        Pixels { bits }
    }

    /// The bit pattern of this length's `f32` value.
    pub fn to_bits(&self) -> (bits: u32)
        ensures
            bits == self.bits,
    {
        self.bits
    }
}

/// A point in a view's coordinate space.
#[derive(Clone, Copy, Debug, PartialEq, Eq)]
pub struct Point<T> {
    pub x: T,
    pub y: T,
}

impl<T> Point<T> {
    /// The point `(x, y)`.
    pub fn new(x: T, y: T) -> (p: Point<T>)
        ensures
            p.x == x,
            p.y == y,
    {
        Point { x, y }
    }
}

} // verus!
