//! Real-valued quantities as the library carries them.
//!
//! The library never does arithmetic on real numbers. A quantity is held by
//! the 32 bits of its IEEE 754 binary encoding, and a quotient is held as the
//! pair of dividend and divisor. What is proved is which quantity is divided
//! by which; evaluating the quotient is left to the caller.

use vstd::prelude::*;

verus! {

/// The bit pattern of the number one.
pub const ONE_BITS: u32 = 0x3f80_0000;

/// A real number, held by the bit pattern of its 32-bit IEEE 754 encoding.
#[derive(Clone, Copy, Debug, PartialEq, Eq, Structural)]
pub struct Scalar {
    pub bits: u32,
}

impl Scalar {
    /// The scalar with the given bit pattern.
    pub fn from_bits(bits: u32) -> (s: Scalar)
        ensures
            s.bits == bits,
    {
        Scalar { bits }
    }

    /// The bit pattern of this scalar.
    pub fn to_bits(&self) -> (bits: u32)
        ensures
            bits == self.bits,
    {
        self.bits
    }

    /// The number one.
    pub fn one() -> (s: Scalar)
        ensures
            s.bits == ONE_BITS,
    {
        Scalar { bits: ONE_BITS }
    }
}

/// A pair of scalars: a position, a size or an offset.
#[derive(Clone, Copy, Debug, PartialEq, Eq, Structural)]
pub struct Vec2 {
    pub x: Scalar,
    pub y: Scalar,
}

/// A pair of logical quantities: the host pixel pair `(x, y)` with each
/// component divided by `scale`.
///
/// The quotient is kept unevaluated, so the value records both the host
/// quantities and the scale factor that was in force when it was formed.
#[derive(Clone, Copy, Debug, PartialEq, Eq, Structural)]
pub struct Logical {
    pub x: Scalar,
    pub y: Scalar,
    pub scale: Scalar,
}

/// The logical pair that stands for `host / scale`.
pub open spec fn to_logical(host: Vec2, scale: Scalar) -> Logical {
    Logical { x: host.x, y: host.y, scale }
}

impl Logical {
    /// Forms the logical pair `host / scale`.
    pub fn new(host: Vec2, scale: Scalar) -> (l: Logical)
        ensures
            l == to_logical(host, scale),
    {
        Logical { x: host.x, y: host.y, scale }
    }
}

} // verus!
