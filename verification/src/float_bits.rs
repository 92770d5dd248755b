//! IEEE 754 values carried as bit patterns.
//!
//! The library never computes with floating-point numbers: it classifies and
//! orders them. Both are questions about the bits.

use vstd::prelude::*;

verus! {

/// Bit pattern of the smallest pattern that is no finite magnitude (infinity).
pub const INFINITY_32: u32 = 0x7f80_0000;

/// Bit pattern of the number one.
pub const ONE_32: u32 = 0x3f80_0000;

/// The sign bit of a 32-bit pattern.
pub const SIGN_32: u32 = 0x8000_0000;

/// A binary32 number by its bit pattern.
#[derive(Clone, Copy, Debug, PartialEq, Eq, Structural)]
pub struct Bits32 {
    pub bits: u32,
}

/// A binary64 number by its bit pattern.
#[derive(Clone, Copy, Debug, PartialEq, Eq, Structural)]
pub struct Bits64 {
    pub bits: u64,
}

impl Bits32 {
    /// The pattern without its sign bit.
    pub open spec fn magnitude(self) -> int {
        if self.bits < SIGN_32 {
            self.bits as int
        } else {
            self.bits - SIGN_32
        }
    }

    /// Neither an infinity nor a NaN.
    pub open spec fn finite(self) -> bool {
        self.magnitude() < INFINITY_32
    }

    /// Finite and greater than zero.
    pub open spec fn finite_positive(self) -> bool {
        0 < self.bits < INFINITY_32
    }

    /// Strictly between zero and one.
    pub open spec fn proper_fraction(self) -> bool {
        0 < self.bits < ONE_32
    }

    /// Position in the IEEE 754 total order: negative patterns descend with
    /// their magnitude, and minus zero lies right below plus zero.
    pub open spec fn rank(self) -> int {
        if self.bits < SIGN_32 {
            self.magnitude()
        } else {
            -1 - self.magnitude()
        }
    }

    pub fn is_finite(self) -> (r: bool)
        ensures
            r == self.finite(),
    {
        let magnitude: u32 = if self.bits < SIGN_32 { self.bits } else { self.bits - SIGN_32 };
        magnitude < INFINITY_32
    }

    pub fn is_finite_positive(self) -> (r: bool)
        ensures
            r == self.finite_positive(),
    {
        0 < self.bits && self.bits < INFINITY_32
    }

    pub fn is_proper_fraction(self) -> (r: bool)
        ensures
            r == self.proper_fraction(),
    {
        0 < self.bits && self.bits < ONE_32
    }

    /// Whether `self` lies above `other` in the total order.
    pub fn exceeds(self, other: Bits32) -> (r: bool)
        ensures
            r == (self.rank() > other.rank()),
    {
        if self.bits < SIGN_32 {
            other.bits >= SIGN_32 || self.bits > other.bits
        } else {
            other.bits >= SIGN_32 && self.bits < other.bits
        }
    }
}

/// The total order tells any two patterns apart.
pub proof fn rank_is_injective(a: Bits32, b: Bits32)
    ensures
        a.rank() == b.rank() ==> a == b,
{
}

/// The number with the other sign.
pub open spec fn negated(a: Bits32) -> Bits32 {
    Bits32 { bits: a.bits ^ 0x8000_0000u32 }
}

/// Changing the sign of two numbers turns their order round; among numbers
/// without a sign the greater pattern is the greater number; and any number
/// without a sign lies above any number with one.
pub proof fn the_order_mirrors_at_zero(a: Bits32, b: Bits32)
    ensures
        a.rank() < b.rank() <==> negated(b).rank() < negated(a).rank(),
        a.bits < 0x8000_0000 && b.bits < 0x8000_0000 ==> (a.rank() < b.rank() <==> a.bits < b.bits),
        a.bits >= 0x8000_0000 && b.bits < 0x8000_0000 ==> a.rank() < b.rank(),
{
    let (x, y) = (a.bits, b.bits);
    assert(x < 0x8000_0000u32 ==> x ^ 0x8000_0000u32 == x + 0x8000_0000u32) by (bit_vector);
    assert(x >= 0x8000_0000u32 ==> x ^ 0x8000_0000u32 == x - 0x8000_0000u32) by (bit_vector);
    assert(y < 0x8000_0000u32 ==> y ^ 0x8000_0000u32 == y + 0x8000_0000u32) by (bit_vector);
    assert(y >= 0x8000_0000u32 ==> y ^ 0x8000_0000u32 == y - 0x8000_0000u32) by (bit_vector);
}

/// A number is finite where its exponent is not all ones, whatever its sign. It
/// is positive as well where it has no sign and is not zero, and a proper
/// fraction where it lies below the number with exponent 127 and no fraction.
pub proof fn the_exponent_tells_finite_numbers(a: Bits32)
    ensures
        a.finite() <==> (a.bits >> 23) & 0xff != 0xff,
        a.finite() == negated(a).finite(),
        a.finite_positive() <==> a.finite() && a.bits != 0 && (a.bits >> 31) == 0,
        a.proper_fraction() <==> a.finite_positive() && (a.bits >> 23) < 127,
{
    let x = a.bits;
    assert(x < 0x8000_0000u32 ==> (x < 0x7f80_0000u32 <==> (x >> 23) & 0xff != 0xff)) by (
    bit_vector);
    assert(x >= 0x8000_0000u32 ==> (x - 0x8000_0000u32 < 0x7f80_0000u32 <==> (x >> 23) & 0xff
        != 0xff)) by (bit_vector);
    assert(x < 0x8000_0000u32 <==> (x >> 31) == 0) by (bit_vector);
    assert(x < 0x3f80_0000u32 <==> (x >> 23) < 127) by (bit_vector);
    assert(x < 0x8000_0000u32 ==> x ^ 0x8000_0000u32 == x + 0x8000_0000u32) by (bit_vector);
    assert(x >= 0x8000_0000u32 ==> x ^ 0x8000_0000u32 == x - 0x8000_0000u32) by (bit_vector);
}

} // verus!
