//! Single-precision numbers held by their bit pattern, with the predicates the
//! library decides on them.
use vstd::prelude::*;

verus! {

/// A 32-bit IEEE 754 number, held by its bits.
#[derive(Clone, Copy, Debug, PartialEq, Eq, Structural)]
pub struct Float32 {
    pub bits: u32,
}

/// The bits of `0.5`.
pub const HALF_BITS: u32 = 0x3f00_0000;

/// The bits of `1.0`.
pub const ONE_BITS: u32 = 0x3f80_0000;

/// The bits of positive infinity: every finite magnitude is below them.
pub const INFINITY_BITS: u32 = 0x7f80_0000;

/// The sign bit.
pub const SIGN_BIT: u32 = 0x8000_0000;

impl Float32 {
    /// The sign bit is clear.
    pub open spec fn positive_sign(self) -> bool {
        self.bits < SIGN_BIT
    }

    /// The bits without the sign: larger magnitudes have larger bits.
    pub open spec fn magnitude(self) -> int {
        if self.positive_sign() {
            self.bits as int
        } else {
            self.bits - SIGN_BIT
        }
    }

    /// Neither an infinity nor a NaN.
    pub open spec fn finite(self) -> bool {
        self.magnitude() < INFINITY_BITS
    }

    /// A number, not a NaN.
    pub open spec fn is_number(self) -> bool {
        self.magnitude() <= INFINITY_BITS
    }

    /// A position on a line on which numbers stand in their numeric order;
    /// the two zeros share position 0.
    pub open spec fn rank(self) -> int {
        if self.positive_sign() {
            self.magnitude()
        } else {
            -self.magnitude()
        }
    }

    /// `self < other` as floating-point comparison has it: false where either side is a NaN.
    pub open spec fn less_than(self, other: Float32) -> bool {
        self.is_number() && other.is_number() && self.rank() < other.rank()
    }

    /// `self <= other` as floating-point comparison has it.
    pub open spec fn at_most(self, other: Float32) -> bool {
        self.is_number() && other.is_number() && self.rank() <= other.rank()
    }

    /// Within the closed unit interval (so neither infinite nor a NaN).
    pub open spec fn in_unit_interval(self) -> bool {
        self.finite() && 0 <= self.rank() <= ONE_BITS
    }

    /// The number with these bits.
    pub fn from_bits(bits: u32) -> (result: Float32)
        ensures
            result.bits == bits,
    {
        Float32 { bits }
    }

    /// Whether the number is finite and lies within the closed unit interval.
    pub fn unit_interval(&self) -> (result: bool)
        ensures
            result == self.in_unit_interval(),
    {
        self.bits <= ONE_BITS || self.bits == SIGN_BIT
    }

    /// Whether `self < other`.
    pub fn lt(&self, other: &Float32) -> (result: bool)
        ensures
            result == self.less_than(*other),
    {
        let left: u32 = self.magnitude_bits();
        let right: u32 = other.magnitude_bits();
        if left > INFINITY_BITS || right > INFINITY_BITS {
            false
        } else if self.bits < SIGN_BIT {
            other.bits < SIGN_BIT && left < right
        } else if other.bits < SIGN_BIT {
            left != 0 || right != 0
        } else {
            left > right
        }
    }

    /// Whether `self <= other`.
    pub fn le(&self, other: &Float32) -> (result: bool)
        ensures
            result == self.at_most(*other),
    {
        self.magnitude_bits() <= INFINITY_BITS && other.magnitude_bits() <= INFINITY_BITS
            && !other.lt(self)
    }

    fn magnitude_bits(&self) -> (result: u32)
        ensures
            result == self.magnitude(),
    {
        if self.bits < SIGN_BIT {
            self.bits
        } else {
            self.bits - SIGN_BIT
        }
    }
}

/// Floating-point comparison of two numbers is total: exactly one of "less", "greater"
/// and "same rank" holds, and a NaN compares false with everything.
pub proof fn law_comparison(a: Float32, b: Float32)
    ensures
        a.at_most(b) <==> a.less_than(b) || (a.is_number() && b.is_number() && a.rank() == b.rank()),
        !(a.less_than(b) && b.less_than(a)),
        a.is_number() && b.is_number() ==> a.at_most(b) || b.less_than(a),
        !a.is_number() ==> !a.less_than(b) && !b.less_than(a) && !a.at_most(b) && !b.at_most(a),
{
}

/// Floating-point comparison is transitive.
pub proof fn law_comparison_transitive(a: Float32, b: Float32, c: Float32)
    requires
        a.at_most(b),
        b.at_most(c),
    ensures
        a.at_most(c),
{
}

/// Numbers compare as their bits do: among those without a sign the larger bits are the larger
/// number, among those with one the smaller, one with a sign is below one without unless both are
/// zero, and a NaN compares with nothing.
pub proof fn law_numbers_compare_by_bits(a: Float32, b: Float32)
    requires
        a.bits < 0x8000_0000,
        b.bits < 0x8000_0000,
    ensures
        a.less_than(b) <==> a.bits < b.bits && b.bits <= 0x7f80_0000,
        a.at_most(b) <==> a.bits <= b.bits && b.bits <= 0x7f80_0000,
        ({
            let minus = Float32 { bits: (a.bits + 0x8000_0000) as u32 };
            let below = Float32 { bits: (b.bits + 0x8000_0000) as u32 };
            &&& minus.less_than(below) <==> b.bits < a.bits && a.bits <= 0x7f80_0000
            &&& minus.less_than(b) <==> (a.bits != 0 || b.bits != 0) && a.bits <= 0x7f80_0000
                && b.bits <= 0x7f80_0000
            &&& !b.less_than(minus)
            &&& a.at_most(below) <==> a.bits == 0 && b.bits == 0
        }),
{
}

} // verus!
