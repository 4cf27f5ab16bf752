use vstd::prelude::*;

verus! {

/// An hourly rate, kept as the bit pattern of a single-precision number so
/// that it can be stored, compared and sent without loss.
#[derive(Debug, Clone, Copy, PartialEq, Eq, Structural)]
pub struct Rate {
    pub bits: u32,
}

/// All bits but the sign.
pub const MAGNITUDE_MASK: u32 = 0x7fff_ffff;

/// The magnitude of infinity; every greater magnitude is not a number.
pub const INFINITY_BITS: u32 = 0x7f80_0000;

impl Rate {
    /// The rate of nothing: positive zero.
    pub fn zero() -> (r: Rate)
        ensures
            r.bits == 0,
            r.spec_is_zero(),
    {
        assert(0u32 & 0x7fff_ffffu32 == 0u32) by (bit_vector);
        Rate { bits: 0 }
    }

    /// The pattern without its sign bit.
    pub open spec fn spec_magnitude(self) -> u32 {
        self.bits & MAGNITUDE_MASK
    }

    /// Positive or negative zero.
    pub open spec fn spec_is_zero(self) -> bool {
        self.spec_magnitude() == 0
    }

    /// Not a number.
    pub open spec fn spec_is_nan(self) -> bool {
        self.spec_magnitude() > INFINITY_BITS
    }

    /// Numeric equality: the same pattern, or two zeros of either sign; a
    /// pattern that is not a number equals nothing, itself included.
    pub open spec fn spec_same(self, other: Rate) -> bool {
        &&& !self.spec_is_nan()
        &&& !other.spec_is_nan()
        &&& (self.bits == other.bits || (self.spec_is_zero() && other.spec_is_zero()))
    }

    pub fn is_zero(&self) -> (r: bool)
        ensures
            r == self.spec_is_zero(),
    {
        self.bits & MAGNITUDE_MASK == 0
    }

    pub fn is_nan(&self) -> (r: bool)
        ensures
            r == self.spec_is_nan(),
    {
        self.bits & MAGNITUDE_MASK > INFINITY_BITS
    }

    /// Whether the two rates are equal as numbers.
    pub fn same(&self, other: &Rate) -> (r: bool)
        ensures
            r == self.spec_same(*other),
    {
        !self.is_nan() && !other.is_nan() && (self.bits == other.bits || (self.is_zero()
            && other.is_zero()))
    }
}

} // verus!
