use vstd::prelude::*;

verus! {

/// A single-precision number, carried by its IEEE 754 binary32 bit pattern.
///
/// The library stores scalars, hands them on and resets them to zero. It
/// never does arithmetic on them: that is left to the renderer, which turns
/// a bit pattern back into a number.  Two scalars are equal when their bit
/// patterns are.
#[derive(Clone, Copy, Debug, PartialEq, Eq, Structural)]
pub struct Scalar {
    pub bits: u32,
}

/// The bit pattern of the number one.
pub const ONE_BITS: u32 = 0x3F80_0000;

/// The bit pattern of the number minus one.
pub const MINUS_ONE_BITS: u32 = 0xBF80_0000;

/// The bit pattern of the number three.
pub const THREE_BITS: u32 = 0x4040_0000;

/// The bit pattern of the number minus three.
pub const MINUS_THREE_BITS: u32 = 0xC040_0000;

/// The bit pattern of the number 45.
pub const FORTY_FIVE_BITS: u32 = 0x4234_0000;

/// The bit pattern of the single-precision number nearest to a tenth.
pub const TENTH_BITS: u32 = 0x3DCC_CCCD;

/// The bit pattern of the number 100.
pub const HUNDRED_BITS: u32 = 0x42C8_0000;

impl Scalar {
    /// The scalar with the given bit pattern.
    pub fn from_bits(bits: u32) -> (s: Scalar)
        ensures
            s.bits == bits,
    {
        Scalar { bits }
    }

    /// The bit pattern of this scalar.
    pub fn to_bits(self) -> (bits: u32)
        ensures
            bits == self.bits,
    {
        self.bits
    }

    /// Positive zero, whose bit pattern is all zeros.
    pub open spec fn spec_zero() -> Scalar {
        Scalar { bits: 0 }
    }

    /// Positive zero.
    #[verifier::when_used_as_spec(spec_zero)]
    pub fn zero() -> (s: Scalar)
        ensures
            s == Scalar::spec_zero(),
    {
        Scalar { bits: 0 }
    }

    /// The number one.
    pub open spec fn spec_one() -> Scalar {
        Scalar { bits: ONE_BITS }
    }

    /// The number one.
    #[verifier::when_used_as_spec(spec_one)]
    pub fn one() -> (s: Scalar)
        ensures
            s == Scalar::spec_one(),
    {
        Scalar { bits: ONE_BITS }
    }
}

} // verus!
