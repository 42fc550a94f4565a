//! Numbers that the service takes and gives as binary floating point.
//!
//! The library stores such numbers and hands them on; it never computes
//! with them. Each is carried by its IEEE 754 bit pattern, so that it comes
//! out exactly as it went in.

use vstd::prelude::*;

verus! {

/// A single-precision number, carried by its bit pattern.
///
/// Two values are equal when their bits are: a NaN equals itself, and the
/// two zeros differ.
#[derive(Clone, Copy, Debug, PartialEq, Eq, Structural)]
pub struct Float {
    bits: u32,
}

impl Float {
    /// The bit pattern of the number.
    pub closed spec fn spec_to_bits(self) -> u32 {
        self.bits
    }

    /// The number with the given bit pattern.
    pub closed spec fn spec_from_bits(bits: u32) -> Float {
        Float { bits }
    }

    /// The number with the given bit pattern.
    #[verifier::when_used_as_spec(spec_from_bits)]
    pub fn from_bits(bits: u32) -> (x: Float)
        ensures
            x == Float::spec_from_bits(bits),
            x.to_bits() == bits,
    {
        Float { bits }
    }

    /// The bit pattern of the number.
    #[verifier::when_used_as_spec(spec_to_bits)]
    pub fn to_bits(self) -> (bits: u32)
        ensures
            bits == self.spec_to_bits(),
    {
        self.bits
    }

    /// Numbers with the same bits are the same number, and every bit
    /// pattern is the pattern of its number.
    pub proof fn lemma_bits_decide(self, other: Float, bits: u32)
        ensures
            self.to_bits() == other.to_bits() <==> self == other,
            Float::spec_from_bits(bits).to_bits() == bits,
            Float::spec_from_bits(self.to_bits()) == self,
    {
    }
}

/// A double-precision number, carried by its bit pattern.
///
/// Two values are equal when their bits are: a NaN equals itself, and the
/// two zeros differ.
#[derive(Clone, Copy, Debug, PartialEq, Eq, Structural)]
pub struct Double {
    bits: u64,
}

impl Double {
    /// The bit pattern of the number.
    pub closed spec fn spec_to_bits(self) -> u64 {
        self.bits
    }

    /// The number with the given bit pattern.
    pub closed spec fn spec_from_bits(bits: u64) -> Double {
        Double { bits }
    }

    /// The number with the given bit pattern.
    #[verifier::when_used_as_spec(spec_from_bits)]
    pub fn from_bits(bits: u64) -> (x: Double)
        ensures
            x == Double::spec_from_bits(bits),
            x.to_bits() == bits,
    {
        Double { bits }
    }

    /// The bit pattern of the number.
    #[verifier::when_used_as_spec(spec_to_bits)]
    pub fn to_bits(self) -> (bits: u64)
        ensures
            bits == self.spec_to_bits(),
    {
        self.bits
    }

    /// Numbers with the same bits are the same number, and every bit
    /// pattern is the pattern of its number.
    pub proof fn lemma_bits_decide(self, other: Double, bits: u64)
        ensures
            self.to_bits() == other.to_bits() <==> self == other,
            Double::spec_from_bits(bits).to_bits() == bits,
            Double::spec_from_bits(self.to_bits()) == self,
    {
    }
}

} // verus!
