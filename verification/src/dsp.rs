//! Values that the engine stores and hands on without computing on them.

use vstd::prelude::*;

verus! {

/// A real number, held as the bit pattern of an IEEE-754 double.
///
/// The engine stores such a value and hands it back unchanged. Whoever needs
/// the number converts the pattern at the edge.
#[derive(Debug, Clone, Copy, PartialEq, Eq, Hash, Structural)]
pub struct Scalar {
    /// The bit pattern.
    pub bits: u64,
}

impl Scalar {
    /// The number zero (positive sign).
    pub open spec fn spec_zero() -> Scalar {
        Scalar { bits: 0 }
    }

    /// The number one.
    pub open spec fn spec_one() -> Scalar {
        Scalar { bits: 0x3FF0_0000_0000_0000 }
    }

    /// The number one half.
    pub open spec fn spec_half() -> Scalar {
        Scalar { bits: 0x3FE0_0000_0000_0000 }
    }

    /// Wraps a bit pattern.
    pub fn from_bits(bits: u64) -> (scalar: Scalar)
        ensures
            scalar.bits == bits,
    {
        Scalar { bits }
    }

    /// Returns the bit pattern.
    pub fn to_bits(self) -> (bits: u64)
        ensures
            bits == self.bits,
    {
        self.bits
    }

    /// The number zero (positive sign).
    #[verifier::when_used_as_spec(spec_zero)]
    pub fn zero() -> (scalar: Scalar)
        ensures
            scalar == Self::spec_zero(),
    {
        Scalar { bits: 0 }
    }

    /// The number one.
    #[verifier::when_used_as_spec(spec_one)]
    pub fn one() -> (scalar: Scalar)
        ensures
            scalar == Self::spec_one(),
    {
        Scalar { bits: 0x3FF0_0000_0000_0000 }
    }

    /// The number one half.
    #[verifier::when_used_as_spec(spec_half)]
    pub fn half() -> (scalar: Scalar)
        ensures
            scalar == Self::spec_half(),
    {
        Scalar { bits: 0x3FE0_0000_0000_0000 }
    }
}

/// One stereo sample pair. Each channel is the bit pattern of an IEEE-754
/// single.
#[derive(Debug, Clone, Copy, PartialEq, Eq, Hash, Structural)]
pub struct Frame {
    /// The left channel.
    pub left: u32,
    /// The right channel.
    pub right: u32,
}

impl Frame {
    /// Silence on both channels.
    pub open spec fn spec_zero() -> Frame {
        Frame { left: 0, right: 0 }
    }

    /// Silence on both channels.
    #[verifier::when_used_as_spec(spec_zero)]
    pub fn zero() -> (frame: Frame)
        ensures
            frame == Self::spec_zero(),
    {
        Frame { left: 0, right: 0 }
    }

    /// A frame from the bit patterns of its two channels.
    pub fn new(left: u32, right: u32) -> (frame: Frame)
        ensures
            frame.left == left,
            frame.right == right,
    {
        Frame { left, right }
    }

    /// A frame with the same sample on both channels.
    pub fn from_mono(sample: u32) -> (frame: Frame)
        ensures
            frame.left == sample,
            frame.right == sample,
    {
        Frame { left: sample, right: sample }
    }
}

} // verus!
