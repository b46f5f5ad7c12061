//! The settings of an input and what the driver tells of its signal.

use vstd::prelude::*;

verus! {

/// How a video input is to capture.
#[derive(Debug, Clone, Copy, PartialEq, Eq, Hash, Structural)]
pub struct DecklinkVideoInputFlags {
    bits: u32,
}

impl DecklinkVideoInputFlags {
    /// Detect the format of the signal.
    pub const ENABLE_FORMAT_DETECTION: u32 = 0x1;

    /// Capture two streams that make one 3D picture.
    pub const DUAL_STREAM_3D: u32 = 0x2;

    /// Every bit that has a meaning.
    pub const ALL: u32 = 0x0000_0003;

    /// The bits that are set.
    pub closed spec fn spec_bits(self) -> u32 {
        self.bits
    }

    pub fn bits(&self) -> (b: u32)
        ensures
            b == self.spec_bits(),
    {
        self.bits
    }

    pub fn empty() -> (f: Self)
        ensures
            f.spec_bits() == 0,
    {
        DecklinkVideoInputFlags { bits: 0 }
    }

    /// Keeps the bits that have a meaning and drops the others.
    pub fn from_bits_truncate(bits: u32) -> (f: Self)
        ensures
            f.spec_bits() == bits & Self::ALL,
    {
        DecklinkVideoInputFlags { bits: bits & Self::ALL }
    }

    /// Whether every bit of `mask` is set.
    pub fn contains(&self, mask: u32) -> (b: bool)
        ensures
            b == (self.spec_bits() & mask == mask),
    {
        self.bits & mask == mask
    }
}

/// What has changed in the signal on an input.
#[derive(Debug, Clone, Copy, PartialEq, Eq, Hash, Structural)]
pub struct DecklinkVideoInputFormatChangedEvents {
    bits: u32,
}

impl DecklinkVideoInputFormatChangedEvents {
    /// The video mode.
    pub const DISPLAY_MODE: u32 = 0x1;

    /// The field dominance.
    pub const FIELD_DOMINANCE: u32 = 0x2;

    /// The colour space.
    pub const COLORSPACE: u32 = 0x4;

    /// Every bit that has a meaning.
    pub const ALL: u32 = 0x0000_0007;

    /// The bits that are set.
    pub closed spec fn spec_bits(self) -> u32 {
        self.bits
    }

    pub fn bits(&self) -> (b: u32)
        ensures
            b == self.spec_bits(),
    {
        self.bits
    }

    pub fn empty() -> (f: Self)
        ensures
            f.spec_bits() == 0,
    {
        DecklinkVideoInputFormatChangedEvents { bits: 0 }
    }

    /// Keeps the bits that have a meaning and drops the others.
    pub fn from_bits_truncate(bits: u32) -> (f: Self)
        ensures
            f.spec_bits() == bits & Self::ALL,
    {
        DecklinkVideoInputFormatChangedEvents { bits: bits & Self::ALL }
    }

    /// Whether every bit of `mask` is set.
    pub fn contains(&self, mask: u32) -> (b: bool)
        ensures
            b == (self.spec_bits() & mask == mask),
    {
        self.bits & mask == mask
    }
}

/// What the driver detected of the signal on an input.
#[derive(Debug, Clone, Copy, PartialEq, Eq, Hash, Structural)]
pub struct DecklinkDetectedVideoInputFormatFlags {
    bits: u32,
}

impl DecklinkDetectedVideoInputFormatFlags {
    /// The signal is 4:2:2 YCbCr.
    pub const YCBCR422: u32 = 0x1;

    /// The signal is 4:4:4 RGB.
    pub const RGB444: u32 = 0x2;

    /// The signal is two streams that make one 3D picture.
    pub const DUAL_STREAM_3D: u32 = 0x4;

    /// Every bit that has a meaning.
    pub const ALL: u32 = 0x0000_0007;

    /// The bits that are set.
    pub closed spec fn spec_bits(self) -> u32 {
        self.bits
    }

    pub fn bits(&self) -> (b: u32)
        ensures
            b == self.spec_bits(),
    {
        self.bits
    }

    pub fn empty() -> (f: Self)
        ensures
            f.spec_bits() == 0,
    {
        DecklinkDetectedVideoInputFormatFlags { bits: 0 }
    }

    /// Keeps the bits that have a meaning and drops the others.
    pub fn from_bits_truncate(bits: u32) -> (f: Self)
        ensures
            f.spec_bits() == bits & Self::ALL,
    {
        DecklinkDetectedVideoInputFormatFlags { bits: bits & Self::ALL }
    }

    /// Whether every bit of `mask` is set.
    pub fn contains(&self, mask: u32) -> (b: bool)
        ensures
            b == (self.spec_bits() & mask == mask),
    {
        self.bits & mask == mask
    }
}

} // verus!
