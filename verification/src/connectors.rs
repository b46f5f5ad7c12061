//! The connectors that a device can have.

use vstd::prelude::*;

verus! {

/// A set of video connectors.
#[derive(Debug, Clone, Copy, PartialEq, Eq, Hash, Structural)]
pub struct DecklinkVideoConnection {
    bits: u32,
}

impl DecklinkVideoConnection {
    /// Serial digital interface.
    pub const SDI: u32 = 0x1;

    /// HDMI.
    pub const HDMI: u32 = 0x2;

    /// Serial digital interface over fibre.
    pub const OPTICAL_SDI: u32 = 0x4;

    /// Analog component video.
    pub const COMPONENT: u32 = 0x8;

    /// Analog composite video.
    pub const COMPOSITE: u32 = 0x10;

    /// S-Video.
    pub const SVIDEO: u32 = 0x20;

    /// Every bit that has a meaning.
    pub const ALL: u32 = 0x0000_003F;

    /// The bits that are set.
    pub closed spec fn spec_bits(self) -> u32 {
        self.bits
    }

    pub fn bits(&self) -> (b: u32)
        ensures
            b == self.spec_bits(),
    {
        self.bits
    }

    pub fn empty() -> (f: Self)
        ensures
            f.spec_bits() == 0,
    {
        DecklinkVideoConnection { bits: 0 }
    }

    /// Keeps the bits that have a meaning and drops the others.
    pub fn from_bits_truncate(bits: u32) -> (f: Self)
        ensures
            f.spec_bits() == bits & Self::ALL,
    {
        DecklinkVideoConnection { bits: bits & Self::ALL }
    }

    /// Whether every bit of `mask` is set.
    pub fn contains(&self, mask: u32) -> (b: bool)
        ensures
            b == (self.spec_bits() & mask == mask),
    {
        self.bits & mask == mask
    }
}

/// A set of audio connectors.
#[derive(Debug, Clone, Copy, PartialEq, Eq, Hash, Structural)]
pub struct DecklinkAudioConnection {
    bits: u32,
}

impl DecklinkAudioConnection {
    /// Audio embedded in the video signal.
    pub const EMBEDDED: u32 = 0x1;

    /// AES/EBU digital audio.
    pub const AES_EBU: u32 = 0x2;

    /// Analog audio.
    pub const ANALOG: u32 = 0x4;

    /// Analog audio on XLR.
    pub const ANALOG_XLR: u32 = 0x8;

    /// Analog audio on RCA.
    pub const ANALOG_RCA: u32 = 0x10;

    /// A microphone input.
    pub const MICROPHONE: u32 = 0x20;

    /// A headphone output.
    pub const HEADPHONES: u32 = 0x40;

    /// Every bit that has a meaning.
    pub const ALL: u32 = 0x0000_007F;

    /// The bits that are set.
    pub closed spec fn spec_bits(self) -> u32 {
        self.bits
    }

    pub fn bits(&self) -> (b: u32)
        ensures
            b == self.spec_bits(),
    {
        self.bits
    }

    pub fn empty() -> (f: Self)
        ensures
            f.spec_bits() == 0,
    {
        DecklinkAudioConnection { bits: 0 }
    }

    /// Keeps the bits that have a meaning and drops the others.
    pub fn from_bits_truncate(bits: u32) -> (f: Self)
        ensures
            f.spec_bits() == bits & Self::ALL,
    {
        DecklinkAudioConnection { bits: bits & Self::ALL }
    }

    /// Whether every bit of `mask` is set.
    pub fn contains(&self, mask: u32) -> (b: bool)
        ensures
            b == (self.spec_bits() & mask == mask),
    {
        self.bits & mask == mask
    }
}

/// A set of deck-control connectors.
#[derive(Debug, Clone, Copy, PartialEq, Eq, Hash, Structural)]
pub struct DecklinkDeckControlConnection {
    bits: u32,
}

impl DecklinkDeckControlConnection {
    /// The first RS-422 remote port.
    pub const RS422_REMOTE_1: u32 = 0x1;

    /// The second RS-422 remote port.
    pub const RS422_REMOTE_2: u32 = 0x2;

    /// Every bit that has a meaning.
    pub const ALL: u32 = 0x0000_0003;

    /// The bits that are set.
    pub closed spec fn spec_bits(self) -> u32 {
        self.bits
    }

    pub fn bits(&self) -> (b: u32)
        ensures
            b == self.spec_bits(),
    {
        self.bits
    }

    pub fn empty() -> (f: Self)
        ensures
            f.spec_bits() == 0,
    {
        DecklinkDeckControlConnection { bits: 0 }
    }

    /// Keeps the bits that have a meaning and drops the others.
    pub fn from_bits_truncate(bits: u32) -> (f: Self)
        ensures
            f.spec_bits() == bits & Self::ALL,
    {
        DecklinkDeckControlConnection { bits: bits & Self::ALL }
    }

    /// Whether every bit of `mask` is set.
    pub fn contains(&self, mask: u32) -> (b: bool)
        ensures
            b == (self.spec_bits() & mask == mask),
    {
        self.bits & mask == mask
    }
}

} // verus!
