//! The numbers by which the driver names the settings and outcomes of an output.

use vstd::prelude::*;

verus! {

/// What a video output carries beside the picture.
#[derive(Debug, Clone, Copy, PartialEq, Eq, Hash, Structural)]
pub struct DecklinkVideoOutputFlags {
    bits: u32,
}

impl DecklinkVideoOutputFlags {
    /// Vertical ancillary data.
    pub const VANC: u32 = 0x1;

    /// Vertical interval timecode.
    pub const VITC: u32 = 0x2;

    /// RP188 timecode.
    pub const RP188: u32 = 0x4;

    /// Two streams that make one 3D picture.
    pub const DUAL_STREAM_3D: u32 = 0x10;

    /// Every bit that has a meaning.
    pub const ALL: u32 = 0x0000_0017;

    /// The bits that are set.
    pub closed spec fn spec_bits(self) -> u32 {
        self.bits
    }

    pub fn bits(&self) -> (b: u32)
        ensures
            b == self.spec_bits(),
    {
        self.bits
    }

    pub fn empty() -> (f: Self)
        ensures
            f.spec_bits() == 0,
    {
        DecklinkVideoOutputFlags { bits: 0 }
    }

    /// Keeps the bits that have a meaning and drops the others.
    pub fn from_bits_truncate(bits: u32) -> (f: Self)
        ensures
            f.spec_bits() == bits & Self::ALL,
    {
        DecklinkVideoOutputFlags { bits: bits & Self::ALL }
    }

    /// Whether every bit of `mask` is set.
    pub fn contains(&self, mask: u32) -> (b: bool)
        ensures
            b == (self.spec_bits() & mask == mask),
    {
        self.bits & mask == mask
    }
}

#[derive(Debug, Clone, Copy, PartialEq, Eq, Structural)]
pub enum DecklinkAudioSampleRate {
    Rate48kHz,
}

impl DecklinkAudioSampleRate {
    /// The number by which the driver names this value.
    pub open spec fn spec_code(self) -> u32 {
        match self {
            DecklinkAudioSampleRate::Rate48kHz => 48000,
        }
    }

    /// The value that the driver names by `code`, if there is one.
    pub open spec fn spec_from_u32(code: u32) -> Option<Self> {
        if code == 48000 {
            Some(DecklinkAudioSampleRate::Rate48kHz)
        } else {
            None
        }
    }

    pub fn code(self) -> (c: u32)
        ensures
            c == self.spec_code(),
    {
        match self {
            DecklinkAudioSampleRate::Rate48kHz => 48000,
        }
    }

    pub fn from_u32(code: u32) -> (r: Option<Self>)
        ensures
            r == Self::spec_from_u32(code),
    {
        if code == 48000 {
            Some(DecklinkAudioSampleRate::Rate48kHz)
        } else {
            None
        }
    }

    /// The value that the driver names by `value`; a number outside the
    /// range of a code names none.
    pub open spec fn spec_from_i64(value: i64) -> Option<Self> {
        if 0 <= value <= u32::MAX {
            Self::spec_from_u32(value as u32)
        } else {
            None
        }
    }

    pub fn from_i64(value: i64) -> (r: Option<Self>)
        ensures
            r == Self::spec_from_i64(value),
    {
        if 0 <= value && value <= 0xFFFF_FFFF {
            Self::from_u32(value as u32)
        } else {
            None
        }
    }

    /// Decoding the code of a value gives that value back, so no two values
    /// share a code.
    pub proof fn lemma_code_round_trip(self)
        ensures
            Self::spec_from_u32(self.spec_code()) == Some(self),
            Self::spec_from_i64(self.spec_code() as i64) == Some(self),
    {
    }
}

#[derive(Debug, Clone, Copy, PartialEq, Eq, Structural)]
pub enum DecklinkAudioSampleType {
    Int16,
    Int32,
}

impl DecklinkAudioSampleType {
    /// The number by which the driver names this value.
    pub open spec fn spec_code(self) -> u32 {
        match self {
            DecklinkAudioSampleType::Int16 => 16,
            DecklinkAudioSampleType::Int32 => 32,
        }
    }

    /// The value that the driver names by `code`, if there is one.
    pub open spec fn spec_from_u32(code: u32) -> Option<Self> {
        if code == 16 {
            Some(DecklinkAudioSampleType::Int16)
        } else if code == 32 {
            Some(DecklinkAudioSampleType::Int32)
        } else {
            None
        }
    }

    pub fn code(self) -> (c: u32)
        ensures
            c == self.spec_code(),
    {
        match self {
            DecklinkAudioSampleType::Int16 => 16,
            DecklinkAudioSampleType::Int32 => 32,
        }
    }

    pub fn from_u32(code: u32) -> (r: Option<Self>)
        ensures
            r == Self::spec_from_u32(code),
    {
        if code == 16 {
            Some(DecklinkAudioSampleType::Int16)
        } else if code == 32 {
            Some(DecklinkAudioSampleType::Int32)
        } else {
            None
        }
    }

    /// The value that the driver names by `value`; a number outside the
    /// range of a code names none.
    pub open spec fn spec_from_i64(value: i64) -> Option<Self> {
        if 0 <= value <= u32::MAX {
            Self::spec_from_u32(value as u32)
        } else {
            None
        }
    }

    pub fn from_i64(value: i64) -> (r: Option<Self>)
        ensures
            r == Self::spec_from_i64(value),
    {
        if 0 <= value && value <= 0xFFFF_FFFF {
            Self::from_u32(value as u32)
        } else {
            None
        }
    }

    /// Decoding the code of a value gives that value back, so no two values
    /// share a code.
    pub proof fn lemma_code_round_trip(self)
        ensures
            Self::spec_from_u32(self.spec_code()) == Some(self),
            Self::spec_from_i64(self.spec_code() as i64) == Some(self),
    {
    }
}

#[derive(Debug, Clone, Copy, PartialEq, Eq, Structural)]
pub enum DecklinkAudioOutputStreamType {
    Continuous,
    ContinuousDontResample,
}

impl DecklinkAudioOutputStreamType {
    /// The number by which the driver names this value.
    pub open spec fn spec_code(self) -> u32 {
        match self {
            DecklinkAudioOutputStreamType::Continuous => 0,
            DecklinkAudioOutputStreamType::ContinuousDontResample => 1,
        }
    }

    /// The value that the driver names by `code`, if there is one.
    pub open spec fn spec_from_u32(code: u32) -> Option<Self> {
        if code == 0 {
            Some(DecklinkAudioOutputStreamType::Continuous)
        } else if code == 1 {
            Some(DecklinkAudioOutputStreamType::ContinuousDontResample)
        } else {
            None
        }
    }

    pub fn code(self) -> (c: u32)
        ensures
            c == self.spec_code(),
    {
        match self {
            DecklinkAudioOutputStreamType::Continuous => 0,
            DecklinkAudioOutputStreamType::ContinuousDontResample => 1,
        }
    }

    pub fn from_u32(code: u32) -> (r: Option<Self>)
        ensures
            r == Self::spec_from_u32(code),
    {
        if code == 0 {
            Some(DecklinkAudioOutputStreamType::Continuous)
        } else if code == 1 {
            Some(DecklinkAudioOutputStreamType::ContinuousDontResample)
        } else {
            None
        }
    }

    /// The value that the driver names by `value`; a number outside the
    /// range of a code names none.
    pub open spec fn spec_from_i64(value: i64) -> Option<Self> {
        if 0 <= value <= u32::MAX {
            Self::spec_from_u32(value as u32)
        } else {
            None
        }
    }

    pub fn from_i64(value: i64) -> (r: Option<Self>)
        ensures
            r == Self::spec_from_i64(value),
    {
        if 0 <= value && value <= 0xFFFF_FFFF {
            Self::from_u32(value as u32)
        } else {
            None
        }
    }

    /// Decoding the code of a value gives that value back, so no two values
    /// share a code.
    pub proof fn lemma_code_round_trip(self)
        ensures
            Self::spec_from_u32(self.spec_code()) == Some(self),
            Self::spec_from_i64(self.spec_code() as i64) == Some(self),
    {
    }
}

/// What became of a scheduled frame.
#[derive(Debug, Clone, Copy, PartialEq, Eq, Structural)]
pub enum DecklinkOutputFrameCompletionResult {
    /// The frame was shown at its time.
    Completed,
    /// The frame was shown after its time.
    DisplayedLate,
    /// The frame was not shown.
    Dropped,
    /// The frame was still waiting when playback stopped.
    Flushed,
    /// The driver gave an outcome that has no name here; the number is kept.
    Unknown(u32),
}

impl DecklinkOutputFrameCompletionResult {
    /// The outcome that the driver names by `code`.
    pub open spec fn spec_from_u32(code: u32) -> Self {
        if code == 0 {
            DecklinkOutputFrameCompletionResult::Completed
        } else if code == 1 {
            DecklinkOutputFrameCompletionResult::DisplayedLate
        } else if code == 2 {
            DecklinkOutputFrameCompletionResult::Dropped
        } else if code == 3 {
            DecklinkOutputFrameCompletionResult::Flushed
        } else {
            DecklinkOutputFrameCompletionResult::Unknown(code)
        }
    }

    /// The number by which the driver names this outcome.
    pub open spec fn spec_code(self) -> u32 {
        match self {
            DecklinkOutputFrameCompletionResult::Completed => 0,
            DecklinkOutputFrameCompletionResult::DisplayedLate => 1,
            DecklinkOutputFrameCompletionResult::Dropped => 2,
            DecklinkOutputFrameCompletionResult::Flushed => 3,
            DecklinkOutputFrameCompletionResult::Unknown(code) => code,
        }
    }

    pub fn from_u32(code: u32) -> (r: Self)
        ensures
            r == Self::spec_from_u32(code),
    {
        if code == 0 {
            DecklinkOutputFrameCompletionResult::Completed
        } else if code == 1 {
            DecklinkOutputFrameCompletionResult::DisplayedLate
        } else if code == 2 {
            DecklinkOutputFrameCompletionResult::Dropped
        } else if code == 3 {
            DecklinkOutputFrameCompletionResult::Flushed
        } else {
            DecklinkOutputFrameCompletionResult::Unknown(code)
        }
    }

    pub fn code(self) -> (c: u32)
        ensures
            c == self.spec_code(),
    {
        match self {
            DecklinkOutputFrameCompletionResult::Completed => 0,
            DecklinkOutputFrameCompletionResult::DisplayedLate => 1,
            DecklinkOutputFrameCompletionResult::Dropped => 2,
            DecklinkOutputFrameCompletionResult::Flushed => 3,
            DecklinkOutputFrameCompletionResult::Unknown(code) => code,
        }
    }
}

/// No number that the driver gives is lost in decoding: the outcome that a
/// number names has that number as its code.
pub proof fn lemma_completion_code_kept(code: u32)
    ensures
        DecklinkOutputFrameCompletionResult::spec_from_u32(code).spec_code() == code,
{
}

} // verus!
