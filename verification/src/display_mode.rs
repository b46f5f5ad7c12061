//! Video modes and what the driver tells of them.

use vstd::prelude::*;

verus! {

/// A video mode: resolution, scanning and frame rate.
#[derive(Debug, Clone, Copy, PartialEq, Eq, Structural)]
pub enum DecklinkDisplayModeId {
    NTSC,
    NTSC2398,
    PAL,
    NTSCp,
    PALp,
    HD1080p2398,
    HD1080p24,
    HD1080p25,
    HD1080p2997,
    HD1080p30,
    HD1080i50,
    HD1080i5994,
    HD1080i6000,
    HD1080p50,
    HD1080p5994,
    HD1080p6000,
    HD720p50,
    HD720p5994,
    HD720p60,
    HD2k2398,
    HD2k24,
    HD2k25,
    HD2kDCI2398,
    HD2kDCI24,
    HD2kDCI25,
    UHD4K2160p2398,
    UHD4K2160p24,
    UHD4K2160p25,
    UHD4K2160p2997,
    UHD4K2160p30,
    UHD4K2160p50,
    UHD4K2160p5994,
    UHD4K2160p60,
    UHD4KDCI2398,
    UHD4KDCI24,
    UHD4KDCI25,
    CintelRAW,
    CintelCompressedRAW,
    Unknown,
}

impl DecklinkDisplayModeId {
    /// The number by which the driver names this value.
    pub open spec fn spec_code(self) -> u32 {
        match self {
            DecklinkDisplayModeId::NTSC => 0x6E74_7363,
            DecklinkDisplayModeId::NTSC2398 => 0x6E74_3233,
            DecklinkDisplayModeId::PAL => 0x7061_6C20,
            DecklinkDisplayModeId::NTSCp => 0x6E74_7370,
            DecklinkDisplayModeId::PALp => 0x7061_6C70,
            DecklinkDisplayModeId::HD1080p2398 => 0x3233_7073,
            DecklinkDisplayModeId::HD1080p24 => 0x3234_7073,
            DecklinkDisplayModeId::HD1080p25 => 0x4870_3235,
            DecklinkDisplayModeId::HD1080p2997 => 0x4870_3239,
            DecklinkDisplayModeId::HD1080p30 => 0x4870_3330,
            DecklinkDisplayModeId::HD1080i50 => 0x4869_3530,
            DecklinkDisplayModeId::HD1080i5994 => 0x4869_3539,
            DecklinkDisplayModeId::HD1080i6000 => 0x4869_3630,
            DecklinkDisplayModeId::HD1080p50 => 0x4870_3530,
            DecklinkDisplayModeId::HD1080p5994 => 0x4870_3539,
            DecklinkDisplayModeId::HD1080p6000 => 0x4870_3630,
            DecklinkDisplayModeId::HD720p50 => 0x6870_3530,
            DecklinkDisplayModeId::HD720p5994 => 0x6870_3539,
            DecklinkDisplayModeId::HD720p60 => 0x6870_3630,
            DecklinkDisplayModeId::HD2k2398 => 0x326B_3233,
            DecklinkDisplayModeId::HD2k24 => 0x326B_3234,
            DecklinkDisplayModeId::HD2k25 => 0x326B_3235,
            DecklinkDisplayModeId::HD2kDCI2398 => 0x3264_3233,
            DecklinkDisplayModeId::HD2kDCI24 => 0x3264_3234,
            DecklinkDisplayModeId::HD2kDCI25 => 0x3264_3235,
            DecklinkDisplayModeId::UHD4K2160p2398 => 0x346B_3233,
            DecklinkDisplayModeId::UHD4K2160p24 => 0x346B_3234,
            DecklinkDisplayModeId::UHD4K2160p25 => 0x346B_3235,
            DecklinkDisplayModeId::UHD4K2160p2997 => 0x346B_3239,
            DecklinkDisplayModeId::UHD4K2160p30 => 0x346B_3330,
            DecklinkDisplayModeId::UHD4K2160p50 => 0x346B_3530,
            DecklinkDisplayModeId::UHD4K2160p5994 => 0x346B_3539,
            DecklinkDisplayModeId::UHD4K2160p60 => 0x346B_3630,
            DecklinkDisplayModeId::UHD4KDCI2398 => 0x3464_3233,
            DecklinkDisplayModeId::UHD4KDCI24 => 0x3464_3234,
            DecklinkDisplayModeId::UHD4KDCI25 => 0x3464_3235,
            DecklinkDisplayModeId::CintelRAW => 0x7277_6369,
            DecklinkDisplayModeId::CintelCompressedRAW => 0x7277_6363,
            DecklinkDisplayModeId::Unknown => 0x6975_6E6B,
        }
    }

    /// The value that the driver names by `code`, if there is one.
    pub open spec fn spec_from_u32(code: u32) -> Option<Self> {
        if code == 0x6E74_7363 {
            Some(DecklinkDisplayModeId::NTSC)
        } else if code == 0x6E74_3233 {
            Some(DecklinkDisplayModeId::NTSC2398)
        } else if code == 0x7061_6C20 {
            Some(DecklinkDisplayModeId::PAL)
        } else if code == 0x6E74_7370 {
            Some(DecklinkDisplayModeId::NTSCp)
        } else if code == 0x7061_6C70 {
            Some(DecklinkDisplayModeId::PALp)
        } else if code == 0x3233_7073 {
            Some(DecklinkDisplayModeId::HD1080p2398)
        } else if code == 0x3234_7073 {
            Some(DecklinkDisplayModeId::HD1080p24)
        } else if code == 0x4870_3235 {
            Some(DecklinkDisplayModeId::HD1080p25)
        } else if code == 0x4870_3239 {
            Some(DecklinkDisplayModeId::HD1080p2997)
        } else if code == 0x4870_3330 {
            Some(DecklinkDisplayModeId::HD1080p30)
        } else if code == 0x4869_3530 {
            Some(DecklinkDisplayModeId::HD1080i50)
        } else if code == 0x4869_3539 {
            Some(DecklinkDisplayModeId::HD1080i5994)
        } else if code == 0x4869_3630 {
            Some(DecklinkDisplayModeId::HD1080i6000)
        } else if code == 0x4870_3530 {
            Some(DecklinkDisplayModeId::HD1080p50)
        } else if code == 0x4870_3539 {
            Some(DecklinkDisplayModeId::HD1080p5994)
        } else if code == 0x4870_3630 {
            Some(DecklinkDisplayModeId::HD1080p6000)
        } else if code == 0x6870_3530 {
            Some(DecklinkDisplayModeId::HD720p50)
        } else if code == 0x6870_3539 {
            Some(DecklinkDisplayModeId::HD720p5994)
        } else if code == 0x6870_3630 {
            Some(DecklinkDisplayModeId::HD720p60)
        } else if code == 0x326B_3233 {
            Some(DecklinkDisplayModeId::HD2k2398)
        } else if code == 0x326B_3234 {
            Some(DecklinkDisplayModeId::HD2k24)
        } else if code == 0x326B_3235 {
            Some(DecklinkDisplayModeId::HD2k25)
        } else if code == 0x3264_3233 {
            Some(DecklinkDisplayModeId::HD2kDCI2398)
        } else if code == 0x3264_3234 {
            Some(DecklinkDisplayModeId::HD2kDCI24)
        } else if code == 0x3264_3235 {
            Some(DecklinkDisplayModeId::HD2kDCI25)
        } else if code == 0x346B_3233 {
            Some(DecklinkDisplayModeId::UHD4K2160p2398)
        } else if code == 0x346B_3234 {
            Some(DecklinkDisplayModeId::UHD4K2160p24)
        } else if code == 0x346B_3235 {
            Some(DecklinkDisplayModeId::UHD4K2160p25)
        } else if code == 0x346B_3239 {
            Some(DecklinkDisplayModeId::UHD4K2160p2997)
        } else if code == 0x346B_3330 {
            Some(DecklinkDisplayModeId::UHD4K2160p30)
        } else if code == 0x346B_3530 {
            Some(DecklinkDisplayModeId::UHD4K2160p50)
        } else if code == 0x346B_3539 {
            Some(DecklinkDisplayModeId::UHD4K2160p5994)
        } else if code == 0x346B_3630 {
            Some(DecklinkDisplayModeId::UHD4K2160p60)
        } else if code == 0x3464_3233 {
            Some(DecklinkDisplayModeId::UHD4KDCI2398)
        } else if code == 0x3464_3234 {
            Some(DecklinkDisplayModeId::UHD4KDCI24)
        } else if code == 0x3464_3235 {
            Some(DecklinkDisplayModeId::UHD4KDCI25)
        } else if code == 0x7277_6369 {
            Some(DecklinkDisplayModeId::CintelRAW)
        } else if code == 0x7277_6363 {
            Some(DecklinkDisplayModeId::CintelCompressedRAW)
        } else if code == 0x6975_6E6B {
            Some(DecklinkDisplayModeId::Unknown)
        } else {
            None
        }
    }

    pub fn code(self) -> (c: u32)
        ensures
            c == self.spec_code(),
    {
        match self {
            DecklinkDisplayModeId::NTSC => 0x6E74_7363,
            DecklinkDisplayModeId::NTSC2398 => 0x6E74_3233,
            DecklinkDisplayModeId::PAL => 0x7061_6C20,
            DecklinkDisplayModeId::NTSCp => 0x6E74_7370,
            DecklinkDisplayModeId::PALp => 0x7061_6C70,
            DecklinkDisplayModeId::HD1080p2398 => 0x3233_7073,
            DecklinkDisplayModeId::HD1080p24 => 0x3234_7073,
            DecklinkDisplayModeId::HD1080p25 => 0x4870_3235,
            DecklinkDisplayModeId::HD1080p2997 => 0x4870_3239,
            DecklinkDisplayModeId::HD1080p30 => 0x4870_3330,
            DecklinkDisplayModeId::HD1080i50 => 0x4869_3530,
            DecklinkDisplayModeId::HD1080i5994 => 0x4869_3539,
            DecklinkDisplayModeId::HD1080i6000 => 0x4869_3630,
            DecklinkDisplayModeId::HD1080p50 => 0x4870_3530,
            DecklinkDisplayModeId::HD1080p5994 => 0x4870_3539,
            DecklinkDisplayModeId::HD1080p6000 => 0x4870_3630,
            DecklinkDisplayModeId::HD720p50 => 0x6870_3530,
            DecklinkDisplayModeId::HD720p5994 => 0x6870_3539,
            DecklinkDisplayModeId::HD720p60 => 0x6870_3630,
            DecklinkDisplayModeId::HD2k2398 => 0x326B_3233,
            DecklinkDisplayModeId::HD2k24 => 0x326B_3234,
            DecklinkDisplayModeId::HD2k25 => 0x326B_3235,
            DecklinkDisplayModeId::HD2kDCI2398 => 0x3264_3233,
            DecklinkDisplayModeId::HD2kDCI24 => 0x3264_3234,
            DecklinkDisplayModeId::HD2kDCI25 => 0x3264_3235,
            DecklinkDisplayModeId::UHD4K2160p2398 => 0x346B_3233,
            DecklinkDisplayModeId::UHD4K2160p24 => 0x346B_3234,
            DecklinkDisplayModeId::UHD4K2160p25 => 0x346B_3235,
            DecklinkDisplayModeId::UHD4K2160p2997 => 0x346B_3239,
            DecklinkDisplayModeId::UHD4K2160p30 => 0x346B_3330,
            DecklinkDisplayModeId::UHD4K2160p50 => 0x346B_3530,
            DecklinkDisplayModeId::UHD4K2160p5994 => 0x346B_3539,
            DecklinkDisplayModeId::UHD4K2160p60 => 0x346B_3630,
            DecklinkDisplayModeId::UHD4KDCI2398 => 0x3464_3233,
            DecklinkDisplayModeId::UHD4KDCI24 => 0x3464_3234,
            DecklinkDisplayModeId::UHD4KDCI25 => 0x3464_3235,
            DecklinkDisplayModeId::CintelRAW => 0x7277_6369,
            DecklinkDisplayModeId::CintelCompressedRAW => 0x7277_6363,
            DecklinkDisplayModeId::Unknown => 0x6975_6E6B,
        }
    }

    pub fn from_u32(code: u32) -> (r: Option<Self>)
        ensures
            r == Self::spec_from_u32(code),
    {
        if code == 0x6E74_7363 {
            Some(DecklinkDisplayModeId::NTSC)
        } else if code == 0x6E74_3233 {
            Some(DecklinkDisplayModeId::NTSC2398)
        } else if code == 0x7061_6C20 {
            Some(DecklinkDisplayModeId::PAL)
        } else if code == 0x6E74_7370 {
            Some(DecklinkDisplayModeId::NTSCp)
        } else if code == 0x7061_6C70 {
            Some(DecklinkDisplayModeId::PALp)
        } else if code == 0x3233_7073 {
            Some(DecklinkDisplayModeId::HD1080p2398)
        } else if code == 0x3234_7073 {
            Some(DecklinkDisplayModeId::HD1080p24)
        } else if code == 0x4870_3235 {
            Some(DecklinkDisplayModeId::HD1080p25)
        } else if code == 0x4870_3239 {
            Some(DecklinkDisplayModeId::HD1080p2997)
        } else if code == 0x4870_3330 {
            Some(DecklinkDisplayModeId::HD1080p30)
        } else if code == 0x4869_3530 {
            Some(DecklinkDisplayModeId::HD1080i50)
        } else if code == 0x4869_3539 {
            Some(DecklinkDisplayModeId::HD1080i5994)
        } else if code == 0x4869_3630 {
            Some(DecklinkDisplayModeId::HD1080i6000)
        } else if code == 0x4870_3530 {
            Some(DecklinkDisplayModeId::HD1080p50)
        } else if code == 0x4870_3539 {
            Some(DecklinkDisplayModeId::HD1080p5994)
        } else if code == 0x4870_3630 {
            Some(DecklinkDisplayModeId::HD1080p6000)
        } else if code == 0x6870_3530 {
            Some(DecklinkDisplayModeId::HD720p50)
        } else if code == 0x6870_3539 {
            Some(DecklinkDisplayModeId::HD720p5994)
        } else if code == 0x6870_3630 {
            Some(DecklinkDisplayModeId::HD720p60)
        } else if code == 0x326B_3233 {
            Some(DecklinkDisplayModeId::HD2k2398)
        } else if code == 0x326B_3234 {
            Some(DecklinkDisplayModeId::HD2k24)
        } else if code == 0x326B_3235 {
            Some(DecklinkDisplayModeId::HD2k25)
        } else if code == 0x3264_3233 {
            Some(DecklinkDisplayModeId::HD2kDCI2398)
        } else if code == 0x3264_3234 {
            Some(DecklinkDisplayModeId::HD2kDCI24)
        } else if code == 0x3264_3235 {
            Some(DecklinkDisplayModeId::HD2kDCI25)
        } else if code == 0x346B_3233 {
            Some(DecklinkDisplayModeId::UHD4K2160p2398)
        } else if code == 0x346B_3234 {
            Some(DecklinkDisplayModeId::UHD4K2160p24)
        } else if code == 0x346B_3235 {
            Some(DecklinkDisplayModeId::UHD4K2160p25)
        } else if code == 0x346B_3239 {
            Some(DecklinkDisplayModeId::UHD4K2160p2997)
        } else if code == 0x346B_3330 {
            Some(DecklinkDisplayModeId::UHD4K2160p30)
        } else if code == 0x346B_3530 {
            Some(DecklinkDisplayModeId::UHD4K2160p50)
        } else if code == 0x346B_3539 {
            Some(DecklinkDisplayModeId::UHD4K2160p5994)
        } else if code == 0x346B_3630 {
            Some(DecklinkDisplayModeId::UHD4K2160p60)
        } else if code == 0x3464_3233 {
            Some(DecklinkDisplayModeId::UHD4KDCI2398)
        } else if code == 0x3464_3234 {
            Some(DecklinkDisplayModeId::UHD4KDCI24)
        } else if code == 0x3464_3235 {
            Some(DecklinkDisplayModeId::UHD4KDCI25)
        } else if code == 0x7277_6369 {
            Some(DecklinkDisplayModeId::CintelRAW)
        } else if code == 0x7277_6363 {
            Some(DecklinkDisplayModeId::CintelCompressedRAW)
        } else if code == 0x6975_6E6B {
            Some(DecklinkDisplayModeId::Unknown)
        } else {
            None
        }
    }

    /// The value that the driver names by `value`; a number outside the
    /// range of a code names none.
    pub open spec fn spec_from_i64(value: i64) -> Option<Self> {
        if 0 <= value <= u32::MAX {
            Self::spec_from_u32(value as u32)
        } else {
            None
        }
    }

    pub fn from_i64(value: i64) -> (r: Option<Self>)
        ensures
            r == Self::spec_from_i64(value),
    {
        if 0 <= value && value <= 0xFFFF_FFFF {
            Self::from_u32(value as u32)
        } else {
            None
        }
    }

    /// Decoding the code of a value gives that value back, so no two values
    /// share a code.
    pub proof fn lemma_code_round_trip(self)
        ensures
            Self::spec_from_u32(self.spec_code()) == Some(self),
            Self::spec_from_i64(self.spec_code() as i64) == Some(self),
    {
    }
}

/// Which field of a frame comes first, if it has fields.
#[derive(Debug, Clone, Copy, PartialEq, Eq, Structural)]
pub enum DecklinkFieldDominance {
    Unknown,
    LowerFieldFirst,
    UpperFieldFirst,
    ProgressiveFrame,
    ProgressiveSegmentedFrame,
}

impl DecklinkFieldDominance {
    /// The number by which the driver names this value.
    pub open spec fn spec_code(self) -> u32 {
        match self {
            DecklinkFieldDominance::Unknown => 0,
            DecklinkFieldDominance::LowerFieldFirst => 0x6C6F_7772,
            DecklinkFieldDominance::UpperFieldFirst => 0x7570_7072,
            DecklinkFieldDominance::ProgressiveFrame => 0x7072_6F67,
            DecklinkFieldDominance::ProgressiveSegmentedFrame => 0x7073_6620,
        }
    }

    /// The value that the driver names by `code`, if there is one.
    pub open spec fn spec_from_u32(code: u32) -> Option<Self> {
        if code == 0 {
            Some(DecklinkFieldDominance::Unknown)
        } else if code == 0x6C6F_7772 {
            Some(DecklinkFieldDominance::LowerFieldFirst)
        } else if code == 0x7570_7072 {
            Some(DecklinkFieldDominance::UpperFieldFirst)
        } else if code == 0x7072_6F67 {
            Some(DecklinkFieldDominance::ProgressiveFrame)
        } else if code == 0x7073_6620 {
            Some(DecklinkFieldDominance::ProgressiveSegmentedFrame)
        } else {
            None
        }
    }

    pub fn code(self) -> (c: u32)
        ensures
            c == self.spec_code(),
    {
        match self {
            DecklinkFieldDominance::Unknown => 0,
            DecklinkFieldDominance::LowerFieldFirst => 0x6C6F_7772,
            DecklinkFieldDominance::UpperFieldFirst => 0x7570_7072,
            DecklinkFieldDominance::ProgressiveFrame => 0x7072_6F67,
            DecklinkFieldDominance::ProgressiveSegmentedFrame => 0x7073_6620,
        }
    }

    pub fn from_u32(code: u32) -> (r: Option<Self>)
        ensures
            r == Self::spec_from_u32(code),
    {
        if code == 0 {
            Some(DecklinkFieldDominance::Unknown)
        } else if code == 0x6C6F_7772 {
            Some(DecklinkFieldDominance::LowerFieldFirst)
        } else if code == 0x7570_7072 {
            Some(DecklinkFieldDominance::UpperFieldFirst)
        } else if code == 0x7072_6F67 {
            Some(DecklinkFieldDominance::ProgressiveFrame)
        } else if code == 0x7073_6620 {
            Some(DecklinkFieldDominance::ProgressiveSegmentedFrame)
        } else {
            None
        }
    }

    /// The value that the driver names by `value`; a number outside the
    /// range of a code names none.
    pub open spec fn spec_from_i64(value: i64) -> Option<Self> {
        if 0 <= value <= u32::MAX {
            Self::spec_from_u32(value as u32)
        } else {
            None
        }
    }

    pub fn from_i64(value: i64) -> (r: Option<Self>)
        ensures
            r == Self::spec_from_i64(value),
    {
        if 0 <= value && value <= 0xFFFF_FFFF {
            Self::from_u32(value as u32)
        } else {
            None
        }
    }

    /// Decoding the code of a value gives that value back, so no two values
    /// share a code.
    pub proof fn lemma_code_round_trip(self)
        ensures
            Self::spec_from_u32(self.spec_code()) == Some(self),
            Self::spec_from_i64(self.spec_code() as i64) == Some(self),
    {
    }
}

/// What a video mode supports.
#[derive(Debug, Clone, Copy, PartialEq, Eq, Hash, Structural)]
pub struct DecklinkDisplayModeFlag {
    bits: u32,
}

impl DecklinkDisplayModeFlag {
    /// The mode can carry 3D.
    pub const SUPPORTS_3D: u32 = 0x1;

    /// The mode uses the Rec. 601 colour space.
    pub const COLORSPACE_REC601: u32 = 0x2;

    /// The mode uses the Rec. 709 colour space.
    pub const COLORSPACE_REC709: u32 = 0x4;

    /// Every bit that has a meaning.
    pub const ALL: u32 = 0x0000_0007;

    /// The bits that are set.
    pub closed spec fn spec_bits(self) -> u32 {
        self.bits
    }

    pub fn bits(&self) -> (b: u32)
        ensures
            b == self.spec_bits(),
    {
        self.bits
    }

    pub fn empty() -> (f: Self)
        ensures
            f.spec_bits() == 0,
    {
        DecklinkDisplayModeFlag { bits: 0 }
    }

    /// Keeps the bits that have a meaning and drops the others.
    pub fn from_bits_truncate(bits: u32) -> (f: Self)
        ensures
            f.spec_bits() == bits & Self::ALL,
    {
        DecklinkDisplayModeFlag { bits: bits & Self::ALL }
    }

    /// Whether every bit of `mask` is set.
    pub fn contains(&self, mask: u32) -> (b: bool)
        ensures
            b == (self.spec_bits() & mask == mask),
    {
        self.bits & mask == mask
    }
}

/// A video mode as the driver described it: its name if the driver gave one,
/// the raw numbers of the mode, its field dominance and its flags, the size of
/// the picture, and the answer to the request for the frame rate.
pub struct DecklinkDisplayMode {
    name: Option<String>,
    mode: u32,
    width: i64,
    height: i64,
    framerate_status: i32,
    frame_duration: i64,
    time_scale: i64,
    field_dominance: u32,
    flags: u32,
}

/// The parts of a driver's description of a video mode.
pub struct DisplayModeReport {
    pub name: Option<String>,
    pub mode: u32,
    pub width: i64,
    pub height: i64,
    pub framerate_status: i32,
    pub frame_duration: i64,
    pub time_scale: i64,
    pub field_dominance: u32,
    pub flags: u32,
}

impl View for DecklinkDisplayMode {
    type V = DisplayModeReport;

    closed spec fn view(&self) -> DisplayModeReport {
        DisplayModeReport {
            name: self.name,
            mode: self.mode,
            width: self.width,
            height: self.height,
            framerate_status: self.framerate_status,
            frame_duration: self.frame_duration,
            time_scale: self.time_scale,
            field_dominance: self.field_dominance,
            flags: self.flags,
        }
    }
}

/// Takes a driver's description of a video mode.
pub fn wrap_display_mode(report: DisplayModeReport) -> (mode: DecklinkDisplayMode)
    ensures
        mode@ == report,
{
    DecklinkDisplayMode {
        name: report.name,
        mode: report.mode,
        width: report.width,
        height: report.height,
        framerate_status: report.framerate_status,
        frame_duration: report.frame_duration,
        time_scale: report.time_scale,
        field_dominance: report.field_dominance,
        flags: report.flags,
    }
}

impl DecklinkDisplayMode {
    pub fn name(&self) -> (r: Option<&String>)
        ensures
            r.is_some() == self@.name.is_some(),
            r matches Some(s) ==> self@.name == Some(*s),
    {
        self.name.as_ref()
    }

    /// The mode that the driver named, `Unknown` where its number names none.
    pub fn mode(&self) -> (r: DecklinkDisplayModeId)
        ensures
            r == (match DecklinkDisplayModeId::spec_from_u32(self@.mode) {
                Some(id) => id,
                None => DecklinkDisplayModeId::Unknown,
            }),
    {
        match DecklinkDisplayModeId::from_u32(self.mode) {
            Some(id) => id,
            None => DecklinkDisplayModeId::Unknown,
        }
    }

    pub fn width(&self) -> (w: i64)
        ensures
            w == self@.width,
    {
        self.width
    }

    pub fn height(&self) -> (h: i64)
        ensures
            h == self@.height,
    {
        self.height
    }

    /// The duration of a frame and the ticks per second in which it is
    /// given, where the driver told them.
    pub fn framerate(&self) -> (r: Option<(i64, i64)>)
        ensures
            r == (if self@.framerate_status == crate::util::STATUS_OK {
                Some((self@.frame_duration, self@.time_scale))
            } else {
                None
            }),
    {
        if self.framerate_status == crate::util::STATUS_OK {
            Some((self.frame_duration, self.time_scale))
        } else {
            None
        }
    }

    /// The field dominance that the driver named, `Unknown` where its number
    /// names none.
    pub fn field_dominance(&self) -> (r: DecklinkFieldDominance)
        ensures
            r == (match DecklinkFieldDominance::spec_from_u32(self@.field_dominance) {
                Some(d) => d,
                None => DecklinkFieldDominance::Unknown,
            }),
    {
        match DecklinkFieldDominance::from_u32(self.field_dominance) {
            Some(d) => d,
            None => DecklinkFieldDominance::Unknown,
        }
    }

    pub fn flags(&self) -> (f: DecklinkDisplayModeFlag)
        ensures
            f.spec_bits() == self@.flags & DecklinkDisplayModeFlag::ALL,
    {
        DecklinkDisplayModeFlag::from_bits_truncate(self.flags)
    }
}

} // verus!
