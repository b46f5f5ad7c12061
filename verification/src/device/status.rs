//! The state of a device, as its driver reported it.

use crate::device::reading::{
    get_bytes, get_flag, get_int, low_bits, spec_bytes, spec_flag, spec_int, Reading,
};
use crate::display_mode::DecklinkDisplayModeId;
use crate::frame::DecklinkPixelFormat;
use crate::util::SdkError;
use vstd::prelude::*;

verus! {

/// The things that can be asked of the state of a device.
#[derive(Debug, Clone, Copy, PartialEq, Eq, Structural)]
pub enum DecklinkStatusId {
    /// The video mode that the device detects on its input.
    DetectedVideoInputMode,
    /// The flags of the video that the device detects on its input.
    DetectedVideoInputFlags,
    /// The video mode of the input.
    CurrentVideoInputMode,
    /// The pixel format of the input.
    CurrentVideoInputPixelFormat,
    /// The flags of the video on the input.
    CurrentVideoInputFlags,
    /// The video mode of the output.
    CurrentVideoOutputMode,
    /// The flags of the video on the output.
    CurrentVideoOutputFlags,
    /// The number of lanes of the PCIe link.
    PCIExpressLinkWidth,
    /// The generation of the PCIe link.
    PCIExpressLinkSpeed,
    /// The pixel format of the last frame that was output.
    LastVideoOutputPixelFormat,
    /// The video mode that the device detects on its reference input.
    ReferenceSignalMode,
    /// The flags of the signal on the reference input.
    ReferenceSignalFlags,
    /// Whether the device can capture and play at once.
    DuplexMode,
    /// What keeps the device busy, as the driver's bit set.
    Busy,
    /// The panel that is installed, as the driver's number.
    InterchangeablePanelType,
    /// True if the device is locked to the signal on its video input.
    VideoInputSignalLocked,
    /// True if the device is locked to the signal on its reference input.
    ReferenceSignalLocked,
    /// The EDID that the sink on the HDMI output sent.
    ReceivedEDID,
}

impl DecklinkStatusId {
    /// The number by which the driver names this value.
    pub open spec fn spec_code(self) -> u32 {
        match self {
            DecklinkStatusId::DetectedVideoInputMode => 0x6476_696D,
            DecklinkStatusId::DetectedVideoInputFlags => 0x6476_6966,
            DecklinkStatusId::CurrentVideoInputMode => 0x6376_696D,
            DecklinkStatusId::CurrentVideoInputPixelFormat => 0x6376_6970,
            DecklinkStatusId::CurrentVideoInputFlags => 0x6376_6966,
            DecklinkStatusId::CurrentVideoOutputMode => 0x6376_6F6D,
            DecklinkStatusId::CurrentVideoOutputFlags => 0x6376_6F66,
            DecklinkStatusId::PCIExpressLinkWidth => 0x7077_6964,
            DecklinkStatusId::PCIExpressLinkSpeed => 0x706C_6E6B,
            DecklinkStatusId::LastVideoOutputPixelFormat => 0x6F70_6978,
            DecklinkStatusId::ReferenceSignalMode => 0x7265_666D,
            DecklinkStatusId::ReferenceSignalFlags => 0x7265_6666,
            DecklinkStatusId::DuplexMode => 0x6475_7078,
            DecklinkStatusId::Busy => 0x6275_7379,
            DecklinkStatusId::InterchangeablePanelType => 0x6963_7074,
            DecklinkStatusId::VideoInputSignalLocked => 0x7669_736C,
            DecklinkStatusId::ReferenceSignalLocked => 0x7265_666C,
            DecklinkStatusId::ReceivedEDID => 0x6564_6964,
        }
    }

    /// The value that the driver names by `code`, if there is one.
    pub open spec fn spec_from_u32(code: u32) -> Option<Self> {
        if code == 0x6476_696D {
            Some(DecklinkStatusId::DetectedVideoInputMode)
        } else if code == 0x6476_6966 {
            Some(DecklinkStatusId::DetectedVideoInputFlags)
        } else if code == 0x6376_696D {
            Some(DecklinkStatusId::CurrentVideoInputMode)
        } else if code == 0x6376_6970 {
            Some(DecklinkStatusId::CurrentVideoInputPixelFormat)
        } else if code == 0x6376_6966 {
            Some(DecklinkStatusId::CurrentVideoInputFlags)
        } else if code == 0x6376_6F6D {
            Some(DecklinkStatusId::CurrentVideoOutputMode)
        } else if code == 0x6376_6F66 {
            Some(DecklinkStatusId::CurrentVideoOutputFlags)
        } else if code == 0x7077_6964 {
            Some(DecklinkStatusId::PCIExpressLinkWidth)
        } else if code == 0x706C_6E6B {
            Some(DecklinkStatusId::PCIExpressLinkSpeed)
        } else if code == 0x6F70_6978 {
            Some(DecklinkStatusId::LastVideoOutputPixelFormat)
        } else if code == 0x7265_666D {
            Some(DecklinkStatusId::ReferenceSignalMode)
        } else if code == 0x7265_6666 {
            Some(DecklinkStatusId::ReferenceSignalFlags)
        } else if code == 0x6475_7078 {
            Some(DecklinkStatusId::DuplexMode)
        } else if code == 0x6275_7379 {
            Some(DecklinkStatusId::Busy)
        } else if code == 0x6963_7074 {
            Some(DecklinkStatusId::InterchangeablePanelType)
        } else if code == 0x7669_736C {
            Some(DecklinkStatusId::VideoInputSignalLocked)
        } else if code == 0x7265_666C {
            Some(DecklinkStatusId::ReferenceSignalLocked)
        } else if code == 0x6564_6964 {
            Some(DecklinkStatusId::ReceivedEDID)
        } else {
            None
        }
    }

    pub fn code(self) -> (c: u32)
        ensures
            c == self.spec_code(),
    {
        match self {
            DecklinkStatusId::DetectedVideoInputMode => 0x6476_696D,
            DecklinkStatusId::DetectedVideoInputFlags => 0x6476_6966,
            DecklinkStatusId::CurrentVideoInputMode => 0x6376_696D,
            DecklinkStatusId::CurrentVideoInputPixelFormat => 0x6376_6970,
            DecklinkStatusId::CurrentVideoInputFlags => 0x6376_6966,
            DecklinkStatusId::CurrentVideoOutputMode => 0x6376_6F6D,
            DecklinkStatusId::CurrentVideoOutputFlags => 0x6376_6F66,
            DecklinkStatusId::PCIExpressLinkWidth => 0x7077_6964,
            DecklinkStatusId::PCIExpressLinkSpeed => 0x706C_6E6B,
            DecklinkStatusId::LastVideoOutputPixelFormat => 0x6F70_6978,
            DecklinkStatusId::ReferenceSignalMode => 0x7265_666D,
            DecklinkStatusId::ReferenceSignalFlags => 0x7265_6666,
            DecklinkStatusId::DuplexMode => 0x6475_7078,
            DecklinkStatusId::Busy => 0x6275_7379,
            DecklinkStatusId::InterchangeablePanelType => 0x6963_7074,
            DecklinkStatusId::VideoInputSignalLocked => 0x7669_736C,
            DecklinkStatusId::ReferenceSignalLocked => 0x7265_666C,
            DecklinkStatusId::ReceivedEDID => 0x6564_6964,
        }
    }

    pub fn from_u32(code: u32) -> (r: Option<Self>)
        ensures
            r == Self::spec_from_u32(code),
    {
        if code == 0x6476_696D {
            Some(DecklinkStatusId::DetectedVideoInputMode)
        } else if code == 0x6476_6966 {
            Some(DecklinkStatusId::DetectedVideoInputFlags)
        } else if code == 0x6376_696D {
            Some(DecklinkStatusId::CurrentVideoInputMode)
        } else if code == 0x6376_6970 {
            Some(DecklinkStatusId::CurrentVideoInputPixelFormat)
        } else if code == 0x6376_6966 {
            Some(DecklinkStatusId::CurrentVideoInputFlags)
        } else if code == 0x6376_6F6D {
            Some(DecklinkStatusId::CurrentVideoOutputMode)
        } else if code == 0x6376_6F66 {
            Some(DecklinkStatusId::CurrentVideoOutputFlags)
        } else if code == 0x7077_6964 {
            Some(DecklinkStatusId::PCIExpressLinkWidth)
        } else if code == 0x706C_6E6B {
            Some(DecklinkStatusId::PCIExpressLinkSpeed)
        } else if code == 0x6F70_6978 {
            Some(DecklinkStatusId::LastVideoOutputPixelFormat)
        } else if code == 0x7265_666D {
            Some(DecklinkStatusId::ReferenceSignalMode)
        } else if code == 0x7265_6666 {
            Some(DecklinkStatusId::ReferenceSignalFlags)
        } else if code == 0x6475_7078 {
            Some(DecklinkStatusId::DuplexMode)
        } else if code == 0x6275_7379 {
            Some(DecklinkStatusId::Busy)
        } else if code == 0x6963_7074 {
            Some(DecklinkStatusId::InterchangeablePanelType)
        } else if code == 0x7669_736C {
            Some(DecklinkStatusId::VideoInputSignalLocked)
        } else if code == 0x7265_666C {
            Some(DecklinkStatusId::ReferenceSignalLocked)
        } else if code == 0x6564_6964 {
            Some(DecklinkStatusId::ReceivedEDID)
        } else {
            None
        }
    }

    /// The value that the driver names by `value`; a number outside the
    /// range of a code names none.
    pub open spec fn spec_from_i64(value: i64) -> Option<Self> {
        if 0 <= value <= u32::MAX {
            Self::spec_from_u32(value as u32)
        } else {
            None
        }
    }

    pub fn from_i64(value: i64) -> (r: Option<Self>)
        ensures
            r == Self::spec_from_i64(value),
    {
        if 0 <= value && value <= 0xFFFF_FFFF {
            Self::from_u32(value as u32)
        } else {
            None
        }
    }

    /// Decoding the code of a value gives that value back, so no two values
    /// share a code.
    pub proof fn lemma_code_round_trip(self)
        ensures
            Self::spec_from_u32(self.spec_code()) == Some(self),
            Self::spec_from_i64(self.spec_code() as i64) == Some(self),
    {
    }
}

/// What is known of a video signal.
#[derive(Debug, Clone, Copy, PartialEq, Eq, Hash, Structural)]
pub struct DecklinkVideoStatusFlags {
    bits: u32,
}

impl DecklinkVideoStatusFlags {
    /// Progressive frames are carried as segmented frames.
    pub const PSF: u32 = 0x1;

    /// The signal is two streams that make one 3D picture.
    pub const DUAL_STREAM_3D: u32 = 0x2;

    /// Every bit that has a meaning.
    pub const ALL: u32 = 0x0000_0003;

    /// The bits that are set.
    pub closed spec fn spec_bits(self) -> u32 {
        self.bits
    }

    pub fn bits(&self) -> (b: u32)
        ensures
            b == self.spec_bits(),
    {
        self.bits
    }

    pub fn empty() -> (f: Self)
        ensures
            f.spec_bits() == 0,
    {
        DecklinkVideoStatusFlags { bits: 0 }
    }

    /// Keeps the bits that have a meaning and drops the others.
    pub fn from_bits_truncate(bits: u32) -> (f: Self)
        ensures
            f.spec_bits() == bits & Self::ALL,
    {
        DecklinkVideoStatusFlags { bits: bits & Self::ALL }
    }

    /// Whether every bit of `mask` is set.
    pub fn contains(&self, mask: u32) -> (b: bool)
        ensures
            b == (self.spec_bits() & mask == mask),
    {
        self.bits & mask == mask
    }
}

/// Whether a device can capture and play at once.
#[derive(Debug, Clone, Copy, PartialEq, Eq, Structural)]
pub enum DecklinkDuplexStatus {
    /// It can do both at once.
    FullDuplex,
    /// It can do either, one at a time.
    HaldDuplex,
    /// It can do only one of the two.
    Simplex,
    /// It is switched off in this profile.
    Inactive,
}

impl DecklinkDuplexStatus {
    /// The number by which the driver names this value.
    pub open spec fn spec_code(self) -> u32 {
        match self {
            DecklinkDuplexStatus::FullDuplex => 0x6664_7570,
            DecklinkDuplexStatus::HaldDuplex => 0x6864_7570,
            DecklinkDuplexStatus::Simplex => 0x7370_6C78,
            DecklinkDuplexStatus::Inactive => 0x696E_6163,
        }
    }

    /// The value that the driver names by `code`, if there is one.
    pub open spec fn spec_from_u32(code: u32) -> Option<Self> {
        if code == 0x6664_7570 {
            Some(DecklinkDuplexStatus::FullDuplex)
        } else if code == 0x6864_7570 {
            Some(DecklinkDuplexStatus::HaldDuplex)
        } else if code == 0x7370_6C78 {
            Some(DecklinkDuplexStatus::Simplex)
        } else if code == 0x696E_6163 {
            Some(DecklinkDuplexStatus::Inactive)
        } else {
            None
        }
    }

    pub fn code(self) -> (c: u32)
        ensures
            c == self.spec_code(),
    {
        match self {
            DecklinkDuplexStatus::FullDuplex => 0x6664_7570,
            DecklinkDuplexStatus::HaldDuplex => 0x6864_7570,
            DecklinkDuplexStatus::Simplex => 0x7370_6C78,
            DecklinkDuplexStatus::Inactive => 0x696E_6163,
        }
    }

    pub fn from_u32(code: u32) -> (r: Option<Self>)
        ensures
            r == Self::spec_from_u32(code),
    {
        if code == 0x6664_7570 {
            Some(DecklinkDuplexStatus::FullDuplex)
        } else if code == 0x6864_7570 {
            Some(DecklinkDuplexStatus::HaldDuplex)
        } else if code == 0x7370_6C78 {
            Some(DecklinkDuplexStatus::Simplex)
        } else if code == 0x696E_6163 {
            Some(DecklinkDuplexStatus::Inactive)
        } else {
            None
        }
    }

    /// The value that the driver names by `value`; a number outside the
    /// range of a code names none.
    pub open spec fn spec_from_i64(value: i64) -> Option<Self> {
        if 0 <= value <= u32::MAX {
            Self::spec_from_u32(value as u32)
        } else {
            None
        }
    }

    pub fn from_i64(value: i64) -> (r: Option<Self>)
        ensures
            r == Self::spec_from_i64(value),
    {
        if 0 <= value && value <= 0xFFFF_FFFF {
            Self::from_u32(value as u32)
        } else {
            None
        }
    }

    /// Decoding the code of a value gives that value back, so no two values
    /// share a code.
    pub proof fn lemma_code_round_trip(self)
        ensures
            Self::spec_from_u32(self.spec_code()) == Some(self),
            Self::spec_from_i64(self.spec_code() as i64) == Some(self),
    {
    }
}

/// The kind of value that the driver gives for a part of the state.
#[derive(Debug, Clone, Copy, PartialEq, Eq, Structural)]
pub enum DecklinkStatusKind {
    Flag,
    Int,
    Bytes,
}

impl DecklinkStatusId {
    /// The kind of value that the driver gives for this part of the state.
    pub open spec fn spec_kind(self) -> DecklinkStatusKind {
        match self {
            DecklinkStatusId::VideoInputSignalLocked => DecklinkStatusKind::Flag,
            DecklinkStatusId::ReferenceSignalLocked => DecklinkStatusKind::Flag,
            DecklinkStatusId::ReceivedEDID => DecklinkStatusKind::Bytes,
            _ => DecklinkStatusKind::Int,
        }
    }

    pub fn kind(self) -> (k: DecklinkStatusKind)
        ensures
            k == self.spec_kind(),
    {
        match self {
            DecklinkStatusId::VideoInputSignalLocked => DecklinkStatusKind::Flag,
            DecklinkStatusId::ReferenceSignalLocked => DecklinkStatusKind::Flag,
            DecklinkStatusId::ReceivedEDID => DecklinkStatusKind::Bytes,
            _ => DecklinkStatusKind::Int,
        }
    }
}

/// The state of a device: what its driver answered when it was asked for
/// each part of it.
pub struct DecklinkDeviceStatus {
    readings: Vec<Reading>,
}

impl View for DecklinkDeviceStatus {
    type V = Seq<Reading>;

    closed spec fn view(&self) -> Seq<Reading> {
        self.readings@
    }
}

/// The value that an integer of the driver names: the driver's failure
/// where there is one, and `FALSE` where the integer names no value.
pub open spec fn spec_into_enum<T>(
    value: Result<i64, SdkError>,
    decode: spec_fn(i64) -> Option<T>,
) -> Result<T, SdkError> {
    match value {
        Err(e) => Err(e),
        Ok(v) => match decode(v) {
            Some(t) => Ok(t),
            None => Err(SdkError::FALSE),
        },
    }
}

/// The flags that an integer of the driver stands for: its low 32 bits, of
/// which those that have a meaning are kept.
pub open spec fn spec_status_flags(value: Result<i64, SdkError>) -> Result<u32, SdkError> {
    match value {
        Ok(v) => Ok((v as u32) & DecklinkVideoStatusFlags::ALL),
        Err(e) => Err(e),
    }
}

/// The unsigned number that an integer of the driver stands for: its low 32 bits.
pub open spec fn spec_low_bits(value: Result<i64, SdkError>) -> Result<u32, SdkError> {
    match value {
        Ok(v) => Ok(v as u32),
        Err(e) => Err(e),
    }
}

impl DecklinkDeviceStatus {
    /// Takes the answers of the driver.
    pub fn from(readings: Vec<Reading>) -> (status: DecklinkDeviceStatus)
        ensures
            status@ == readings@,
    {
        DecklinkDeviceStatus { readings }
    }

    fn get_mode(&self, id: u32) -> (r: Result<DecklinkDisplayModeId, SdkError>)
        ensures
            r == spec_into_enum(
                spec_int(self@, id),
                |v: i64| DecklinkDisplayModeId::spec_from_i64(v),
            ),
    {
        match get_int(&self.readings, id) {
            Err(e) => Err(e),
            Ok(v) => match DecklinkDisplayModeId::from_i64(v) {
                Some(mode) => Ok(mode),
                None => Err(SdkError::FALSE),
            },
        }
    }

    fn get_pixel_format(&self, id: u32) -> (r: Result<DecklinkPixelFormat, SdkError>)
        ensures
            r == spec_into_enum(
                spec_int(self@, id),
                |v: i64| DecklinkPixelFormat::spec_from_i64(v),
            ),
    {
        match get_int(&self.readings, id) {
            Err(e) => Err(e),
            Ok(v) => match DecklinkPixelFormat::from_i64(v) {
                Some(format) => Ok(format),
                None => Err(SdkError::FALSE),
            },
        }
    }

    fn get_flags(&self, id: u32) -> (r: Result<DecklinkVideoStatusFlags, SdkError>)
        ensures
            r matches Ok(flags) ==> spec_status_flags(spec_int(self@, id)) == Ok::<u32, SdkError>(
                flags.spec_bits(),
            ),
            r matches Err(e) ==> spec_int(self@, id) == Err::<i64, SdkError>(e),
    {
        match get_int(&self.readings, id) {
            Ok(v) => Ok(DecklinkVideoStatusFlags::from_bits_truncate(low_bits(v))),
            Err(e) => Err(e),
        }
    }

    fn get_unsigned(&self, id: u32) -> (r: Result<u32, SdkError>)
        ensures
            r == spec_low_bits(spec_int(self@, id)),
    {
        match get_int(&self.readings, id) {
            Ok(v) => Ok(low_bits(v)),
            Err(e) => Err(e),
        }
    }

    /// The video mode that the device detects on its input.
    pub fn detected_video_input_mode(&self) -> (r: Result<DecklinkDisplayModeId, SdkError>)
        ensures
            r == spec_into_enum(
                spec_int(self@, 0x6476_696D),
                |v: i64| DecklinkDisplayModeId::spec_from_i64(v),
            ),
    {
        self.get_mode(DecklinkStatusId::DetectedVideoInputMode.code())
    }

    /// The flags of the video that the device detects on its input.
    pub fn detected_video_input_flags(&self) -> (r: Result<DecklinkVideoStatusFlags, SdkError>)
        ensures
            r matches Ok(flags) ==> spec_status_flags(spec_int(self@, 0x6476_6966)) == Ok::<
                u32,
                SdkError,
            >(flags.spec_bits()),
            r matches Err(e) ==> spec_int(self@, 0x6476_6966) == Err::<i64, SdkError>(e),
    {
        self.get_flags(DecklinkStatusId::DetectedVideoInputFlags.code())
    }

    /// The video mode of the input.
    pub fn current_video_input_mode(&self) -> (r: Result<DecklinkDisplayModeId, SdkError>)
        ensures
            r == spec_into_enum(
                spec_int(self@, 0x6376_696D),
                |v: i64| DecklinkDisplayModeId::spec_from_i64(v),
            ),
    {
        self.get_mode(DecklinkStatusId::CurrentVideoInputMode.code())
    }

    /// The pixel format of the input.
    pub fn current_video_input_pixel_format(&self) -> (r: Result<DecklinkPixelFormat, SdkError>)
        ensures
            r == spec_into_enum(
                spec_int(self@, 0x6376_6970),
                |v: i64| DecklinkPixelFormat::spec_from_i64(v),
            ),
    {
        self.get_pixel_format(DecklinkStatusId::CurrentVideoInputPixelFormat.code())
    }

    /// The flags of the video on the input.
    pub fn current_video_input_flags(&self) -> (r: Result<DecklinkVideoStatusFlags, SdkError>)
        ensures
            r matches Ok(flags) ==> spec_status_flags(spec_int(self@, 0x6376_6966)) == Ok::<
                u32,
                SdkError,
            >(flags.spec_bits()),
            r matches Err(e) ==> spec_int(self@, 0x6376_6966) == Err::<i64, SdkError>(e),
    {
        self.get_flags(DecklinkStatusId::CurrentVideoInputFlags.code())
    }

    /// The video mode of the output.
    pub fn current_video_output_mode(&self) -> (r: Result<DecklinkDisplayModeId, SdkError>)
        ensures
            r == spec_into_enum(
                spec_int(self@, 0x6376_6F6D),
                |v: i64| DecklinkDisplayModeId::spec_from_i64(v),
            ),
    {
        self.get_mode(DecklinkStatusId::CurrentVideoOutputMode.code())
    }

    /// The flags of the video on the output.
    pub fn current_video_output_flags(&self) -> (r: Result<DecklinkVideoStatusFlags, SdkError>)
        ensures
            r matches Ok(flags) ==> spec_status_flags(spec_int(self@, 0x6376_6F66)) == Ok::<
                u32,
                SdkError,
            >(flags.spec_bits()),
            r matches Err(e) ==> spec_int(self@, 0x6376_6F66) == Err::<i64, SdkError>(e),
    {
        self.get_flags(DecklinkStatusId::CurrentVideoOutputFlags.code())
    }

    /// The number of lanes of the PCIe link.
    pub fn pci_express_link_width(&self) -> (r: Result<u32, SdkError>)
        ensures
            r == spec_low_bits(spec_int(self@, 0x7077_6964)),
    {
        self.get_unsigned(DecklinkStatusId::PCIExpressLinkWidth.code())
    }

    /// The generation of the PCIe link.
    pub fn pci_express_link_speed(&self) -> (r: Result<u32, SdkError>)
        ensures
            r == spec_low_bits(spec_int(self@, 0x706C_6E6B)),
    {
        self.get_unsigned(DecklinkStatusId::PCIExpressLinkSpeed.code())
    }

    /// The pixel format of the last frame that was output.
    pub fn last_video_output_pixel_format(&self) -> (r: Result<DecklinkPixelFormat, SdkError>)
        ensures
            r == spec_into_enum(
                spec_int(self@, 0x6F70_6978),
                |v: i64| DecklinkPixelFormat::spec_from_i64(v),
            ),
    {
        self.get_pixel_format(DecklinkStatusId::LastVideoOutputPixelFormat.code())
    }

    /// The video mode that the device detects on its reference input.
    pub fn reference_signal_mode(&self) -> (r: Result<DecklinkDisplayModeId, SdkError>)
        ensures
            r == spec_into_enum(
                spec_int(self@, 0x7265_666D),
                |v: i64| DecklinkDisplayModeId::spec_from_i64(v),
            ),
    {
        self.get_mode(DecklinkStatusId::ReferenceSignalMode.code())
    }

    /// The flags of the signal on the reference input.
    pub fn reference_signal_flags(&self) -> (r: Result<i64, SdkError>)
        ensures
            r == spec_int(self@, 0x7265_6666),
    {
        get_int(&self.readings, DecklinkStatusId::ReferenceSignalFlags.code())
    }

    /// Whether the device can capture and play at once.
    pub fn duplex_mode(&self) -> (r: Result<DecklinkDuplexStatus, SdkError>)
        ensures
            r == spec_into_enum(
                spec_int(self@, 0x6475_7078),
                |v: i64| DecklinkDuplexStatus::spec_from_i64(v),
            ),
    {
        match get_int(&self.readings, DecklinkStatusId::DuplexMode.code()) {
            Err(e) => Err(e),
            Ok(v) => match DecklinkDuplexStatus::from_i64(v) {
                Some(duplex) => Ok(duplex),
                None => Err(SdkError::FALSE),
            },
        }
    }

    /// What keeps the device busy, as the driver's bit set.
    pub fn busy(&self) -> (r: Result<i64, SdkError>)
        ensures
            r == spec_int(self@, 0x6275_7379),
    {
        get_int(&self.readings, DecklinkStatusId::Busy.code())
    }

    /// The panel that is installed, as the driver's number.
    pub fn interchangeable_panel_type(&self) -> (r: Result<i64, SdkError>)
        ensures
            r == spec_int(self@, 0x6963_7074),
    {
        get_int(&self.readings, DecklinkStatusId::InterchangeablePanelType.code())
    }

    /// True if the device is locked to the signal on its video input.
    pub fn video_input_signal_locked(&self) -> (r: Result<bool, SdkError>)
        ensures
            r == spec_flag(self@, 0x7669_736C),
    {
        get_flag(&self.readings, DecklinkStatusId::VideoInputSignalLocked.code())
    }

    /// True if the device is locked to the signal on its reference input.
    pub fn reference_signal_locked(&self) -> (r: Result<bool, SdkError>)
        ensures
            r == spec_flag(self@, 0x7265_666C),
    {
        get_flag(&self.readings, DecklinkStatusId::ReferenceSignalLocked.code())
    }

    /// The EDID that the sink on the HDMI output sent.
    pub fn received_edid(&self) -> (r: Result<Vec<u8>, SdkError>)
        ensures
            r matches Ok(v) ==> spec_bytes(self@, 0x6564_6964) == Ok::<Seq<u8>, SdkError>(v@),
            r matches Err(e) ==> spec_bytes(self@, 0x6564_6964) == Err::<Seq<u8>, SdkError>(e),
    {
        get_bytes(&self.readings, DecklinkStatusId::ReceivedEDID.code())
    }
}

} // verus!
