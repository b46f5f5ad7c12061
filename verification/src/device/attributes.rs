//! What a device is able to do, as its driver reported it.

use crate::connectors::{
    DecklinkAudioConnection, DecklinkDeckControlConnection, DecklinkVideoConnection,
};
use crate::device::reading::{
    get_flag, get_int, get_text, low_bits, spec_flag, spec_int, spec_text, Reading,
};
use crate::util::SdkError;
use vstd::prelude::*;

verus! {

/// The numbers by which the driver names the attributes of a device.
pub struct DecklinkAttributeId;

impl DecklinkAttributeId {
    pub const SUPPORTS_INTERNAL_KEYING: u32 = 0x6B65_7969;

    pub const SUPPORTS_EXTERNAL_KEYING: u32 = 0x6B65_7965;

    pub const SUPPORTS_HD_KEYING: u32 = 0x6B65_7968;

    pub const SUPPORTS_INPUT_FORMAT_DETECTION: u32 = 0x696E_6664;

    pub const HAS_REFERENCE_INPUT: u32 = 0x6872_696E;

    pub const HAS_SERIAL_PORT: u32 = 0x6873_7074;

    pub const HAS_ANALOG_VIDEO_OUTPUT_GAIN: u32 = 0x6176_6F67;

    pub const CAN_ONLY_ADJUST_OVERALL_VIDEO_OUTPUT_GAIN: u32 = 0x6F76_6F67;

    pub const HAS_VIDEO_INPUT_ANTI_ALIASING_FILTER: u32 = 0x6161_666C;

    pub const HAS_BYPASS: u32 = 0x6279_7073;

    pub const SUPPORTS_CLOCK_TIMING_ADJUSTMENT: u32 = 0x6374_6164;

    pub const SUPPORTS_FULL_DUPLEX: u32 = 0x6664_7570;

    pub const SUPPORTS_FULL_FRAME_REFERENCE_INPUT_TIMING_OFFSET: u32 = 0x6672_696E;

    pub const SUPPORTS_SMPTE_LEVEL_A_OUTPUT: u32 = 0x6C76_6C61;

    pub const SUPPORTS_DUAL_LINK_SDI: u32 = 0x7364_6C73;

    pub const SUPPORTS_QUAD_LINK_SDI: u32 = 0x7371_6C73;

    pub const SUPPORTS_IDLE_OUTPUT: u32 = 0x6964_6F75;

    pub const HAS_LTC_TIMECODE_INPUT: u32 = 0x686C_7463;

    pub const SUPPORTS_DUPLEX_MODE_CONFIGURATION: u32 = 0x6475_7078;

    pub const SUPPORTS_HDR_METADATA: u32 = 0x6864_726D;

    pub const MAXIMUM_AUDIO_CHANNELS: u32 = 0x6D61_6368;

    pub const MAXIMUM_ANALOG_AUDIO_INPUT_CHANNELS: u32 = 0x6961_6368;

    pub const MAXIMUM_ANALOG_AUDIO_OUTPUT_CHANNELS: u32 = 0x6161_6368;

    pub const NUMBER_OF_SUB_DEVICES: u32 = 0x6E73_6264;

    pub const SUB_DEVICE_INDEX: u32 = 0x7375_6269;

    pub const PERSISTENT_ID: u32 = 0x7065_6964;

    pub const DEVICE_GROUP_ID: u32 = 0x6467_6964;

    pub const TOPOLOGICAL_ID: u32 = 0x746F_6964;

    pub const VIDEO_OUTPUT_CONNECTIONS: u32 = 0x766F_636E;

    pub const VIDEO_INPUT_CONNECTIONS: u32 = 0x7669_636E;

    pub const AUDIO_OUTPUT_CONNECTIONS: u32 = 0x616F_636E;

    pub const AUDIO_INPUT_CONNECTIONS: u32 = 0x6169_636E;

    pub const VIDEO_IO_SUPPORT: u32 = 0x7669_6F73;

    pub const DECK_CONTROL_CONNECTIONS: u32 = 0x6463_636E;

    pub const DEVICE_INTERFACE: u32 = 0x6462_7573;

    pub const AUDIO_INPUT_RCA_CHANNEL_COUNT: u32 = 0x6169_7263;

    pub const AUDIO_INPUT_XLR_CHANNEL_COUNT: u32 = 0x6169_7863;

    pub const AUDIO_OUTPUT_RCA_CHANNEL_COUNT: u32 = 0x616F_7263;

    pub const AUDIO_OUTPUT_XLR_CHANNEL_COUNT: u32 = 0x616F_7863;

    pub const PAIRED_DEVICE_PERSISTENT_ID: u32 = 0x7070_6964;

    pub const SERIAL_PORT_DEVICE_NAME: u32 = 0x736C_706E;

    pub const VENDOR_NAME: u32 = 0x766E_6472;

    pub const DISPLAY_NAME: u32 = 0x6473_706E;

    pub const MODEL_NAME: u32 = 0x6D64_6C6E;

    pub const DEVICE_HANDLE: u32 = 0x6465_7668;
}

/// The attributes of a device: what its driver answered when it was asked
/// for each of them.
pub struct DecklinkDeviceAttributes {
    readings: Vec<Reading>,
}

impl View for DecklinkDeviceAttributes {
    type V = Seq<Reading>;

    closed spec fn view(&self) -> Seq<Reading> {
        self.readings@
    }
}

/// The set of connectors that an integer attribute stands for: its low 32
/// bits, of which those that name a connector are kept.
pub open spec fn spec_connections(value: Result<i64, SdkError>, all: u32) -> Result<
    u32,
    SdkError,
> {
    match value {
        Ok(v) => Ok((v as u32) & all),
        Err(e) => Err(e),
    }
}

impl DecklinkDeviceAttributes {
    /// Takes the answers of the driver.
    pub fn from(readings: Vec<Reading>) -> (attributes: DecklinkDeviceAttributes)
        ensures
            attributes@ == readings@,
    {
        DecklinkDeviceAttributes { readings }
    }

    /// True if internal keying is supported on this device.
    pub fn supports_internal_keying(&self) -> (r: Result<bool, SdkError>)
        ensures
            r == spec_flag(self@, DecklinkAttributeId::SUPPORTS_INTERNAL_KEYING),
    {
        get_flag(&self.readings, DecklinkAttributeId::SUPPORTS_INTERNAL_KEYING)
    }

    /// True if external keying is supported on this device.
    pub fn supports_external_keying(&self) -> (r: Result<bool, SdkError>)
        ensures
            r == spec_flag(self@, DecklinkAttributeId::SUPPORTS_EXTERNAL_KEYING),
    {
        get_flag(&self.readings, DecklinkAttributeId::SUPPORTS_EXTERNAL_KEYING)
    }

    /// True if keying in HD modes is supported on this device.
    pub fn supports_hd_keying(&self) -> (r: Result<bool, SdkError>)
        ensures
            r == spec_flag(self@, DecklinkAttributeId::SUPPORTS_HD_KEYING),
    {
        get_flag(&self.readings, DecklinkAttributeId::SUPPORTS_HD_KEYING)
    }

    /// True if the device can detect the format of its input.
    pub fn supports_input_format_detection(&self) -> (r: Result<bool, SdkError>)
        ensures
            r == spec_flag(self@, DecklinkAttributeId::SUPPORTS_INPUT_FORMAT_DETECTION),
    {
        get_flag(&self.readings, DecklinkAttributeId::SUPPORTS_INPUT_FORMAT_DETECTION)
    }

    /// True if the device has a genlock reference input.
    pub fn has_reference_input(&self) -> (r: Result<bool, SdkError>)
        ensures
            r == spec_flag(self@, DecklinkAttributeId::HAS_REFERENCE_INPUT),
    {
        get_flag(&self.readings, DecklinkAttributeId::HAS_REFERENCE_INPUT)
    }

    /// True if the device has a serial port.
    pub fn has_serial_port(&self) -> (r: Result<bool, SdkError>)
        ensures
            r == spec_flag(self@, DecklinkAttributeId::HAS_SERIAL_PORT),
    {
        get_flag(&self.readings, DecklinkAttributeId::HAS_SERIAL_PORT)
    }

    /// True if the gain of the analog video output can be adjusted.
    pub fn has_analog_video_output_gain(&self) -> (r: Result<bool, SdkError>)
        ensures
            r == spec_flag(self@, DecklinkAttributeId::HAS_ANALOG_VIDEO_OUTPUT_GAIN),
    {
        get_flag(&self.readings, DecklinkAttributeId::HAS_ANALOG_VIDEO_OUTPUT_GAIN)
    }

    /// True if only the overall gain of the video output can be adjusted.
    pub fn can_only_adjust_overall_video_output_gain(&self) -> (r: Result<bool, SdkError>)
        ensures
            r == spec_flag(self@, DecklinkAttributeId::CAN_ONLY_ADJUST_OVERALL_VIDEO_OUTPUT_GAIN),
    {
        get_flag(&self.readings, DecklinkAttributeId::CAN_ONLY_ADJUST_OVERALL_VIDEO_OUTPUT_GAIN)
    }

    /// True if the analog video input has an anti-aliasing filter.
    pub fn has_video_input_anti_aliasing_filter(&self) -> (r: Result<bool, SdkError>)
        ensures
            r == spec_flag(self@, DecklinkAttributeId::HAS_VIDEO_INPUT_ANTI_ALIASING_FILTER),
    {
        get_flag(&self.readings, DecklinkAttributeId::HAS_VIDEO_INPUT_ANTI_ALIASING_FILTER)
    }

    /// True if the device can loop its input through.
    pub fn has_bypass(&self) -> (r: Result<bool, SdkError>)
        ensures
            r == spec_flag(self@, DecklinkAttributeId::HAS_BYPASS),
    {
        get_flag(&self.readings, DecklinkAttributeId::HAS_BYPASS)
    }

    /// True if the clock timing of the device can be adjusted.
    pub fn supports_clock_timing_adjustment(&self) -> (r: Result<bool, SdkError>)
        ensures
            r == spec_flag(self@, DecklinkAttributeId::SUPPORTS_CLOCK_TIMING_ADJUSTMENT),
    {
        get_flag(&self.readings, DecklinkAttributeId::SUPPORTS_CLOCK_TIMING_ADJUSTMENT)
    }

    /// True if the device can capture and play at once.
    pub fn supports_full_duplex(&self) -> (r: Result<bool, SdkError>)
        ensures
            r == spec_flag(self@, DecklinkAttributeId::SUPPORTS_FULL_DUPLEX),
    {
        get_flag(&self.readings, DecklinkAttributeId::SUPPORTS_FULL_DUPLEX)
    }

    /// True if the genlock offset can span a whole frame.
    pub fn supports_full_frame_reference_input_timing_offset(&self) -> (r: Result<bool, SdkError>)
        ensures
            r == spec_flag(self@, DecklinkAttributeId::SUPPORTS_FULL_FRAME_REFERENCE_INPUT_TIMING_OFFSET),
    {
        get_flag(&self.readings, DecklinkAttributeId::SUPPORTS_FULL_FRAME_REFERENCE_INPUT_TIMING_OFFSET)
    }

    /// True if SMPTE level A output is supported on this device.
    pub fn supports_smpte_level_a_output(&self) -> (r: Result<bool, SdkError>)
        ensures
            r == spec_flag(self@, DecklinkAttributeId::SUPPORTS_SMPTE_LEVEL_A_OUTPUT),
    {
        get_flag(&self.readings, DecklinkAttributeId::SUPPORTS_SMPTE_LEVEL_A_OUTPUT)
    }

    /// True if dual-link SDI is supported on this device.
    pub fn supports_dual_link_sdi(&self) -> (r: Result<bool, SdkError>)
        ensures
            r == spec_flag(self@, DecklinkAttributeId::SUPPORTS_DUAL_LINK_SDI),
    {
        get_flag(&self.readings, DecklinkAttributeId::SUPPORTS_DUAL_LINK_SDI)
    }

    /// True if quad-link SDI is supported on this device.
    pub fn supports_quad_link_sdi(&self) -> (r: Result<bool, SdkError>)
        ensures
            r == spec_flag(self@, DecklinkAttributeId::SUPPORTS_QUAD_LINK_SDI),
    {
        get_flag(&self.readings, DecklinkAttributeId::SUPPORTS_QUAD_LINK_SDI)
    }

    /// True if the device can say what it outputs while idle.
    pub fn supports_idle_output(&self) -> (r: Result<bool, SdkError>)
        ensures
            r == spec_flag(self@, DecklinkAttributeId::SUPPORTS_IDLE_OUTPUT),
    {
        get_flag(&self.readings, DecklinkAttributeId::SUPPORTS_IDLE_OUTPUT)
    }

    /// True if the device has an LTC timecode input.
    pub fn has_ltc_timecode_input(&self) -> (r: Result<bool, SdkError>)
        ensures
            r == spec_flag(self@, DecklinkAttributeId::HAS_LTC_TIMECODE_INPUT),
    {
        get_flag(&self.readings, DecklinkAttributeId::HAS_LTC_TIMECODE_INPUT)
    }

    /// True if the duplex mode of the device can be configured.
    pub fn supports_duplex_mode_configuration(&self) -> (r: Result<bool, SdkError>)
        ensures
            r == spec_flag(self@, DecklinkAttributeId::SUPPORTS_DUPLEX_MODE_CONFIGURATION),
    {
        get_flag(&self.readings, DecklinkAttributeId::SUPPORTS_DUPLEX_MODE_CONFIGURATION)
    }

    /// True if the device can carry HDR metadata.
    pub fn supports_hdr_metadata(&self) -> (r: Result<bool, SdkError>)
        ensures
            r == spec_flag(self@, DecklinkAttributeId::SUPPORTS_HDR_METADATA),
    {
        get_flag(&self.readings, DecklinkAttributeId::SUPPORTS_HDR_METADATA)
    }

    /// The largest number of embedded audio channels.
    pub fn maximum_audio_channels(&self) -> (r: Result<i64, SdkError>)
        ensures
            r == spec_int(self@, DecklinkAttributeId::MAXIMUM_AUDIO_CHANNELS),
    {
        get_int(&self.readings, DecklinkAttributeId::MAXIMUM_AUDIO_CHANNELS)
    }

    /// The largest number of analog audio input channels.
    pub fn maximum_analog_audio_input_channels(&self) -> (r: Result<i64, SdkError>)
        ensures
            r == spec_int(self@, DecklinkAttributeId::MAXIMUM_ANALOG_AUDIO_INPUT_CHANNELS),
    {
        get_int(&self.readings, DecklinkAttributeId::MAXIMUM_ANALOG_AUDIO_INPUT_CHANNELS)
    }

    /// The largest number of analog audio output channels.
    pub fn maximum_analog_audio_output_channels(&self) -> (r: Result<i64, SdkError>)
        ensures
            r == spec_int(self@, DecklinkAttributeId::MAXIMUM_ANALOG_AUDIO_OUTPUT_CHANNELS),
    {
        get_int(&self.readings, DecklinkAttributeId::MAXIMUM_ANALOG_AUDIO_OUTPUT_CHANNELS)
    }

    /// The number of sub-devices of the card.
    pub fn number_of_sub_devices(&self) -> (r: Result<i64, SdkError>)
        ensures
            r == spec_int(self@, DecklinkAttributeId::NUMBER_OF_SUB_DEVICES),
    {
        get_int(&self.readings, DecklinkAttributeId::NUMBER_OF_SUB_DEVICES)
    }

    /// The index of this sub-device on its card.
    pub fn sub_device_index(&self) -> (r: Result<i64, SdkError>)
        ensures
            r == spec_int(self@, DecklinkAttributeId::SUB_DEVICE_INDEX),
    {
        get_int(&self.readings, DecklinkAttributeId::SUB_DEVICE_INDEX)
    }

    /// An identifier of the device that lasts across restarts.
    pub fn persistent_id(&self) -> (r: Result<i64, SdkError>)
        ensures
            r == spec_int(self@, DecklinkAttributeId::PERSISTENT_ID),
    {
        get_int(&self.readings, DecklinkAttributeId::PERSISTENT_ID)
    }

    /// An identifier shared by the sub-devices of one card.
    pub fn device_group_id(&self) -> (r: Result<i64, SdkError>)
        ensures
            r == spec_int(self@, DecklinkAttributeId::DEVICE_GROUP_ID),
    {
        get_int(&self.readings, DecklinkAttributeId::DEVICE_GROUP_ID)
    }

    /// An identifier of the place where the device is attached.
    pub fn topological_id(&self) -> (r: Result<i64, SdkError>)
        ensures
            r == spec_int(self@, DecklinkAttributeId::TOPOLOGICAL_ID),
    {
        get_int(&self.readings, DecklinkAttributeId::TOPOLOGICAL_ID)
    }

    /// The video connectors that the device can output on.
    pub fn video_output_connections(&self) -> (r: Result<DecklinkVideoConnection, SdkError>)
        ensures
            r matches Ok(set) ==> spec_connections(spec_int(self@, DecklinkAttributeId::VIDEO_OUTPUT_CONNECTIONS), DecklinkVideoConnection::ALL)
                == Ok::<u32, SdkError>(set.spec_bits()),
            r matches Err(e) ==> spec_int(self@, DecklinkAttributeId::VIDEO_OUTPUT_CONNECTIONS) == Err::<i64, SdkError>(e),
    {
        match get_int(&self.readings, DecklinkAttributeId::VIDEO_OUTPUT_CONNECTIONS) {
            Ok(v) => Ok(DecklinkVideoConnection::from_bits_truncate(low_bits(v))),
            Err(e) => Err(e),
        }
    }

    /// The video connectors that the device can capture from.
    pub fn video_input_connections(&self) -> (r: Result<DecklinkVideoConnection, SdkError>)
        ensures
            r matches Ok(set) ==> spec_connections(spec_int(self@, DecklinkAttributeId::VIDEO_INPUT_CONNECTIONS), DecklinkVideoConnection::ALL)
                == Ok::<u32, SdkError>(set.spec_bits()),
            r matches Err(e) ==> spec_int(self@, DecklinkAttributeId::VIDEO_INPUT_CONNECTIONS) == Err::<i64, SdkError>(e),
    {
        match get_int(&self.readings, DecklinkAttributeId::VIDEO_INPUT_CONNECTIONS) {
            Ok(v) => Ok(DecklinkVideoConnection::from_bits_truncate(low_bits(v))),
            Err(e) => Err(e),
        }
    }

    /// The audio connectors that the device can output on.
    pub fn audio_output_connections(&self) -> (r: Result<DecklinkAudioConnection, SdkError>)
        ensures
            r matches Ok(set) ==> spec_connections(spec_int(self@, DecklinkAttributeId::AUDIO_OUTPUT_CONNECTIONS), DecklinkAudioConnection::ALL)
                == Ok::<u32, SdkError>(set.spec_bits()),
            r matches Err(e) ==> spec_int(self@, DecklinkAttributeId::AUDIO_OUTPUT_CONNECTIONS) == Err::<i64, SdkError>(e),
    {
        match get_int(&self.readings, DecklinkAttributeId::AUDIO_OUTPUT_CONNECTIONS) {
            Ok(v) => Ok(DecklinkAudioConnection::from_bits_truncate(low_bits(v))),
            Err(e) => Err(e),
        }
    }

    /// The audio connectors that the device can capture from.
    pub fn audio_input_connections(&self) -> (r: Result<DecklinkAudioConnection, SdkError>)
        ensures
            r matches Ok(set) ==> spec_connections(spec_int(self@, DecklinkAttributeId::AUDIO_INPUT_CONNECTIONS), DecklinkAudioConnection::ALL)
                == Ok::<u32, SdkError>(set.spec_bits()),
            r matches Err(e) ==> spec_int(self@, DecklinkAttributeId::AUDIO_INPUT_CONNECTIONS) == Err::<i64, SdkError>(e),
    {
        match get_int(&self.readings, DecklinkAttributeId::AUDIO_INPUT_CONNECTIONS) {
            Ok(v) => Ok(DecklinkAudioConnection::from_bits_truncate(low_bits(v))),
            Err(e) => Err(e),
        }
    }

    /// Whether the device captures, plays, or both, as the driver's bit set.
    pub fn video_io_support(&self) -> (r: Result<i64, SdkError>)
        ensures
            r == spec_int(self@, DecklinkAttributeId::VIDEO_IO_SUPPORT),
    {
        get_int(&self.readings, DecklinkAttributeId::VIDEO_IO_SUPPORT)
    }

    /// The deck-control connectors of the device.
    pub fn deck_control_connections(&self) -> (r: Result<DecklinkDeckControlConnection, SdkError>)
        ensures
            r matches Ok(set) ==> spec_connections(spec_int(self@, DecklinkAttributeId::DECK_CONTROL_CONNECTIONS), DecklinkDeckControlConnection::ALL)
                == Ok::<u32, SdkError>(set.spec_bits()),
            r matches Err(e) ==> spec_int(self@, DecklinkAttributeId::DECK_CONTROL_CONNECTIONS) == Err::<i64, SdkError>(e),
    {
        match get_int(&self.readings, DecklinkAttributeId::DECK_CONTROL_CONNECTIONS) {
            Ok(v) => Ok(DecklinkDeckControlConnection::from_bits_truncate(low_bits(v))),
            Err(e) => Err(e),
        }
    }

    /// How the device is attached, as the driver's number.
    pub fn device_interface(&self) -> (r: Result<i64, SdkError>)
        ensures
            r == spec_int(self@, DecklinkAttributeId::DEVICE_INTERFACE),
    {
        get_int(&self.readings, DecklinkAttributeId::DEVICE_INTERFACE)
    }

    /// The number of RCA audio input channels.
    pub fn audio_input_rca_channel_count(&self) -> (r: Result<i64, SdkError>)
        ensures
            r == spec_int(self@, DecklinkAttributeId::AUDIO_INPUT_RCA_CHANNEL_COUNT),
    {
        get_int(&self.readings, DecklinkAttributeId::AUDIO_INPUT_RCA_CHANNEL_COUNT)
    }

    /// The number of XLR audio input channels.
    pub fn audio_input_xlr_channel_count(&self) -> (r: Result<i64, SdkError>)
        ensures
            r == spec_int(self@, DecklinkAttributeId::AUDIO_INPUT_XLR_CHANNEL_COUNT),
    {
        get_int(&self.readings, DecklinkAttributeId::AUDIO_INPUT_XLR_CHANNEL_COUNT)
    }

    /// The number of RCA audio output channels.
    pub fn audio_output_rca_channel_count(&self) -> (r: Result<i64, SdkError>)
        ensures
            r == spec_int(self@, DecklinkAttributeId::AUDIO_OUTPUT_RCA_CHANNEL_COUNT),
    {
        get_int(&self.readings, DecklinkAttributeId::AUDIO_OUTPUT_RCA_CHANNEL_COUNT)
    }

    /// The number of XLR audio output channels.
    pub fn audio_output_xlr_channel_count(&self) -> (r: Result<i64, SdkError>)
        ensures
            r == spec_int(self@, DecklinkAttributeId::AUDIO_OUTPUT_XLR_CHANNEL_COUNT),
    {
        get_int(&self.readings, DecklinkAttributeId::AUDIO_OUTPUT_XLR_CHANNEL_COUNT)
    }

    /// The lasting identifier of the device that this one is paired with.
    pub fn paired_device_persistent_id(&self) -> (r: Result<i64, SdkError>)
        ensures
            r == spec_int(self@, DecklinkAttributeId::PAIRED_DEVICE_PERSISTENT_ID),
    {
        get_int(&self.readings, DecklinkAttributeId::PAIRED_DEVICE_PERSISTENT_ID)
    }

    /// The name of the serial port of the device.
    pub fn serial_port_device_name(&self) -> (r: Result<String, SdkError>)
        ensures
            r == spec_text(self@, DecklinkAttributeId::SERIAL_PORT_DEVICE_NAME),
    {
        get_text(&self.readings, DecklinkAttributeId::SERIAL_PORT_DEVICE_NAME)
    }

    /// The name of the vendor of the device.
    pub fn vendor_name(&self) -> (r: Result<String, SdkError>)
        ensures
            r == spec_text(self@, DecklinkAttributeId::VENDOR_NAME),
    {
        get_text(&self.readings, DecklinkAttributeId::VENDOR_NAME)
    }

    /// The name of the device for display.
    pub fn display_name(&self) -> (r: Result<String, SdkError>)
        ensures
            r == spec_text(self@, DecklinkAttributeId::DISPLAY_NAME),
    {
        get_text(&self.readings, DecklinkAttributeId::DISPLAY_NAME)
    }

    /// The name of the model of the device.
    pub fn model_name(&self) -> (r: Result<String, SdkError>)
        ensures
            r == spec_text(self@, DecklinkAttributeId::MODEL_NAME),
    {
        get_text(&self.readings, DecklinkAttributeId::MODEL_NAME)
    }

    /// The handle by which the driver refers to the device.
    pub fn device_handle(&self) -> (r: Result<String, SdkError>)
        ensures
            r == spec_text(self@, DecklinkAttributeId::DEVICE_HANDLE),
    {
        get_text(&self.readings, DecklinkAttributeId::DEVICE_HANDLE)
    }
}

} // verus!
