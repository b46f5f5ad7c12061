//! Audio that a device captured.

use crate::frame::copy_of;
use crate::util::{SdkError, STATUS_OK};
use vstd::prelude::*;

verus! {

/// The number of bytes that `frames` sample frames of `channels` channels
/// take, each sample `sample_depth` bits deep.
pub open spec fn spec_byte_count(frames: i64, channels: u32, sample_depth: u32) -> int {
    frames * (channels * (sample_depth / 8))
}

/// Computes `spec_byte_count`; there is no count where the number of frames
/// is negative or the bytes are more than a buffer can hold.
pub fn get_byte_count(frames: i64, channels: u32, sample_depth: u32) -> (n: Option<usize>)
    ensures
        n == (if 0 <= frames && spec_byte_count(frames, channels, sample_depth) <= usize::MAX {
            Some(spec_byte_count(frames, channels, sample_depth) as usize)
        } else {
            None
        }),
{
    if frames < 0 {
        return None;
    }
    let bytes_per_sample: u64 = (sample_depth / 8) as u64;
    assert(channels * (sample_depth / 8) <= 0xFFFF_FFFF * 0x1FFF_FFFF) by (nonlinear_arith)
        requires
            channels <= 0xFFFF_FFFF,
            sample_depth / 8 <= 0x1FFF_FFFF,
            0 <= sample_depth / 8,
    ;
    let per_frame: u64 = channels as u64 * bytes_per_sample;
    assert(frames * (channels * (sample_depth / 8)) <= 0x7FFF_FFFF_FFFF_FFFF * (0xFFFF_FFFF
        * 0x1FFF_FFFF)) by (nonlinear_arith)
        requires
            0 <= frames <= 0x7FFF_FFFF_FFFF_FFFF,
            0 <= channels * (sample_depth / 8) <= 0xFFFF_FFFF * 0x1FFF_FFFF,
    ;
    assert(0 <= frames * (channels * (sample_depth / 8))) by (nonlinear_arith)
        requires
            0 <= frames,
            0 <= channels * (sample_depth / 8),
    ;
    let total: u128 = frames as u128 * per_frame as u128;
    if total <= usize::MAX as u128 {
        Some(total as usize)
    } else {
        None
    }
}

/// What the driver told of a packet of captured audio: the number of sample
/// frames and the answer to the request for its bytes.
pub struct PacketReport {
    pub sample_frame_count: i64,
    pub bytes_status: i32,
    pub bytes: Vec<u8>,
}

/// A packet of captured audio.
pub struct DecklinkAudioInputPacket {
    sample_frame_count: i64,
    channels: u32,
    sample_depth: u32,
    bytes_status: i32,
    bytes: Vec<u8>,
}

/// What a packet holds, as plain values.
pub struct PacketState {
    pub sample_frame_count: i64,
    pub channels: u32,
    pub sample_depth: u32,
    pub bytes_status: i32,
    pub bytes: Seq<u8>,
}

impl View for DecklinkAudioInputPacket {
    type V = PacketState;

    closed spec fn view(&self) -> PacketState {
        PacketState {
            sample_frame_count: self.sample_frame_count,
            channels: self.channels,
            sample_depth: self.sample_depth,
            bytes_status: self.bytes_status,
            bytes: self.bytes@,
        }
    }
}

/// The packet that the driver reported, read with the number of channels and
/// the depth of the samples that the input was enabled with.
pub fn wrap_packet(report: PacketReport, channels: u32, sample_depth: u32) -> (packet:
    DecklinkAudioInputPacket)
    ensures
        packet@ == (PacketState {
            sample_frame_count: report.sample_frame_count,
            channels,
            sample_depth,
            bytes_status: report.bytes_status,
            bytes: report.bytes@,
        }),
{
    DecklinkAudioInputPacket {
        sample_frame_count: report.sample_frame_count,
        channels,
        sample_depth,
        bytes_status: report.bytes_status,
        bytes: report.bytes,
    }
}

impl DecklinkAudioInputPacket {
    pub fn get_sample_frame_count(&self) -> (n: i64)
        ensures
            n == self@.sample_frame_count,
    {
        self.sample_frame_count
    }

    /// The number of bytes that the samples of the packet take.
    pub fn get_byte_count(&self) -> (n: Option<usize>)
        ensures
            n == (if 0 <= self@.sample_frame_count && spec_byte_count(
                self@.sample_frame_count,
                self@.channels,
                self@.sample_depth,
            ) <= usize::MAX {
                Some(
                    spec_byte_count(
                        self@.sample_frame_count,
                        self@.channels,
                        self@.sample_depth,
                    ) as usize,
                )
            } else {
                None
            }),
    {
        get_byte_count(self.sample_frame_count, self.channels, self.sample_depth)
    }

    /// The bytes of the packet, or the failure with which the driver
    /// answered the request for them.
    pub fn get_bytes(&self) -> (r: Result<Vec<u8>, SdkError>)
        ensures
            self@.bytes_status == STATUS_OK ==> r is Ok && r->Ok_0@ == self@.bytes,
            self@.bytes_status != STATUS_OK ==> r == Err::<Vec<u8>, SdkError>(
                SdkError::spec_from(self@.bytes_status),
            ),
    {
        if self.bytes_status == STATUS_OK {
            Ok(copy_of(self.bytes.as_slice()))
        } else {
            Err(SdkError::from(self.bytes_status))
        }
    }
}

} // verus!
