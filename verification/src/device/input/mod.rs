//! Capture of video and audio through a device: what is enabled, whether the
//! streams run, and the calls that change either.
//!
//! As with output, nothing here talks to the driver: a request says which
//! call to make, and a second function takes the driver's answer.

pub mod audio;
pub mod callback;
pub mod enums;

pub use crate::device::input::audio::{DecklinkAudioInputPacket, PacketReport};
pub use crate::device::input::callback::{CallbackWrapper, DeckLinkVideoInputCallback};
pub use crate::device::input::enums::{
    DecklinkDetectedVideoInputFormatFlags, DecklinkVideoInputFlags,
    DecklinkVideoInputFormatChangedEvents,
};

use crate::device::output::enums::{DecklinkAudioSampleRate, DecklinkAudioSampleType};
use crate::display_mode::DecklinkDisplayModeId;
use crate::frame::DecklinkPixelFormat;
use crate::util::{SdkError, STATUS_OK};
use std::sync::Arc;
use vstd::prelude::*;

verus! {

/// Whether the streams of an input run.
#[derive(Debug, Clone, Copy, PartialEq, Eq, Structural)]
pub enum StreamStatus {
    Stopped,
    Running,
    Paused,
}

/// A call for the driver of an input, with everything that is handed to it.
#[derive(Debug, Clone, Copy, PartialEq, Eq, Structural)]
pub enum InputCall {
    EnableVideoInput { mode: u32, pixel_format: u32, flags: u32 },
    DisableVideoInput,
    GetAvailableVideoFrameCount,
    EnableAudioInput { sample_rate: u32, sample_type: u32, channels: u32 },
    DisableAudioInput,
    GetAvailableAudioSampleFrameCount,
    StartStreams,
    StopStreams,
    PauseStreams,
    FlushStreams,
    /// Give the driver the callback slot of the input.
    SetCallback,
}

/// What is known of an input.
pub struct InputState {
    pub video_enabled: bool,
    pub audio_enabled: bool,
    pub stream_status: StreamStatus,
    pub audio_channel_count: u32,
    pub audio_sample_depth: u32,
    /// The shape of the audio that the callback slot reads packets with:
    /// the number of channels and the depth of a sample. There is none
    /// until the driver has been given the slot.
    pub callback_slot: Option<(u32, u32)>,
}

impl InputState {
    /// The state of an input that was just opened.
    pub open spec fn initial() -> InputState {
        InputState {
            video_enabled: false,
            audio_enabled: false,
            stream_status: StreamStatus::Stopped,
            audio_channel_count: 2,
            audio_sample_depth: 16,
            callback_slot: None,
        }
    }

    /// The state after the driver answered `call` with `status`: as before
    /// where it refused, and otherwise with what the call turns on or off.
    /// Pausing streams that are paused lets them run again. A slot that is
    /// registered reads packets with the shape of the audio of the input, and
    /// a slot that is there takes the new shape when audio capture is enabled.
    pub open spec fn answered(self, call: InputCall, status: i32) -> InputState {
        if status != STATUS_OK {
            self
        } else {
            match call {
                InputCall::EnableVideoInput { .. } => InputState { video_enabled: true, ..self },
                InputCall::DisableVideoInput => InputState { video_enabled: false, ..self },
                InputCall::EnableAudioInput { sample_type, channels, .. } => InputState {
                    audio_enabled: true,
                    audio_channel_count: channels,
                    audio_sample_depth: sample_type,
                    callback_slot: if self.callback_slot.is_some() {
                        Some((channels, sample_type))
                    } else {
                        None
                    },
                    ..self
                },
                InputCall::DisableAudioInput => InputState { audio_enabled: false, ..self },
                InputCall::StartStreams => InputState {
                    stream_status: StreamStatus::Running,
                    ..self
                },
                InputCall::StopStreams => InputState {
                    stream_status: StreamStatus::Stopped,
                    ..self
                },
                InputCall::PauseStreams => InputState {
                    stream_status: match self.stream_status {
                        StreamStatus::Running => StreamStatus::Paused,
                        StreamStatus::Paused => StreamStatus::Running,
                        StreamStatus::Stopped => StreamStatus::Stopped,
                    },
                    ..self
                },
                InputCall::SetCallback => InputState {
                    callback_slot: if self.callback_slot.is_some() {
                        self.callback_slot
                    } else {
                        Some((self.audio_channel_count, self.audio_sample_depth))
                    },
                    ..self
                },
                _ => self,
            }
        }
    }

    /// The call that an operation needs, or none where the state already is
    /// what the operation asks for, so that there is nothing to ask of the
    /// driver.
    pub open spec fn needed(self, call: InputCall) -> Option<InputCall> {
        let idle = match call {
            InputCall::EnableVideoInput { .. } => false,
            InputCall::DisableVideoInput => !self.video_enabled,
            InputCall::GetAvailableVideoFrameCount => !self.video_enabled,
            InputCall::EnableAudioInput { .. } => self.audio_enabled,
            InputCall::DisableAudioInput => !self.audio_enabled,
            InputCall::GetAvailableAudioSampleFrameCount => !self.audio_enabled,
            InputCall::StartStreams => self.stream_status == StreamStatus::Running,
            InputCall::StopStreams => self.stream_status == StreamStatus::Stopped,
            InputCall::PauseStreams => self.stream_status == StreamStatus::Stopped,
            InputCall::FlushStreams => self.stream_status == StreamStatus::Stopped,
            InputCall::SetCallback => self.callback_slot.is_some(),
        };
        if idle {
            None
        } else {
            Some(call)
        }
    }

    /// The count that a request for a count amounts to: 0 while what is
    /// counted is not enabled, otherwise what the driver answered.
    pub open spec fn count(enabled: bool, status: i32, count: u32) -> Result<u32, SdkError> {
        if !enabled {
            Ok(0u32)
        } else {
            SdkError::spec_result_or(status, count)
        }
    }
}

/// An input of a device.
pub struct DecklinkInputDevice {
    video_enabled: bool,
    audio_enabled: bool,
    stream_status: StreamStatus,
    audio_channel_count: u32,
    audio_sample_depth: u32,
    callback_wrapper: Option<CallbackWrapper>,
}

impl View for DecklinkInputDevice {
    type V = InputState;

    closed spec fn view(&self) -> InputState {
        InputState {
            video_enabled: self.video_enabled,
            audio_enabled: self.audio_enabled,
            stream_status: self.stream_status,
            audio_channel_count: self.audio_channel_count,
            audio_sample_depth: self.audio_sample_depth,
            callback_slot: match self.callback_wrapper {
                Some(wrapper) => Some((wrapper.audio_channels, wrapper.audio_sample_depth)),
                None => None,
            },
        }
    }
}

/// The input of a device that was just opened: nothing is enabled, the
/// streams are stopped, and audio is taken to be two channels of 16 bits.
pub fn wrap_device_input() -> (d: DecklinkInputDevice)
    ensures
        !d@.video_enabled,
        !d@.audio_enabled,
        d@.stream_status == StreamStatus::Stopped,
        d@.audio_channel_count == 2,
        d@.audio_sample_depth == 16,
        d@ == InputState::initial(),
        d.spec_handler().is_none(),
{
    DecklinkInputDevice {
        video_enabled: false,
        audio_enabled: false,
        stream_status: StreamStatus::Stopped,
        audio_channel_count: 2,
        audio_sample_depth: 16,
        callback_wrapper: None,
    }
}

impl DecklinkInputDevice {
    /// The handler that is installed, if the input has a callback slot and a
    /// handler is in it.
    pub closed spec fn spec_handler(&self) -> Option<Arc<dyn DeckLinkVideoInputCallback>> {
        match self.callback_wrapper {
            Some(wrapper) => wrapper.handler,
            None => None,
        }
    }

    pub fn is_video_enabled(&self) -> (b: bool)
        ensures
            b == self@.video_enabled,
    {
        self.video_enabled
    }

    pub fn is_audio_enabled(&self) -> (b: bool)
        ensures
            b == self@.audio_enabled,
    {
        self.audio_enabled
    }

    pub fn stream_status(&self) -> (s: StreamStatus)
        ensures
            s == self@.stream_status,
    {
        self.stream_status
    }

    /// The callback slot of the input, for the driver's notices.
    pub fn callback_wrapper(&self) -> (w: Option<&CallbackWrapper>)
        ensures
            w.is_some() == self@.callback_slot.is_some(),
            w matches Some(wrapper) ==> wrapper.handler == self.spec_handler()
                && self@.callback_slot == Some(
                (wrapper.audio_channels, wrapper.audio_sample_depth),
            ),
    {
        self.callback_wrapper.as_ref()
    }

    /// The call that enables video capture in `display_mode`.
    pub fn enable_video_input(
        &self,
        display_mode: DecklinkDisplayModeId,
        pixel_format: DecklinkPixelFormat,
        flags: DecklinkVideoInputFlags,
    ) -> (call: InputCall)
        ensures
            call == (InputCall::EnableVideoInput {
                mode: display_mode.spec_code(),
                pixel_format: pixel_format.spec_code(),
                flags: flags.spec_bits(),
            }),
    {
        InputCall::EnableVideoInput {
            mode: display_mode.code(),
            pixel_format: pixel_format.code(),
            flags: flags.bits(),
        }
    }

    /// The call that disables video capture, or none where it is disabled.
    pub fn disable_video_input(&self) -> (call: Option<InputCall>)
        ensures
            call == self@.needed(InputCall::DisableVideoInput),
    {
        if self.video_enabled {
            Some(InputCall::DisableVideoInput)
        } else {
            None
        }
    }

    /// The call that asks for the number of captured frames that wait, or
    /// none while video capture is disabled: then the number is 0.
    pub fn get_available_video_frame_count(&self) -> (call: Option<InputCall>)
        ensures
            call == self@.needed(InputCall::GetAvailableVideoFrameCount),
    {
        if self.video_enabled {
            Some(InputCall::GetAvailableVideoFrameCount)
        } else {
            None
        }
    }

    /// The number of captured frames that wait: 0 while video capture is
    /// disabled, otherwise what the driver answered.
    pub fn available_video_frame_count(&self, status: i32, count: u32) -> (r: Result<
        u32,
        SdkError,
    >)
        ensures
            r == InputState::count(self@.video_enabled, status, count),
    {
        if !self.video_enabled {
            Ok(0)
        } else {
            SdkError::result_or(status, count)
        }
    }

    /// The call that enables audio capture at 48 kHz, or none where it is
    /// enabled.
    pub fn enable_audio_input(&self, sample_type: DecklinkAudioSampleType, channel_count: u32) -> (call:
        Option<InputCall>)
        ensures
            call == self@.needed(
                InputCall::EnableAudioInput {
                    sample_rate: DecklinkAudioSampleRate::Rate48kHz.spec_code(),
                    sample_type: sample_type.spec_code(),
                    channels: channel_count,
                },
            ),
    {
        if self.audio_enabled {
            None
        } else {
            Some(
                InputCall::EnableAudioInput {
                    sample_rate: DecklinkAudioSampleRate::Rate48kHz.code(),
                    sample_type: sample_type.code(),
                    channels: channel_count,
                },
            )
        }
    }

    /// The call that disables audio capture, or none where it is disabled.
    pub fn disable_audio_input(&self) -> (call: Option<InputCall>)
        ensures
            call == self@.needed(InputCall::DisableAudioInput),
    {
        if self.audio_enabled {
            Some(InputCall::DisableAudioInput)
        } else {
            None
        }
    }

    /// The call that asks for the number of captured sample frames that
    /// wait, or none while audio capture is disabled: then the number is 0.
    pub fn get_available_audio_sample_frame_count(&self) -> (call: Option<InputCall>)
        ensures
            call == self@.needed(InputCall::GetAvailableAudioSampleFrameCount),
    {
        if self.audio_enabled {
            Some(InputCall::GetAvailableAudioSampleFrameCount)
        } else {
            None
        }
    }

    /// The number of captured sample frames that wait: 0 while audio capture
    /// is disabled, otherwise what the driver answered.
    pub fn available_audio_sample_frame_count(&self, status: i32, count: u32) -> (r: Result<
        u32,
        SdkError,
    >)
        ensures
            r == InputState::count(self@.audio_enabled, status, count),
    {
        if !self.audio_enabled {
            Ok(0)
        } else {
            SdkError::result_or(status, count)
        }
    }

    /// The call that starts the streams, or none where they run.
    pub fn start_streams(&self) -> (call: Option<InputCall>)
        ensures
            call == self@.needed(InputCall::StartStreams),
    {
        match self.stream_status {
            StreamStatus::Running => None,
            _ => Some(InputCall::StartStreams),
        }
    }

    /// The call that stops the streams, or none where they are stopped.
    pub fn stop_streams(&self) -> (call: Option<InputCall>)
        ensures
            call == self@.needed(InputCall::StopStreams),
    {
        match self.stream_status {
            StreamStatus::Stopped => None,
            _ => Some(InputCall::StopStreams),
        }
    }

    /// The call that pauses the streams, or lets paused streams run again;
    /// none where they are stopped.
    pub fn pause_streams(&self) -> (call: Option<InputCall>)
        ensures
            call == self@.needed(InputCall::PauseStreams),
    {
        match self.stream_status {
            StreamStatus::Stopped => None,
            _ => Some(InputCall::PauseStreams),
        }
    }

    /// The call that drops what the streams have buffered; none where they
    /// are stopped.
    pub fn flush_streams(&self) -> (call: Option<InputCall>)
        ensures
            call == self@.needed(InputCall::FlushStreams),
    {
        match self.stream_status {
            StreamStatus::Stopped => None,
            _ => Some(InputCall::FlushStreams),
        }
    }

    /// The call that gives the driver the callback slot, or none where it
    /// has it.
    pub fn register_callback(&self) -> (call: Option<InputCall>)
        ensures
            call == self@.needed(InputCall::SetCallback),
    {
        if self.callback_wrapper.is_some() {
            None
        } else {
            Some(InputCall::SetCallback)
        }
    }

    /// Takes the driver's answer to `call`: where it refused, its failure,
    /// and nothing changes; otherwise the state is what `InputState::answered`
    /// says. A slot that is registered is empty; a slot that is there keeps
    /// its handler.
    pub fn answered(&mut self, call: InputCall, status: i32) -> (r: Result<(), SdkError>)
        ensures
            r == SdkError::spec_result_or(status, ()),
            final(self)@ == old(self)@.answered(call, status),
            old(self)@.callback_slot.is_some() ==> final(self).spec_handler() == old(
                self,
            ).spec_handler(),
            old(self)@.callback_slot.is_none() ==> final(self).spec_handler().is_none(),
    {
        if status != STATUS_OK {
            return Err(SdkError::from(status));
        }
        match call {
            InputCall::EnableVideoInput { .. } => {
                self.video_enabled = true;
            },
            InputCall::DisableVideoInput => {
                self.video_enabled = false;
            },
            InputCall::EnableAudioInput { sample_type, channels, .. } => {
                self.audio_enabled = true;
                self.audio_channel_count = channels;
                self.audio_sample_depth = sample_type;
                match &mut self.callback_wrapper {
                    Some(wrapper) => {
                        wrapper.audio_channels = channels;
                        wrapper.audio_sample_depth = sample_type;
                    },
                    None => {},
                }
            },
            InputCall::DisableAudioInput => {
                self.audio_enabled = false;
            },
            InputCall::StartStreams => {
                self.stream_status = StreamStatus::Running;
            },
            InputCall::StopStreams => {
                self.stream_status = StreamStatus::Stopped;
            },
            InputCall::PauseStreams => {
                self.stream_status = match self.stream_status {
                    StreamStatus::Running => StreamStatus::Paused,
                    StreamStatus::Paused => StreamStatus::Running,
                    StreamStatus::Stopped => StreamStatus::Stopped,
                };
            },
            InputCall::SetCallback => {
                if self.callback_wrapper.is_none() {
                    self.callback_wrapper = Some(
                        CallbackWrapper::new(self.audio_channel_count, self.audio_sample_depth),
                    );
                }
            },
            _ => {},
        }
        Ok(())
    }

    /// Puts `handler` in the callback slot in place of what was there. An
    /// input whose slot the driver has not been given refuses with `HANDLE`.
    pub fn set_callback(&mut self, handler: Option<Arc<dyn DeckLinkVideoInputCallback>>) -> (r:
        Result<(), SdkError>)
        ensures
            final(self)@ == old(self)@,
            old(self)@.callback_slot.is_some() ==> r == Ok::<(), SdkError>(())
                && final(self).spec_handler() == handler,
            old(self)@.callback_slot.is_none() ==> r == Err::<(), SdkError>(SdkError::HANDLE)
                && final(self).spec_handler() == old(self).spec_handler(),
    {
        match &mut self.callback_wrapper {
            Some(wrapper) => {
                wrapper.set(handler);
                Ok(())
            },
            None => Err(SdkError::HANDLE),
        }
    }
}

/// Asking twice is asking once: once the driver has done what a call asks
/// for, the same operation needs no call, for every call that turns
/// something on or off.
pub proof fn lemma_input_calls_are_idempotent(state: InputState, call: InputCall)
    requires
        call is DisableVideoInput || call is EnableAudioInput || call is DisableAudioInput
            || call is StartStreams || call is StopStreams || call is SetCallback,
    ensures
        state.answered(call, STATUS_OK).needed(call).is_none(),
{
}

/// A refusal changes nothing, and no count is asked of the driver for what
/// is disabled: the count is then 0 whatever the driver would say.
pub proof fn lemma_input_refusal_and_counts(
    state: InputState,
    call: InputCall,
    status: i32,
    count: u32,
)
    ensures
        status != STATUS_OK ==> state.answered(call, status) == state,
        !state.video_enabled ==> state.needed(InputCall::GetAvailableVideoFrameCount).is_none()
            && InputState::count(state.video_enabled, status, count) == Ok::<u32, SdkError>(0u32),
        !state.audio_enabled ==> state.needed(
            InputCall::GetAvailableAudioSampleFrameCount,
        ).is_none() && InputState::count(state.audio_enabled, status, count) == Ok::<
            u32,
            SdkError,
        >(0u32),
{
}

} // verus!
