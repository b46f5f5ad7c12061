//! Output of video and audio through a device: claiming a capability and
//! enabling it in the driver.

pub mod audio;
pub mod device;
pub mod enums;
pub mod video;
pub mod video_callback;

pub use crate::device::output::audio::DecklinkOutputDeviceAudio;
pub use crate::device::output::device::{Capability, DecklinkOutputDevicePtr, GateOp, GateState};
pub use crate::device::output::enums::{
    DecklinkAudioOutputStreamType, DecklinkAudioSampleRate, DecklinkAudioSampleType,
    DecklinkOutputFrameCompletionResult, DecklinkVideoOutputFlags,
};
pub use crate::device::output::video::{
    DecklinkOutputDeviceVideo, DecklinkOutputDeviceVideoImpl, DecklinkOutputDeviceVideoScheduled,
    DecklinkOutputDeviceVideoSync, DriverCall, FrameGeometry, PlaybackState, ScheduleEntry,
    TeardownSequencer, TeardownStage, TeardownState, TeardownStep,
};
pub use crate::device::output::video_callback::{CallbackWrapper, DeckLinkVideoOutputCallback};

use crate::device::output::audio::wrap_audio;
use crate::device::output::video::SYNC_TIMESCALE;
use crate::display_mode::DecklinkDisplayModeId;
use crate::util::{OutputError, STATUS_OK};
use vstd::prelude::*;

verus! {

/// Which driver call an output that is being enabled waits for.
#[derive(Debug, Clone, Copy, PartialEq, Eq, Structural)]
pub enum EnableStage {
    /// The driver is being given the callback slot.
    RegisterCallback,
    /// The driver is being told to enable the output.
    EnableOutput,
    /// The driver refused to enable the output and still has the callback
    /// slot, which is being taken away from it.
    WithdrawCallback,
}

/// A video output on its way to being enabled, as a plain value.
pub struct PendingVideoState {
    pub mode: u32,
    pub flags: u32,
    pub timescale: i64,
    pub scheduled: bool,
    pub stage: EnableStage,
    /// The status with which the driver refused to enable the output; of
    /// account only while the callback slot is being withdrawn.
    pub refused: i32,
}

impl PendingVideoState {
    /// The call that the driver is to get next.
    pub open spec fn request(self) -> DriverCall {
        match self.stage {
            EnableStage::RegisterCallback => DriverCall::SetScheduledFrameCompletionCallback,
            EnableStage::EnableOutput => DriverCall::EnableVideoOutput {
                mode: self.mode,
                flags: self.flags,
            },
            EnableStage::WithdrawCallback => DriverCall::ClearScheduledFrameCompletionCallback,
        }
    }

    /// Whether the driver's answer `status` ends the attempt in failure: a
    /// refusal does, unless the driver still has the callback slot; the
    /// answer to the withdrawal of the slot always does.
    pub open spec fn fails_with(self, status: i32) -> bool {
        match self.stage {
            EnableStage::RegisterCallback => status != STATUS_OK,
            EnableStage::EnableOutput => status != STATUS_OK && !self.scheduled,
            EnableStage::WithdrawCallback => true,
        }
    }

    /// The status that the failure of the attempt carries: the one with
    /// which the driver refused to register the slot or to enable the output.
    pub open spec fn failure(self, status: i32) -> i32 {
        match self.stage {
            EnableStage::WithdrawCallback => self.refused,
            _ => status,
        }
    }

    /// What is left to do after the driver's answer `status`, where the
    /// attempt goes on: to enable the output once the slot is registered, and
    /// to withdraw the slot once the driver has refused to enable the output.
    pub open spec fn next(self, status: i32) -> PendingVideoState {
        match self.stage {
            EnableStage::RegisterCallback => PendingVideoState {
                stage: EnableStage::EnableOutput,
                ..self
            },
            _ => PendingVideoState {
                stage: EnableStage::WithdrawCallback,
                refused: status,
                ..self
            },
        }
    }

    /// Whether the driver's answer `status` leaves the callback slot with the
    /// driver although the attempt has failed: it does where the driver
    /// refuses the withdrawal of the slot.
    pub open spec fn strands(self, status: i32) -> bool {
        self.stage == EnableStage::WithdrawCallback && status != STATUS_OK
    }

    /// Whether the driver's answer `status` makes the output ready.
    pub open spec fn succeeds_with(self, status: i32) -> bool {
        self.stage == EnableStage::EnableOutput && status == STATUS_OK
    }

    /// The output that is there once the driver has enabled it.
    pub open spec fn ready(self) -> PlaybackState {
        PlaybackState {
            scheduled: self.scheduled,
            running: false,
            timescale: self.timescale,
            queue: Seq::<ScheduleEntry>::empty(),
        }
    }
}

/// A video output on its way to being enabled. It exists only while the
/// video capability of its device is claimed for it.
pub struct PendingVideoOutput {
    mode: u32,
    flags: u32,
    timescale: i64,
    scheduled: bool,
    stage: EnableStage,
    refused: i32,
}

impl View for PendingVideoOutput {
    type V = PendingVideoState;

    closed spec fn view(&self) -> PendingVideoState {
        PendingVideoState {
            mode: self.mode,
            flags: self.flags,
            timescale: self.timescale,
            scheduled: self.scheduled,
            stage: self.stage,
            refused: self.refused,
        }
    }
}

/// How a step of enabling a video output ended.
pub enum EnableOutcome {
    /// There is one more call to make.
    Continue(PendingVideoOutput),
    /// The output is enabled.
    Ready(DecklinkOutputDeviceVideoImpl),
    /// The driver refused and has nothing of the output left; the claim on
    /// the capability is cleared.
    Failed(OutputError),
    /// The driver refused to enable the output and then refused to give the
    /// callback slot back. The claim on the capability is cleared, but what
    /// the driver was given to reach the slot must stay as it is.
    Stranded(OutputError),
}

/// An audio output on its way to being enabled.
pub struct PendingAudioOutput {
    sample_rate: u32,
    sample_type: u32,
    channels: u32,
    stream_type: u32,
}

/// An output of a device, with the claims on its two capabilities.
pub struct DecklinkOutputDevice {
    ptr: DecklinkOutputDevicePtr,
}

impl View for DecklinkOutputDevice {
    type V = GateState;

    closed spec fn view(&self) -> GateState {
        self.ptr@
    }
}

/// The output of a device that was just opened: nothing is claimed.
pub fn wrap_device_output() -> (output: DecklinkOutputDevice)
    ensures
        output@ == GateState::idle(),
{
    DecklinkOutputDevice::from(DecklinkOutputDevicePtr::new())
}

impl DecklinkOutputDevice {
    pub fn from(ptr: DecklinkOutputDevicePtr) -> (output: DecklinkOutputDevice)
        ensures
            output@ == ptr@,
    {
        DecklinkOutputDevice { ptr }
    }

    pub fn is_active(&self, capability: Capability) -> (held: bool)
        ensures
            held == self@.active(capability),
    {
        self.ptr.is_active(capability)
    }

    /// Claims the video capability for scheduled playback in ticks of
    /// `timescale` per second. Where the capability is held the answer is
    /// `AccessDenied` and nothing changes; otherwise it is claimed, and the
    /// value returned says which calls enable the output in the driver.
    pub fn enable_video_output_scheduled(
        &mut self,
        mode: DecklinkDisplayModeId,
        flags: DecklinkVideoOutputFlags,
        timescale: i64,
    ) -> (r: Result<PendingVideoOutput, OutputError>)
        ensures
            old(self)@.active(Capability::Video) ==> r is Err && r->Err_0
                == OutputError::AccessDenied && final(self)@ == old(self)@,
            !old(self)@.active(Capability::Video) ==> r is Ok && r->Ok_0@ == (PendingVideoState {
                mode: mode.spec_code(),
                flags: flags.spec_bits(),
                timescale,
                scheduled: true,
                stage: EnableStage::RegisterCallback,
                refused: STATUS_OK,
            }) && final(self)@ == old(self)@.with(Capability::Video, true),
    {
        match self.ptr.claim(Capability::Video) {
            Ok(()) => Ok(
                PendingVideoOutput {
                    mode: mode.code(),
                    flags: flags.bits(),
                    timescale,
                    scheduled: true,
                    stage: EnableStage::RegisterCallback,
                    refused: STATUS_OK,
                },
            ),
            Err(e) => Err(e),
        }
    }

    /// Claims the video capability for showing frames at once, under the
    /// same rule as `enable_video_output_scheduled`.
    pub fn enable_video_output_sync(
        &mut self,
        mode: DecklinkDisplayModeId,
        flags: DecklinkVideoOutputFlags,
    ) -> (r: Result<PendingVideoOutput, OutputError>)
        ensures
            old(self)@.active(Capability::Video) ==> r is Err && r->Err_0
                == OutputError::AccessDenied && final(self)@ == old(self)@,
            !old(self)@.active(Capability::Video) ==> r is Ok && r->Ok_0@ == (PendingVideoState {
                mode: mode.spec_code(),
                flags: flags.spec_bits(),
                timescale: SYNC_TIMESCALE,
                scheduled: false,
                stage: EnableStage::EnableOutput,
                refused: STATUS_OK,
            }) && final(self)@ == old(self)@.with(Capability::Video, true),
    {
        match self.ptr.claim(Capability::Video) {
            Ok(()) => Ok(
                PendingVideoOutput {
                    mode: mode.code(),
                    flags: flags.bits(),
                    timescale: SYNC_TIMESCALE,
                    scheduled: false,
                    stage: EnableStage::EnableOutput,
                    refused: STATUS_OK,
                },
            ),
            Err(e) => Err(e),
        }
    }

    /// Claims the audio capability, under the same rule as for video.
    pub fn enable_audio_output(
        &mut self,
        sample_rate: DecklinkAudioSampleRate,
        sample_type: DecklinkAudioSampleType,
        channels: u32,
        stream_type: DecklinkAudioOutputStreamType,
    ) -> (r: Result<PendingAudioOutput, OutputError>)
        ensures
            old(self)@.active(Capability::Audio) ==> r is Err && r->Err_0
                == OutputError::AccessDenied && final(self)@ == old(self)@,
            !old(self)@.active(Capability::Audio) ==> r is Ok && r->Ok_0.spec_request() == (
            DriverCall::EnableAudioOutput {
                sample_rate: sample_rate.spec_code(),
                sample_type: sample_type.spec_code(),
                channels,
                stream_type: stream_type.spec_code(),
            }) && final(self)@ == old(self)@.with(Capability::Audio, true),
    {
        match self.ptr.claim(Capability::Audio) {
            Ok(()) => Ok(
                PendingAudioOutput {
                    sample_rate: sample_rate.code(),
                    sample_type: sample_type.code(),
                    channels,
                    stream_type: stream_type.code(),
                },
            ),
            Err(e) => Err(e),
        }
    }

    /// Makes one move in the release of a video output of this device.
    pub fn advance_teardown(&mut self, teardown: &mut TeardownSequencer) -> (step: Option<
        TeardownStep,
    >)
        ensures
            (final(teardown)@, step) == old(teardown)@.step(),
            old(teardown)@.stage != TeardownStage::FreeContext ==> final(teardown).spec_handler()
                == old(teardown).spec_handler(),
            old(teardown)@.stage == TeardownStage::FreeContext ==> final(teardown).spec_handler()
                is None,
            old(teardown)@.stage == TeardownStage::ReleaseGate ==> final(self)@ == old(self)@.with(
                Capability::Video,
                false,
            ),
            old(teardown)@.stage != TeardownStage::ReleaseGate ==> final(self)@ == old(self)@,
    {
        teardown.advance(&mut self.ptr)
    }

    /// Gives up an audio output of this device that the driver has disabled.
    pub fn release_audio(&mut self, audio: DecklinkOutputDeviceAudio)
        ensures
            final(self)@ == old(self)@.with(Capability::Audio, false),
    {
        audio.release(&mut self.ptr)
    }
}

impl PendingVideoOutput {
    /// The call that the driver is to get next.
    pub fn request(&self) -> (call: DriverCall)
        ensures
            call == self@.request(),
    {
        match self.stage {
            EnableStage::RegisterCallback => DriverCall::SetScheduledFrameCompletionCallback,
            EnableStage::EnableOutput => DriverCall::EnableVideoOutput {
                mode: self.mode,
                flags: self.flags,
            },
            EnableStage::WithdrawCallback => DriverCall::ClearScheduledFrameCompletionCallback,
        }
    }

    /// Takes the driver's answer to the call of `request`. Success leads to
    /// the next call or, after the last one, to the enabled output: stopped,
    /// with nothing scheduled and no handler, and with a callback slot
    /// exactly if it is one for scheduled playback. A refusal ends the
    /// attempt and clears the claim on the video capability; where the
    /// driver has the callback slot by then, the slot is first taken away
    /// from it, and the attempt ends with the refusal once that is done. If
    /// the driver refuses that too, the outcome says that it still has the slot.
    pub fn complete(self, status: i32, device: &mut DecklinkOutputDevice) -> (outcome:
        EnableOutcome)
        ensures
            self@.fails_with(status) && !self@.strands(status) ==> (
            outcome matches EnableOutcome::Failed(e) && e == OutputError::DriverFailure(
                self@.failure(status),
            )),
            self@.strands(status) ==> (outcome matches EnableOutcome::Stranded(e) && e
                == OutputError::DriverFailure(self@.failure(status))),
            self@.fails_with(status) ==> final(device)@ == old(device)@.with(
                Capability::Video,
                false,
            ),
            !self@.fails_with(status) ==> final(device)@ == old(device)@,
            self@.succeeds_with(status) ==> (outcome matches EnableOutcome::Ready(output)
                && output@ == self@.ready() && output.spec_handler().is_none()),
            !self@.fails_with(status) && !self@.succeeds_with(status) ==> (
            outcome matches EnableOutcome::Continue(next) && next@ == self@.next(status)),
    {
        match self.stage {
            EnableStage::RegisterCallback => {
                if status != STATUS_OK {
                    device.ptr.release(Capability::Video);
                    EnableOutcome::Failed(OutputError::DriverFailure(status))
                } else {
                    EnableOutcome::Continue(
                        PendingVideoOutput { stage: EnableStage::EnableOutput, ..self },
                    )
                }
            },
            EnableStage::EnableOutput => {
                if status == STATUS_OK {
                    let wrapper = if self.scheduled {
                        Some(CallbackWrapper::new())
                    } else {
                        None
                    };
                    EnableOutcome::Ready(
                        DecklinkOutputDeviceVideoImpl::from(wrapper, self.timescale),
                    )
                } else if self.scheduled {
                    EnableOutcome::Continue(
                        PendingVideoOutput {
                            stage: EnableStage::WithdrawCallback,
                            refused: status,
                            ..self
                        },
                    )
                } else {
                    device.ptr.release(Capability::Video);
                    EnableOutcome::Failed(OutputError::DriverFailure(status))
                }
            },
            EnableStage::WithdrawCallback => {
                device.ptr.release(Capability::Video);
                if status == STATUS_OK {
                    EnableOutcome::Failed(OutputError::DriverFailure(self.refused))
                } else {
                    EnableOutcome::Stranded(OutputError::DriverFailure(self.refused))
                }
            },
        }
    }
}

impl PendingAudioOutput {
    /// The call that enables the audio output in the driver.
    pub closed spec fn spec_request(&self) -> DriverCall {
        DriverCall::EnableAudioOutput {
            sample_rate: self.sample_rate,
            sample_type: self.sample_type,
            channels: self.channels,
            stream_type: self.stream_type,
        }
    }

    pub closed spec fn spec_channels(&self) -> u32 {
        self.channels
    }

    pub fn request(&self) -> (call: DriverCall)
        ensures
            call == self.spec_request(),
    {
        DriverCall::EnableAudioOutput {
            sample_rate: self.sample_rate,
            sample_type: self.sample_type,
            channels: self.channels,
            stream_type: self.stream_type,
        }
    }

    /// Takes the driver's answer to the call of `request`: the enabled
    /// output on success; on failure the error with the driver's status, and
    /// the claim on the audio capability is cleared.
    pub fn complete(self, status: i32, device: &mut DecklinkOutputDevice) -> (r: Result<
        DecklinkOutputDeviceAudio,
        OutputError,
    >)
        ensures
            status == STATUS_OK ==> r is Ok && r->Ok_0.spec_channels() == self.spec_channels()
                && final(device)@ == old(device)@,
            status != STATUS_OK ==> r is Err && r->Err_0 == OutputError::DriverFailure(status)
                && final(device)@ == old(device)@.with(Capability::Audio, false),
    {
        if status == STATUS_OK {
            Ok(wrap_audio(self.channels))
        } else {
            device.ptr.release(Capability::Audio);
            Err(OutputError::DriverFailure(status))
        }
    }
}

} // verus!
