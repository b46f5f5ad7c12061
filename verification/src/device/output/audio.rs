//! The audio side of an output.

use crate::device::output::device::{Capability, DecklinkOutputDevicePtr};
use crate::device::output::video::DriverCall;
use vstd::prelude::*;

verus! {

/// An enabled audio output. While it exists the audio capability of its
/// device is claimed.
pub struct DecklinkOutputDeviceAudio {
    channels: u32,
}

/// The handle to an audio output that the driver has just enabled.
pub(crate) fn wrap_audio(channels: u32) -> (audio: DecklinkOutputDeviceAudio)
    ensures
        audio.spec_channels() == channels,
{
    DecklinkOutputDeviceAudio { channels }
}

impl DecklinkOutputDeviceAudio {
    pub closed spec fn spec_channels(&self) -> u32 {
        self.channels
    }

    /// The number of channels that the output was enabled with.
    pub fn channels(&self) -> (n: u32)
        ensures
            n == self.spec_channels(),
    {
        self.channels
    }

    /// The call that disables the output. The handle stays until the driver
    /// has answered.
    pub fn disable_request(&self) -> (call: DriverCall)
        ensures
            call == DriverCall::DisableAudioOutput,
    {
        DriverCall::DisableAudioOutput
    }

    /// Gives the output up once the driver has disabled it: the claim on the
    /// audio capability is cleared and the claim on video is left alone.
    pub fn release(self, gate: &mut DecklinkOutputDevicePtr)
        ensures
            final(gate)@ == old(gate)@.with(Capability::Audio, false),
    {
        gate.release(Capability::Audio);
    }
}

} // verus!
