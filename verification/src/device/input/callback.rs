//! The bridge between the driver's notices about an input and the
//! application's handler.

use crate::device::input::audio::{wrap_packet, DecklinkAudioInputPacket, PacketReport, PacketState};
use crate::device::input::enums::{
    DecklinkDetectedVideoInputFormatFlags, DecklinkVideoInputFormatChangedEvents,
};
use crate::device::output::video_callback::{acknowledge, acknowledgement};
use crate::display_mode::DecklinkDisplayMode;
use crate::frame::DecklinkVideoFrame;
use crate::util::{STATUS_FALSE, STATUS_OK};
use std::sync::Arc;
use vstd::prelude::*;

verus! {

/// What an application does when the driver reports on an input. Each
/// answer is handed on to the driver: `false` tells it that the notice was
/// rejected.
pub trait DeckLinkVideoInputCallback: Send + Sync {
    fn input_frame_arrived(
        &self,
        video_frame: Option<DecklinkVideoFrame>,
        audio_packet: Option<DecklinkAudioInputPacket>,
    ) -> bool;

    fn video_input_format_changed(
        &self,
        events: DecklinkVideoInputFormatChangedEvents,
        display_mode: Option<DecklinkDisplayMode>,
        signal_flags: DecklinkDetectedVideoInputFormatFlags,
    ) -> bool;
}

/// Whether `accepted` is an answer of `handler` to the notice that a frame
/// and a packet have arrived.
pub open spec fn answers_arrival<H: DeckLinkVideoInputCallback + ?Sized>(
    handler: &H,
    video_frame: Option<DecklinkVideoFrame>,
    audio_packet: Option<DecklinkAudioInputPacket>,
    accepted: bool,
) -> bool {
    call_ensures(H::input_frame_arrived, (handler, video_frame, audio_packet), accepted)
}

/// Whether `accepted` is an answer of `handler` to the notice that the
/// format of the signal has changed.
pub open spec fn answers_format_change<H: DeckLinkVideoInputCallback + ?Sized>(
    handler: &H,
    events: DecklinkVideoInputFormatChangedEvents,
    display_mode: Option<DecklinkDisplayMode>,
    signal_flags: DecklinkDetectedVideoInputFormatFlags,
    accepted: bool,
) -> bool {
    call_ensures(
        H::video_input_format_changed,
        (handler, events, display_mode, signal_flags),
        accepted,
    )
}

/// The slot for the handler of an input, with the shape of the audio that
/// its packets are read with.
pub struct CallbackWrapper {
    pub handler: Option<Arc<dyn DeckLinkVideoInputCallback>>,
    pub audio_channels: u32,
    pub audio_sample_depth: u32,
}

impl CallbackWrapper {
    /// A slot with no handler in it.
    pub fn new(audio_channels: u32, audio_sample_depth: u32) -> (wrapper: Self)
        ensures
            wrapper.handler.is_none(),
            wrapper.audio_channels == audio_channels,
            wrapper.audio_sample_depth == audio_sample_depth,
    {
        CallbackWrapper { handler: None, audio_channels, audio_sample_depth }
    }

    /// Puts `handler` in the slot in place of what was there.
    pub fn set(&mut self, handler: Option<Arc<dyn DeckLinkVideoInputCallback>>)
        ensures
            final(self).handler == handler,
            final(self).audio_channels == old(self).audio_channels,
            final(self).audio_sample_depth == old(self).audio_sample_depth,
    {
        self.handler = handler;
    }

    /// The packet that the handler is told of: the one that the driver
    /// reported, read with the shape of the audio of this slot.
    pub open spec fn spec_packet(&self, report: Option<PacketReport>) -> Option<PacketState> {
        match report {
            Some(r) => Some(
                PacketState {
                    sample_frame_count: r.sample_frame_count,
                    channels: self.audio_channels,
                    sample_depth: self.audio_sample_depth,
                    bytes_status: r.bytes_status,
                    bytes: r.bytes@,
                },
            ),
            None => None,
        }
    }

    /// Hands the notice that a frame and a packet have arrived to the
    /// handler in the slot and returns the status for the driver: the
    /// acknowledgement of the handler's answer, or acceptance where there is
    /// no handler.
    pub fn input_frame_arrived(
        &self,
        video_frame: Option<DecklinkVideoFrame>,
        audio_packet: Option<PacketReport>,
    ) -> (status: i32)
        ensures
            self.handler.is_none() ==> status == STATUS_OK,
            self.handler matches Some(handler) ==> exists|
                packet: Option<DecklinkAudioInputPacket>,
                accepted: bool,
            |
                #[trigger] answers_arrival(&*handler, video_frame, packet, accepted) && (match packet {
                    Some(p) => Some(p@),
                    None => None,
                }) == self.spec_packet(audio_packet) && status == acknowledgement(accepted),
            status == STATUS_OK || status == STATUS_FALSE,
    {
        match &self.handler {
            Some(handler) => {
                let packet = match audio_packet {
                    Some(report) => Some(
                        wrap_packet(report, self.audio_channels, self.audio_sample_depth),
                    ),
                    None => None,
                };
                let accepted = handler.input_frame_arrived(video_frame, packet);
                assert(answers_arrival(&**handler, video_frame, packet, accepted));
                acknowledge(accepted)
            },
            None => acknowledge(true),
        }
    }

    /// Hands the notice that the format of the signal has changed to the
    /// handler in the slot, with the events and the flags that the driver's
    /// numbers stand for, and returns the status for the driver: the
    /// acknowledgement of the handler's answer, or acceptance where there is
    /// no handler.
    pub fn video_input_format_changed(
        &self,
        events: u32,
        display_mode: Option<DecklinkDisplayMode>,
        signal_flags: u32,
    ) -> (status: i32)
        ensures
            self.handler.is_none() ==> status == STATUS_OK,
            self.handler matches Some(handler) ==> exists|
                told: DecklinkVideoInputFormatChangedEvents,
                flags: DecklinkDetectedVideoInputFormatFlags,
                accepted: bool,
            |
                #[trigger] answers_format_change(&*handler, told, display_mode, flags, accepted)
                    && told.spec_bits() == events & DecklinkVideoInputFormatChangedEvents::ALL
                    && flags.spec_bits() == signal_flags
                    & DecklinkDetectedVideoInputFormatFlags::ALL && status == acknowledgement(
                    accepted,
                ),
            status == STATUS_OK || status == STATUS_FALSE,
    {
        match &self.handler {
            Some(handler) => {
                let told = DecklinkVideoInputFormatChangedEvents::from_bits_truncate(events);
                let flags = DecklinkDetectedVideoInputFormatFlags::from_bits_truncate(signal_flags);
                let accepted = handler.video_input_format_changed(told, display_mode, flags);
                assert(answers_format_change(&**handler, told, display_mode, flags, accepted));
                acknowledge(accepted)
            },
            None => acknowledge(true),
        }
    }
}

} // verus!
