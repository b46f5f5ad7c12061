//! A video output that is enabled: frames on their way to the driver, the
//! queue of scheduled frames, and the start and stop of scheduled playback.
//!
//! Nothing here talks to the driver. A request is a value that says which
//! call to make; the caller makes it and hands the driver's answer back.

use crate::device::output::device::{Capability, DecklinkOutputDevicePtr};
use crate::device::output::video_callback::{CallbackWrapper, DeckLinkVideoOutputCallback};
use crate::frame::{
    copy_of, frame_byte_count, required_byte_count, DecklinkAlignedVec, DecklinkFrameBase,
    DecklinkFrameBase2,
};
use crate::util::{OutputError, STATUS_FAIL, STATUS_OK};
use std::sync::Arc;
use vstd::prelude::*;

verus! {

/// The timescale of an output that shows frames at once.
pub const SYNC_TIMESCALE: i64 = 1000;

/// The number of which the length of a buffer must be a multiple where the
/// driver reads from the buffer itself.
pub const CUSTOM_FRAME_ALIGNMENT: usize = 64;

/// When a scheduled frame is to be shown and for how long, in ticks of the
/// output's timescale.
#[derive(Debug, Clone, Copy, PartialEq, Eq, Structural)]
pub struct ScheduleEntry {
    pub display_time: i64,
    pub duration: i64,
}

/// The shape of a frame in the numbers that the driver takes.
#[derive(Debug, Clone, Copy, PartialEq, Eq, Structural)]
pub struct FrameGeometry {
    pub width: i64,
    pub height: i64,
    pub row_bytes: i64,
    pub pixel_format: u32,
    pub flags: u32,
}

/// A call for the driver, with everything that is handed to it.
pub enum DriverCall {
    /// Give the driver the callback slot of the output.
    SetScheduledFrameCompletionCallback,
    /// Take the callback slot away from the driver again.
    ClearScheduledFrameCompletionCallback,
    /// Ask the driver how many scheduled frames it holds.
    GetBufferedVideoFrameCount,
    EnableVideoOutput { mode: u32, flags: u32 },
    EnableAudioOutput { sample_rate: u32, sample_type: u32, channels: u32, stream_type: u32 },
    /// Make a frame of this shape in the driver, fill it with the bytes and
    /// schedule it.
    ScheduleVideoFrame {
        geometry: FrameGeometry,
        bytes: Vec<u8>,
        display_time: i64,
        duration: i64,
        timescale: i64,
    },
    /// Make a frame of this shape in the driver, fill it with the bytes and
    /// show it at once.
    DisplayVideoFrameSync { geometry: FrameGeometry, bytes: Vec<u8> },
    /// Show at once a frame that reads its pixels from this buffer.
    DisplayCustomFrameSync { geometry: FrameGeometry, buffer: DecklinkAlignedVec },
    /// `speed` is the bit pattern of the speed as a 64-bit IEEE number.
    StartScheduledPlayback { start_time: i64, timescale: i64, speed: u64 },
    StopScheduledPlayback { stop_time: i64, timescale: i64 },
    /// Returns only when no callback is running and none will start.
    DisableVideoOutput,
    DisableAudioOutput,
}

/// The status of a driver call that makes a frame: the driver's own where it
/// failed, and a failure too where it claims success but gave no frame.
pub open spec fn spec_created_frame_status(status: i32, missing: bool) -> i32 {
    if status != STATUS_OK {
        status
    } else if missing {
        STATUS_FAIL
    } else {
        STATUS_OK
    }
}

pub fn created_frame_status(status: i32, missing: bool) -> (r: i32)
    ensures
        r == spec_created_frame_status(status, missing),
{
    if status != STATUS_OK {
        status
    } else if missing {
        STATUS_FAIL
    } else {
        STATUS_OK
    }
}

/// The largest measure of a frame that the driver makes itself.
pub const DRIVER_FRAME_LIMIT: u64 = 0x7FFF_FFFF;

/// The largest measure of a frame that reads its pixels from a buffer of the
/// application.
pub const CUSTOM_FRAME_LIMIT: u64 = 0x7FFF_FFFF_FFFF_FFFF;

/// Whether the three measures of a frame are within `limit`.
pub open spec fn geometry_fits<F: DecklinkFrameBase>(frame: &F, limit: u64) -> bool {
    frame.spec_width() <= limit && frame.spec_height() <= limit && frame.spec_row_bytes() <= limit
}

/// The shape of `frame` for the driver.
pub open spec fn spec_geometry<F: DecklinkFrameBase>(frame: &F) -> FrameGeometry {
    FrameGeometry {
        width: frame.spec_width() as i64,
        height: frame.spec_height() as i64,
        row_bytes: frame.spec_row_bytes() as i64,
        pixel_format: frame.spec_pixel_format().spec_code(),
        flags: frame.spec_flags().spec_bits(),
    }
}

/// What of a frame goes to the driver, or why it cannot go: the frame's own
/// error where it has no bytes to read; `InvalidArgument` where the bytes are
/// not one for every byte of every row, or a measure is beyond `limit`.
pub open spec fn spec_frame_payload<F: DecklinkFrameBase>(frame: &F, limit: u64) -> Result<
    (FrameGeometry, Seq<u8>),
    OutputError,
> {
    match frame.spec_bytes() {
        Err(e) => Err(e),
        Ok(bytes) => if bytes.len() != frame_byte_count(
            frame.spec_row_bytes(),
            frame.spec_height(),
        ) {
            Err(OutputError::InvalidArgument)
        } else if !geometry_fits(frame, limit) {
            Err(OutputError::InvalidArgument)
        } else {
            Ok((spec_geometry(frame), bytes))
        },
    }
}

/// The check of `spec_frame_payload` for a frame that gives its buffer away,
/// with one more demand: the number of bytes is a multiple of the alignment.
pub open spec fn spec_custom_payload<F: DecklinkFrameBase>(frame: &F) -> Result<
    (FrameGeometry, Seq<u8>),
    OutputError,
> {
    match spec_frame_payload(frame, CUSTOM_FRAME_LIMIT) {
        Err(e) => Err(e),
        Ok(payload) => if payload.1.len() % (CUSTOM_FRAME_ALIGNMENT as nat) != 0 {
            Err(OutputError::InvalidArgument)
        } else {
            Ok(payload)
        },
    }
}

/// The shape of `frame` for the driver, where its measures are within `limit`.
pub fn geometry_of<F: DecklinkFrameBase>(frame: &F, limit: u64) -> (r: Option<FrameGeometry>)
    requires
        limit <= CUSTOM_FRAME_LIMIT,
    ensures
        geometry_fits(frame, limit) ==> r == Some(spec_geometry(frame)),
        !geometry_fits(frame, limit) ==> r.is_none(),
{
    let width: usize = frame.width();
    let height: usize = frame.height();
    let row_bytes: usize = frame.row_bytes();
    if width as u64 <= limit && height as u64 <= limit && row_bytes as u64 <= limit {
        Some(
            FrameGeometry {
                width: width as i64,
                height: height as i64,
                row_bytes: row_bytes as i64,
                pixel_format: frame.pixel_format().code(),
                flags: frame.flags().bits(),
            },
        )
    } else {
        None
    }
}

/// Reads out of `frame` what goes to a frame that the driver makes, with a
/// copy of its bytes.
pub fn frame_payload<F: DecklinkFrameBase>(frame: &F) -> (r: Result<
    (FrameGeometry, Vec<u8>),
    OutputError,
>)
    ensures
        r matches Ok(p) ==> spec_frame_payload(frame, DRIVER_FRAME_LIMIT) == Ok::<
            (FrameGeometry, Seq<u8>),
            OutputError,
        >((p.0, p.1@)),
        r matches Err(e) ==> spec_frame_payload(frame, DRIVER_FRAME_LIMIT) == Err::<
            (FrameGeometry, Seq<u8>),
            OutputError,
        >(e),
{
    let bytes = match frame.bytes() {
        Ok(bytes) => bytes,
        Err(e) => {
            return Err(e);
        },
    };
    let given: usize = bytes.0.len();
    let fits = match required_byte_count(frame.row_bytes(), frame.height()) {
        Some(count) => given == count,
        None => false,
    };
    if !fits {
        return Err(OutputError::InvalidArgument);
    }
    match geometry_of(frame, DRIVER_FRAME_LIMIT) {
        Some(geometry) => Ok((geometry, copy_of(bytes.0))),
        None => Err(OutputError::InvalidArgument),
    }
}

/// What is known of an enabled video output.
pub struct PlaybackState {
    /// Whether the output was enabled for scheduled playback.
    pub scheduled: bool,
    /// Whether scheduled playback is running.
    pub running: bool,
    /// Ticks per second of the times of this output.
    pub timescale: i64,
    /// The frames that the driver took and has not reported on, oldest first.
    pub queue: Seq<ScheduleEntry>,
}

impl PlaybackState {
    /// The call that starts playback, or none where playback is running.
    pub open spec fn start_request(self, start_time: i64, speed: u64) -> Option<DriverCall> {
        if self.running {
            None
        } else {
            Some(
                DriverCall::StartScheduledPlayback { start_time, timescale: self.timescale, speed },
            )
        }
    }

    /// The state after the driver answered the call to start with `status`.
    pub open spec fn started(self, status: i32) -> PlaybackState {
        PlaybackState { running: self.running || status == STATUS_OK, ..self }
    }

    /// The call that stops playback, or the refusal where none is running.
    pub open spec fn stop_request(self, stop_time: i64) -> Result<DriverCall, OutputError> {
        if self.running {
            Ok(DriverCall::StopScheduledPlayback { stop_time, timescale: self.timescale })
        } else {
            Err(OutputError::InvalidState)
        }
    }

    /// The state after the driver answered the call to stop with `status`.
    pub open spec fn stopped(self, status: i32) -> PlaybackState {
        PlaybackState { running: self.running && status != STATUS_OK, ..self }
    }

    /// The state after the driver answered the scheduling of `entry` with `status`.
    pub open spec fn submitted(self, entry: ScheduleEntry, status: i32) -> PlaybackState {
        if status == STATUS_OK {
            PlaybackState { queue: self.queue.push(entry), ..self }
        } else {
            self
        }
    }

    /// The state after the driver reported on one scheduled frame.
    pub open spec fn completed(self) -> PlaybackState {
        if self.queue.len() > 0 {
            PlaybackState { queue: self.queue.drop_first(), ..self }
        } else {
            self
        }
    }

    /// The state after the driver took every entry of `entries`, in order.
    pub open spec fn submitted_all(self, entries: Seq<ScheduleEntry>) -> PlaybackState
        decreases entries.len(),
    {
        if entries.len() == 0 {
            self
        } else {
            self.submitted_all(entries.drop_last()).submitted(entries.last(), STATUS_OK)
        }
    }

    /// The state after the driver reported on `count` scheduled frames.
    pub open spec fn completed_times(self, count: nat) -> PlaybackState
        decreases count,
    {
        if count == 0 {
            self
        } else {
            self.completed_times((count - 1) as nat).completed()
        }
    }
}

/// An enabled video output, whatever it was enabled for.
pub trait DecklinkOutputDeviceVideo {
    /// What is known of the output.
    spec fn playback(&self) -> PlaybackState;

    /// The handler that is installed, if the output has a callback slot and
    /// a handler is in it.
    spec fn handler(&self) -> Option<Arc<dyn DeckLinkVideoOutputCallback>>;
}

/// A video output that shows frames at once.
pub trait DecklinkOutputDeviceVideoSync: DecklinkOutputDeviceVideo {
    /// Checks a frame for showing at once and says which call shows it:
    /// what `spec_frame_payload` says of the frame.
    fn display_frame_copy<F: DecklinkFrameBase>(&self, frame: &F) -> (r: Result<
        DriverCall,
        OutputError,
    >)
        ensures
            (match spec_frame_payload(frame, DRIVER_FRAME_LIMIT) {
                Err(e) => r is Err && r->Err_0 == e,
                Ok(payload) => {
                    &&& r matches Ok(DriverCall::DisplayVideoFrameSync { geometry, bytes })
                    &&& geometry == payload.0
                    &&& bytes@ == payload.1
                },
            }),
    ;

    /// Checks a frame that gives its buffer to the driver and says which call
    /// shows it: what `spec_custom_payload` says of the frame.
    fn display_custom_frame<F: DecklinkFrameBase2>(&self, frame: F) -> (r: Result<
        DriverCall,
        OutputError,
    >)
        ensures
            (match spec_custom_payload(&frame) {
                Err(e) => r is Err && r->Err_0 == e,
                Ok(payload) => {
                    &&& r matches Ok(DriverCall::DisplayCustomFrameSync { geometry, buffer })
                    &&& geometry == payload.0
                    &&& buffer@ == payload.1
                },
            }),
    ;
}

/// A video output that shows frames at the times they are scheduled for.
/// Each operation that needs the driver comes in two halves: one that says
/// which call to make, and one that takes the driver's answer.
pub trait DecklinkOutputDeviceVideoScheduled: DecklinkOutputDeviceVideo {
    /// Checks a frame for scheduling and says which call schedules it. The
    /// check comes before any call: `InvalidState` on an output that is not
    /// one for scheduled playback, otherwise what `spec_frame_payload` says
    /// of the frame for a frame that the driver makes.
    fn schedule_frame_copy<F: DecklinkFrameBase>(
        &self,
        frame: &F,
        display_time: i64,
        duration: i64,
    ) -> (r: Result<DriverCall, OutputError>)
        ensures
            !self.playback().scheduled ==> r is Err && r->Err_0 == OutputError::InvalidState,
            self.playback().scheduled ==> (match spec_frame_payload(frame, DRIVER_FRAME_LIMIT) {
                Err(e) => r is Err && r->Err_0 == e,
                Ok(payload) => {
                    &&& r matches Ok(
                        DriverCall::ScheduleVideoFrame {
                            geometry,
                            bytes,
                            display_time: at,
                            duration: lasts,
                            timescale,
                        },
                    )
                    &&& geometry == payload.0
                    &&& bytes@ == payload.1
                    &&& at == display_time
                    &&& lasts == duration
                    &&& timescale == self.playback().timescale
                },
            }),
    ;

    /// Takes the driver's answer to the scheduling of a frame: on success the
    /// entry joins the queue, on failure nothing changes.
    fn frame_scheduled(&mut self, entry: ScheduleEntry, status: i32) -> (r: Result<
        (),
        OutputError,
    >)
        ensures
            r == OutputError::spec_check(status, ()),
            final(self).playback() == old(self).playback().submitted(entry, status),
            final(self).handler() == old(self).handler(),
    ;

    /// Takes the driver's notice that it is done with one scheduled frame:
    /// the oldest entry leaves the queue and is returned.
    fn frame_completed(&mut self) -> (entry: Option<ScheduleEntry>)
        ensures
            final(self).playback() == old(self).playback().completed(),
            final(self).handler() == old(self).handler(),
            old(self).playback().queue.len() > 0 ==> entry == Some(old(self).playback().queue[0]),
            old(self).playback().queue.len() == 0 ==> entry.is_none(),
    ;

    /// Puts `handler` in the callback slot in place of what was there. An
    /// output without a slot refuses.
    fn set_callback(&mut self, handler: Option<Arc<dyn DeckLinkVideoOutputCallback>>) -> (r:
        Result<(), OutputError>)
        ensures
            final(self).playback() == old(self).playback(),
            old(self).playback().scheduled ==> r == Ok::<(), OutputError>(()) && final(self).handler()
                == handler,
            !old(self).playback().scheduled ==> r == Err::<(), OutputError>(OutputError::InvalidState)
                && final(self).handler() == old(self).handler(),
    ;

    /// How many scheduled frames the driver has taken and not reported on,
    /// by the library's own count.
    fn buffered_video_frame_count(&self) -> (count: usize)
        ensures
            count == self.playback().queue.len(),
    ;

    /// The call that asks the driver for its count of the scheduled frames
    /// that it holds.
    fn buffered_video_frame_count_request(&self) -> (call: DriverCall)
        ensures
            call == DriverCall::GetBufferedVideoFrameCount,
    ;

    /// Takes the driver's answer to the call of
    /// `buffered_video_frame_count_request`: its count, or the failure.
    fn buffered_video_frame_count_reported(&self, status: i32, count: u32) -> (r: Result<
        u32,
        OutputError,
    >)
        ensures
            r == OutputError::spec_check(status, count),
    ;

    /// The call that starts scheduled playback, or none where it is running:
    /// then there is nothing to do and nothing to ask of the driver.
    fn start_playback(&self, start_time: i64, speed: u64) -> (call: Option<DriverCall>)
        ensures
            call == self.playback().start_request(start_time, speed),
    ;

    /// Takes the driver's answer to the call to start: on success playback is
    /// running, on failure nothing changes.
    fn playback_started(&mut self, status: i32) -> (r: Result<(), OutputError>)
        ensures
            r == OutputError::spec_check(status, ()),
            final(self).playback() == old(self).playback().started(status),
            final(self).handler() == old(self).handler(),
    ;

    /// The call that stops scheduled playback; `InvalidState` where none is running.
    fn stop_playback(&self, stop_time: i64) -> (r: Result<DriverCall, OutputError>)
        ensures
            r == self.playback().stop_request(stop_time),
    ;

    /// Takes the driver's answer to the call to stop: on success playback is
    /// stopped and the time at which it stopped is returned, on failure
    /// nothing changes.
    fn playback_stopped(&mut self, status: i32, actual_stop_time: i64) -> (r: Result<
        i64,
        OutputError,
    >)
        ensures
            r == OutputError::spec_check(status, actual_stop_time),
            final(self).playback() == old(self).playback().stopped(status),
            final(self).handler() == old(self).handler(),
    ;
}

/// An enabled video output.
pub struct DecklinkOutputDeviceVideoImpl {
    callback_wrapper: Option<CallbackWrapper>,
    scheduled_running: bool,
    scheduled_timescale: i64,
    queue: Vec<ScheduleEntry>,
}

impl View for DecklinkOutputDeviceVideoImpl {
    type V = PlaybackState;

    closed spec fn view(&self) -> PlaybackState {
        PlaybackState {
            scheduled: self.callback_wrapper.is_some(),
            running: self.scheduled_running,
            timescale: self.scheduled_timescale,
            queue: self.queue@,
        }
    }
}

impl DecklinkOutputDeviceVideo for DecklinkOutputDeviceVideoImpl {
    open spec fn playback(&self) -> PlaybackState {
        self@
    }

    open spec fn handler(&self) -> Option<Arc<dyn DeckLinkVideoOutputCallback>> {
        self.spec_handler()
    }
}

impl DecklinkOutputDeviceVideoImpl {
    /// The handler that is installed, if the output has a callback slot and
    /// a handler is in it.
    pub closed spec fn spec_handler(&self) -> Option<Arc<dyn DeckLinkVideoOutputCallback>> {
        match self.callback_wrapper {
            Some(wrapper) => wrapper.handler,
            None => None,
        }
    }

    /// A video output that was just enabled: stopped, with nothing scheduled.
    /// It is one for scheduled playback exactly if it comes with a callback slot.
    pub(crate) fn from(wrapper: Option<CallbackWrapper>, timescale: i64) -> (output: Self)
        ensures
            output@ == (PlaybackState {
                scheduled: wrapper.is_some(),
                running: false,
                timescale,
                queue: Seq::<ScheduleEntry>::empty(),
            }),
            output.spec_handler() == (match wrapper {
                Some(w) => w.handler,
                None => None,
            }),
    {
        DecklinkOutputDeviceVideoImpl {
            callback_wrapper: wrapper,
            scheduled_running: false,
            scheduled_timescale: timescale,
            queue: Vec::new(),
        }
    }

    pub fn is_scheduled(&self) -> (b: bool)
        ensures
            b == self@.scheduled,
    {
        self.callback_wrapper.is_some()
    }

    pub fn is_scheduled_playback_running(&self) -> (b: bool)
        ensures
            b == self@.running,
    {
        self.scheduled_running
    }

    pub fn timescale(&self) -> (t: i64)
        ensures
            t == self@.timescale,
    {
        self.scheduled_timescale
    }

    /// The callback slot of the output, for the driver's notices.
    pub fn callback_wrapper(&self) -> (w: Option<&CallbackWrapper>)
        ensures
            w.is_some() == self@.scheduled,
            w matches Some(wrapper) ==> wrapper.handler == self.spec_handler(),
    {
        self.callback_wrapper.as_ref()
    }
}

impl DecklinkOutputDeviceVideoSync for DecklinkOutputDeviceVideoImpl {
    fn display_frame_copy<F: DecklinkFrameBase>(&self, frame: &F) -> (r: Result<
        DriverCall,
        OutputError,
    >) {
        match frame_payload(frame) {
            Ok((geometry, bytes)) => Ok(DriverCall::DisplayVideoFrameSync { geometry, bytes }),
            Err(e) => Err(e),
        }
    }

    fn display_custom_frame<F: DecklinkFrameBase2>(&self, frame: F) -> (r: Result<
        DriverCall,
        OutputError,
    >) {
        let fitting = geometry_of(&frame, CUSTOM_FRAME_LIMIT);
        let required = required_byte_count(frame.row_bytes(), frame.height());
        let bytes = match frame.into_avec() {
            Ok(bytes) => bytes,
            Err(e) => {
                return Err(e);
            },
        };
        let given: usize = bytes.len();
        let count: usize = match required {
            Some(count) => count,
            None => {
                return Err(OutputError::InvalidArgument);
            },
        };
        if given != count {
            return Err(OutputError::InvalidArgument);
        }
        match fitting {
            Some(geometry) => {
                if count % CUSTOM_FRAME_ALIGNMENT != 0 {
                    Err(OutputError::InvalidArgument)
                } else {
                    Ok(DriverCall::DisplayCustomFrameSync { geometry, buffer: bytes })
                }
            },
            None => Err(OutputError::InvalidArgument),
        }
    }
}

impl DecklinkOutputDeviceVideoScheduled for DecklinkOutputDeviceVideoImpl {
    fn schedule_frame_copy<F: DecklinkFrameBase>(
        &self,
        frame: &F,
        display_time: i64,
        duration: i64,
    ) -> (r: Result<DriverCall, OutputError>) {
        if self.callback_wrapper.is_none() {
            return Err(OutputError::InvalidState);
        }
        match frame_payload(frame) {
            Ok((geometry, bytes)) => Ok(
                DriverCall::ScheduleVideoFrame {
                    geometry,
                    bytes,
                    display_time,
                    duration,
                    timescale: self.scheduled_timescale,
                },
            ),
            Err(e) => Err(e),
        }
    }

    fn frame_scheduled(&mut self, entry: ScheduleEntry, status: i32) -> (r: Result<
        (),
        OutputError,
    >) {
        if status == STATUS_OK {
            self.queue.push(entry);
            Ok(())
        } else {
            Err(OutputError::DriverFailure(status))
        }
    }

    fn frame_completed(&mut self) -> (entry: Option<ScheduleEntry>) {
        if self.queue.len() > 0 {
            let first = self.queue.remove(0);
            assert(self.queue@ == old(self).queue@.drop_first());
            Some(first)
        } else {
            None
        }
    }

    fn set_callback(&mut self, handler: Option<Arc<dyn DeckLinkVideoOutputCallback>>) -> (r:
        Result<(), OutputError>) {
        match &mut self.callback_wrapper {
            Some(wrapper) => {
                wrapper.set(handler);
                Ok(())
            },
            None => Err(OutputError::InvalidState),
        }
    }

    fn buffered_video_frame_count(&self) -> (count: usize) {
        self.queue.len()
    }

    fn buffered_video_frame_count_request(&self) -> (call: DriverCall) {
        DriverCall::GetBufferedVideoFrameCount
    }

    fn buffered_video_frame_count_reported(&self, status: i32, count: u32) -> (r: Result<
        u32,
        OutputError,
    >) {
        OutputError::check(status, count)
    }

    fn start_playback(&self, start_time: i64, speed: u64) -> (call: Option<DriverCall>) {
        if self.scheduled_running {
            None
        } else {
            Some(
                DriverCall::StartScheduledPlayback {
                    start_time,
                    timescale: self.scheduled_timescale,
                    speed,
                },
            )
        }
    }

    fn playback_started(&mut self, status: i32) -> (r: Result<(), OutputError>) {
        if status == STATUS_OK {
            self.scheduled_running = true;
            Ok(())
        } else {
            Err(OutputError::DriverFailure(status))
        }
    }

    fn stop_playback(&self, stop_time: i64) -> (r: Result<DriverCall, OutputError>) {
        if self.scheduled_running {
            Ok(
                DriverCall::StopScheduledPlayback {
                    stop_time,
                    timescale: self.scheduled_timescale,
                },
            )
        } else {
            Err(OutputError::InvalidState)
        }
    }

    fn playback_stopped(&mut self, status: i32, actual_stop_time: i64) -> (r: Result<
        i64,
        OutputError,
    >) {
        if status == STATUS_OK {
            self.scheduled_running = false;
            Ok(actual_stop_time)
        } else {
            Err(OutputError::DriverFailure(status))
        }
    }
}

/// Starting twice is starting once: when the driver has started playback,
/// a second start asks nothing of the driver, and whatever status is handed
/// in for it leaves the state as it is.
pub proof fn lemma_start_is_idempotent(
    state: PlaybackState,
    start_time: i64,
    speed: u64,
    status: i32,
)
    ensures
        state.started(STATUS_OK).start_request(start_time, speed).is_none(),
        state.started(STATUS_OK).started(status) == state.started(STATUS_OK),
        state.running ==> state.start_request(start_time, speed).is_none() && state.started(status)
            == state,
{
}

/// A failed start or stop leaves the state as it was, and a successful stop
/// makes the next stop an error that changes nothing, however often it is tried.
pub proof fn lemma_stop_while_stopped(state: PlaybackState, stop_time: i64, status: i32)
    ensures
        status != STATUS_OK ==> state.started(status) == state && state.stopped(status) == state,
        !state.running ==> state.stop_request(stop_time) == Err::<DriverCall, OutputError>(
            OutputError::InvalidState,
        ),
        !state.stopped(STATUS_OK).running,
        state.stopped(STATUS_OK).stop_request(stop_time) == Err::<DriverCall, OutputError>(
            OutputError::InvalidState,
        ),
        !state.running ==> state.stopped(status) == state,
{
}

/// Scheduling adds to the end of the queue.
pub proof fn lemma_submitted_all(state: PlaybackState, entries: Seq<ScheduleEntry>)
    ensures
        state.submitted_all(entries) == (PlaybackState {
            queue: state.queue + entries,
            ..state
        }),
    decreases entries.len(),
{
    if entries.len() == 0 {
        assert(state.queue + entries == state.queue);
    } else {
        lemma_submitted_all(state, entries.drop_last());
        assert(state.queue + entries == (state.queue + entries.drop_last()).push(entries.last()));
    }
}

/// Completion takes from the front of the queue.
pub proof fn lemma_completed_times(state: PlaybackState, count: nat)
    requires
        count <= state.queue.len(),
    ensures
        state.completed_times(count) == (PlaybackState {
            queue: state.queue.skip(count as int),
            ..state
        }),
    decreases count,
{
    if count == 0 {
        assert(state.queue.skip(0) == state.queue);
    } else {
        lemma_completed_times(state, (count - 1) as nat);
        assert(state.queue.skip(count - 1).drop_first() == state.queue.skip(count as int));
    }
}

/// The number of buffered frames: after the driver took `entries` from an
/// output with an empty queue and reported on `count` of them, the queue
/// holds the others, in the order in which they were scheduled.
pub proof fn lemma_buffered_count(state: PlaybackState, entries: Seq<ScheduleEntry>, count: nat)
    requires
        state.queue.len() == 0,
        count <= entries.len(),
    ensures
        state.submitted_all(entries).queue.len() == entries.len(),
        state.submitted_all(entries).completed_times(count).queue == entries.skip(count as int),
        state.submitted_all(entries).completed_times(count).queue.len() == entries.len() - count,
{
    lemma_submitted_all(state, entries);
    assert(state.queue + entries == entries);
    lemma_completed_times(state.submitted_all(entries), count);
}

/// Where the release of a video output stands.
#[derive(Debug, Clone, Copy, PartialEq, Eq, Structural)]
pub enum TeardownStage {
    /// Playback is running and has to be stopped.
    StopPlayback,
    /// The output has to be disabled.
    DisableOutput,
    /// The driver has returned from disabling; the callback slot can go.
    FreeContext,
    /// The claim on the video capability can be cleared.
    ReleaseGate,
    /// Nothing is left to do.
    Finished,
}

/// What the caller does next in the release of a video output. Each step is
/// carried out, to its end, before the next one is asked for.
#[derive(Debug, Clone, Copy, PartialEq, Eq, Structural)]
pub enum TeardownStep {
    /// Stop scheduled playback; what the driver answers is of no account.
    StopPlayback { stop_time: i64, timescale: i64 },
    /// Disable the video output. The driver returns from this call only when
    /// no callback is running and none will start.
    DisableOutput,
    /// Free what the driver was given to reach the callback slot.
    FreeContext,
}

/// The release of a video output as a state.
pub struct TeardownState {
    pub stage: TeardownStage,
    pub timescale: i64,
    /// Whether the callback slot is still there.
    pub context: bool,
}

impl TeardownState {
    /// The state in which the release of an output begins.
    pub open spec fn begin(output: PlaybackState) -> TeardownState {
        TeardownState {
            stage: if output.running {
                TeardownStage::StopPlayback
            } else {
                TeardownStage::DisableOutput
            },
            timescale: output.timescale,
            context: output.scheduled,
        }
    }

    /// The stage that follows the disabling of the output.
    pub open spec fn after_disable(self) -> TeardownStage {
        if self.context {
            TeardownStage::FreeContext
        } else {
            TeardownStage::ReleaseGate
        }
    }

    /// One move of the release: the state after it and the step for the caller.
    pub open spec fn step(self) -> (TeardownState, Option<TeardownStep>) {
        match self.stage {
            TeardownStage::StopPlayback => (
                TeardownState { stage: TeardownStage::DisableOutput, ..self },
                Some(TeardownStep::StopPlayback { stop_time: 0, timescale: self.timescale }),
            ),
            TeardownStage::DisableOutput => (
                TeardownState { stage: self.after_disable(), ..self },
                Some(TeardownStep::DisableOutput),
            ),
            TeardownStage::FreeContext => (
                TeardownState { stage: TeardownStage::ReleaseGate, context: false, ..self },
                Some(TeardownStep::FreeContext),
            ),
            TeardownStage::ReleaseGate => (
                TeardownState { stage: TeardownStage::Finished, ..self },
                None,
            ),
            TeardownStage::Finished => (self, None),
        }
    }

    /// The state after `n` moves.
    pub open spec fn after(self, n: nat) -> TeardownState
        decreases n,
    {
        if n == 0 {
            self
        } else {
            self.after((n - 1) as nat).step().0
        }
    }

    /// The step that move `n` hands to the caller, counting from 0.
    pub open spec fn step_at(self, n: nat) -> Option<TeardownStep> {
        self.after(n).step().1
    }

    /// Whether move `n` clears the claim on the video capability.
    pub open spec fn releases_gate_at(self, n: nat) -> bool {
        self.after(n).stage == TeardownStage::ReleaseGate
    }
}

/// The release of a video output, step by step.
pub struct TeardownSequencer {
    stage: TeardownStage,
    timescale: i64,
    context: Option<CallbackWrapper>,
}

impl View for TeardownSequencer {
    type V = TeardownState;

    closed spec fn view(&self) -> TeardownState {
        TeardownState {
            stage: self.stage,
            timescale: self.timescale,
            context: self.context.is_some(),
        }
    }
}

impl DecklinkOutputDeviceVideoImpl {
    /// Gives the output up. What is left of it is the sequence of steps that
    /// shuts it down.
    pub fn release(self) -> (teardown: TeardownSequencer)
        ensures
            teardown@ == TeardownState::begin(self@),
            teardown.spec_handler() == self.spec_handler(),
    {
        TeardownSequencer {
            stage: if self.scheduled_running {
                TeardownStage::StopPlayback
            } else {
                TeardownStage::DisableOutput
            },
            timescale: self.scheduled_timescale,
            context: self.callback_wrapper,
        }
    }
}

impl TeardownSequencer {
    /// The handler that the driver's notices still reach.
    pub closed spec fn spec_handler(&self) -> Option<Arc<dyn DeckLinkVideoOutputCallback>> {
        match self.context {
            Some(wrapper) => wrapper.handler,
            None => None,
        }
    }

    /// The callback slot, for the notices that the driver sends until it has
    /// returned from disabling the output.
    pub fn callback_wrapper(&self) -> (w: Option<&CallbackWrapper>)
        ensures
            w.is_some() == self@.context,
            w matches Some(wrapper) ==> wrapper.handler == self.spec_handler(),
    {
        self.context.as_ref()
    }

    pub fn is_finished(&self) -> (b: bool)
        ensures
            b == (self@.stage == TeardownStage::Finished),
    {
        self.stage == TeardownStage::Finished
    }

    /// Makes one move. The caller has carried out the step of the move
    /// before; it now gets the next step, or none when no step is left. The
    /// callback slot is dropped in the move that hands out `FreeContext`, and
    /// the claim on the video capability is cleared in the move after the
    /// last step; no other move touches either.
    pub fn advance(&mut self, gate: &mut DecklinkOutputDevicePtr) -> (step: Option<TeardownStep>)
        ensures
            (final(self)@, step) == old(self)@.step(),
            old(self)@.stage != TeardownStage::FreeContext ==> final(self).spec_handler() == old(
                self,
            ).spec_handler(),
            old(self)@.stage == TeardownStage::FreeContext ==> final(self).spec_handler().is_none(),
            old(self)@.stage == TeardownStage::ReleaseGate ==> final(gate)@ == old(gate)@.with(
                Capability::Video,
                false,
            ),
            old(self)@.stage != TeardownStage::ReleaseGate ==> final(gate)@ == old(gate)@,
    {
        match self.stage {
            TeardownStage::StopPlayback => {
                self.stage = TeardownStage::DisableOutput;
                Some(TeardownStep::StopPlayback { stop_time: 0, timescale: self.timescale })
            },
            TeardownStage::DisableOutput => {
                self.stage = if self.context.is_some() {
                    TeardownStage::FreeContext
                } else {
                    TeardownStage::ReleaseGate
                };
                Some(TeardownStep::DisableOutput)
            },
            TeardownStage::FreeContext => {
                self.context = None;
                self.stage = TeardownStage::ReleaseGate;
                Some(TeardownStep::FreeContext)
            },
            TeardownStage::ReleaseGate => {
                gate.release(Capability::Video);
                self.stage = TeardownStage::Finished;
                None
            },
            TeardownStage::Finished => None,
        }
    }
}

/// The order of the release of an output: stop where playback is running,
/// then disable, then free where there is a callback slot, and only then the
/// claim is cleared. The slot is there until the move that hands out
/// `FreeContext`; that move comes after the one that hands out
/// `DisableOutput`, so after the driver has returned from disabling.
pub proof fn lemma_teardown_order(output: PlaybackState)
    ensures
        ({
            let start = TeardownState::begin(output);
            let skip: nat = if output.running {
                1
            } else {
                0
            };
            let free: nat = if output.scheduled {
                1
            } else {
                0
            };
            &&& output.running ==> start.step_at(0) == Some(
                TeardownStep::StopPlayback { stop_time: 0, timescale: output.timescale },
            )
            &&& start.step_at(skip) == Some(TeardownStep::DisableOutput)
            &&& start.after(skip).context == output.scheduled
            &&& start.after(skip + 1).context == output.scheduled
            &&& output.scheduled ==> start.step_at(skip + 1) == Some(TeardownStep::FreeContext)
            &&& !start.after(skip + 1 + free).context
            &&& start.releases_gate_at(skip + 1 + free)
            &&& forall|n: nat| n < skip + 1 + free ==> !start.releases_gate_at(n)
            &&& start.step_at(skip + 1 + free).is_none()
            &&& start.after(skip + 2 + free).stage == TeardownStage::Finished
        }),
{
    let start = TeardownState::begin(output);
    reveal_with_fuel(TeardownState::after, 5);
}

/// The slot is never freed before the output is disabled: whatever the state
/// in which a release begins, a move hands out `FreeContext` only if an
/// earlier move handed out `DisableOutput`.
pub proof fn lemma_free_follows_disable(output: PlaybackState, n: nat)
    requires
        TeardownState::begin(output).step_at(n) == Some(TeardownStep::FreeContext),
    ensures
        exists|m: nat| m < n && TeardownState::begin(output).step_at(m) == Some(
            TeardownStep::DisableOutput,
        ),
{
    let start = TeardownState::begin(output);
    reveal_with_fuel(TeardownState::after, 5);
    lemma_teardown_settles(start, n);
    if output.running {
        assert(start.step_at(1) == Some(TeardownStep::DisableOutput));
        assert(n == 2);
    } else {
        assert(start.step_at(0) == Some(TeardownStep::DisableOutput));
        assert(n == 1);
    }
}

/// From the fourth move on, a release that began with an output is finished.
pub proof fn lemma_teardown_settles(start: TeardownState, n: nat)
    requires
        start.stage == TeardownStage::StopPlayback || start.stage == TeardownStage::DisableOutput,
    ensures
        n >= 4 ==> start.after(n).stage == TeardownStage::Finished,
        n == 3 ==> start.after(n).stage == TeardownStage::Finished || start.after(n).stage
            == TeardownStage::ReleaseGate,
    decreases n,
{
    reveal_with_fuel(TeardownState::after, 5);
    if n > 4 {
        lemma_teardown_settles(start, (n - 1) as nat);
    }
}

} // verus!
