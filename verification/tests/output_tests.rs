use decklink::device::output::video::{created_frame_status, frame_payload, geometry_of};
use decklink::device::output::video_callback::acknowledge;
use decklink::device::output::{
    wrap_device_output, CallbackWrapper, Capability, DeckLinkVideoOutputCallback,
    DecklinkAudioOutputStreamType, DecklinkAudioSampleRate, DecklinkAudioSampleType,
    DecklinkOutputDevice, DecklinkOutputDevicePtr, DecklinkOutputDeviceVideoImpl,
    DecklinkOutputDeviceVideoScheduled, DecklinkOutputDeviceVideoSync,
    DecklinkOutputFrameCompletionResult, DecklinkVideoOutputFlags, DriverCall, EnableOutcome,
    FrameGeometry, PendingVideoOutput, ScheduleEntry, TeardownStep,
};
use decklink::display_mode::DecklinkDisplayModeId;
use decklink::frame::{
    DecklinkFrameFlags, DecklinkPixelFormat, DecklinkVideoFrame, DecklinkVideoMutableFrame,
};
use decklink::util::OutputError;
use std::sync::{Arc, Mutex};

/// A stand-in for the driver: it records every call, keeps the frames that
/// were scheduled, and answers with the status it was told to give.
struct MockDriver {
    calls: Vec<String>,
    scheduled: Vec<ScheduleEntry>,
    running: bool,
    enabled: bool,
    next_status: i32,
    position: i64,
}

impl MockDriver {
    fn new() -> Self {
        MockDriver {
            calls: Vec::new(),
            scheduled: Vec::new(),
            running: false,
            enabled: false,
            next_status: 0,
            position: 0,
        }
    }

    fn perform(&mut self, call: &DriverCall) -> i32 {
        let status = self.next_status;
        match call {
            DriverCall::SetScheduledFrameCompletionCallback => {
                self.calls.push("set_callback".to_string());
            }
            DriverCall::ClearScheduledFrameCompletionCallback => {
                self.calls.push("clear_callback".to_string());
            }
            DriverCall::GetBufferedVideoFrameCount => {
                self.calls.push("buffered_count".to_string());
            }
            DriverCall::EnableVideoOutput { mode, flags } => {
                self.calls.push(format!("enable_video {:#x} {:#x}", mode, flags));
                if status == 0 {
                    self.enabled = true;
                }
            }
            DriverCall::EnableAudioOutput { sample_rate, sample_type, channels, stream_type } => {
                self.calls.push(format!(
                    "enable_audio {} {} {} {}",
                    sample_rate, sample_type, channels, stream_type
                ));
            }
            DriverCall::ScheduleVideoFrame { display_time, duration, timescale, bytes, .. } => {
                self.calls.push(format!(
                    "schedule {} {} {} {}",
                    display_time,
                    duration,
                    timescale,
                    bytes.len()
                ));
                if status == 0 {
                    self.scheduled
                        .push(ScheduleEntry { display_time: *display_time, duration: *duration });
                }
            }
            DriverCall::DisplayVideoFrameSync { bytes, .. } => {
                self.calls.push(format!("display {}", bytes.len()));
            }
            DriverCall::DisplayCustomFrameSync { buffer, .. } => {
                self.calls.push(format!("display_custom {}", buffer.len()));
            }
            DriverCall::StartScheduledPlayback { start_time, timescale, speed } => {
                self.calls.push(format!(
                    "start {} {} {}",
                    start_time,
                    timescale,
                    f64::from_bits(*speed)
                ));
                if status == 0 {
                    self.running = true;
                }
            }
            DriverCall::StopScheduledPlayback { stop_time, timescale } => {
                self.calls.push(format!("stop {} {}", stop_time, timescale));
                if status == 0 {
                    self.running = false;
                    self.position = *stop_time;
                }
            }
            DriverCall::DisableVideoOutput => {
                self.calls.push("disable_video".to_string());
                self.enabled = false;
            }
            DriverCall::DisableAudioOutput => {
                self.calls.push("disable_audio".to_string());
            }
        }
        status
    }
}

/// A handler that writes down what it is told.
struct Recorder {
    events: Mutex<Vec<String>>,
    answer: bool,
}

impl Recorder {
    fn new(answer: bool) -> Arc<Recorder> {
        Arc::new(Recorder { events: Mutex::new(Vec::new()), answer })
    }

    fn events(&self) -> Vec<String> {
        self.events.lock().unwrap().clone()
    }
}

impl DeckLinkVideoOutputCallback for Recorder {
    fn schedule_frame_completed_callback(
        &self,
        frame: Option<DecklinkVideoFrame>,
        result: DecklinkOutputFrameCompletionResult,
    ) -> bool {
        self.events.lock().unwrap().push(format!("completed {:?} {}", result, frame.is_some()));
        self.answer
    }

    fn playback_stopped(&self) -> bool {
        self.events.lock().unwrap().push("stopped".to_string());
        self.answer
    }
}

fn filled_frame() -> DecklinkVideoMutableFrame {
    let mut frame = DecklinkVideoMutableFrame::create(
        4,
        2,
        16,
        DecklinkPixelFormat::Format8BitBGRA,
        DecklinkFrameFlags::empty(),
    );
    frame.copy_bytes(&[7u8; 32]).unwrap();
    frame
}

fn enable_scheduled(
    device: &mut DecklinkOutputDevice,
    driver: &mut MockDriver,
    timescale: i64,
) -> DecklinkOutputDeviceVideoImpl {
    let mut pending: PendingVideoOutput = device
        .enable_video_output_scheduled(
            DecklinkDisplayModeId::HD1080p25,
            DecklinkVideoOutputFlags::empty(),
            timescale,
        )
        .unwrap_or_else(|e| panic!("claim refused: {:?}", e));
    loop {
        let status = driver.perform(&pending.request());
        match pending.complete(status, device) {
            EnableOutcome::Continue(next) => pending = next,
            EnableOutcome::Ready(output) => return output,
            EnableOutcome::Failed(e) | EnableOutcome::Stranded(e) => {
                panic!("driver refused: {:?}", e)
            }
        }
    }
}

fn schedule(
    output: &mut DecklinkOutputDeviceVideoImpl,
    driver: &mut MockDriver,
    display_time: i64,
    duration: i64,
) -> Result<(), OutputError> {
    let call = output.schedule_frame_copy(&filled_frame(), display_time, duration)?;
    let status = driver.perform(&call);
    output.frame_scheduled(ScheduleEntry { display_time, duration }, status)
}

/// The driver reports on its oldest scheduled frame.
fn complete_one(
    output: &mut DecklinkOutputDeviceVideoImpl,
    driver: &mut MockDriver,
    code: u32,
) -> (Option<ScheduleEntry>, i32) {
    let reported = driver.scheduled.remove(0);
    let entry = output.frame_completed();
    assert_eq!(entry, Some(reported));
    let status = output.callback_wrapper().unwrap().schedule_frame_completed_callback(None, code);
    (entry, status)
}

#[test]
fn acquire_succeeds_once_until_released() {
    let mut gate = DecklinkOutputDevicePtr::new();
    assert!(!gate.is_active(Capability::Video));
    assert!(gate.acquire(Capability::Video));
    assert!(gate.is_active(Capability::Video));
    for _ in 0..5 {
        assert!(!gate.acquire(Capability::Video));
    }
    gate.release(Capability::Video);
    assert!(!gate.is_active(Capability::Video));
    assert!(gate.acquire(Capability::Video));
    assert!(!gate.acquire(Capability::Video));
}

#[test]
fn release_is_idempotent() {
    let mut gate = DecklinkOutputDevicePtr::new();
    gate.release(Capability::Audio);
    gate.release(Capability::Audio);
    assert!(!gate.is_active(Capability::Audio));
    assert!(gate.acquire(Capability::Audio));
    gate.release(Capability::Audio);
    gate.release(Capability::Audio);
    assert!(gate.acquire(Capability::Audio));
}

#[test]
fn the_two_capabilities_are_claimed_apart() {
    let mut gate = DecklinkOutputDevicePtr::new();
    assert!(gate.acquire(Capability::Video));
    assert!(gate.acquire(Capability::Audio));
    gate.release(Capability::Video);
    assert!(gate.is_active(Capability::Audio));
    assert!(!gate.is_active(Capability::Video));
}

#[test]
fn claim_refuses_with_access_denied() {
    let mut gate = DecklinkOutputDevicePtr::new();
    assert_eq!(gate.claim(Capability::Video), Ok(()));
    assert_eq!(gate.claim(Capability::Video), Err(OutputError::AccessDenied));
    assert_eq!(gate.claim(Capability::Audio), Ok(()));
    gate.release(Capability::Video);
    assert_eq!(gate.claim(Capability::Video), Ok(()));
}

#[test]
fn second_enable_is_denied_before_the_driver_is_reached() {
    let mut device = wrap_device_output();
    let mut driver = MockDriver::new();
    let _output = enable_scheduled(&mut device, &mut driver, 1000);
    let calls = driver.calls.len();
    assert!(matches!(
        device.enable_video_output_scheduled(
            DecklinkDisplayModeId::PAL,
            DecklinkVideoOutputFlags::empty(),
            1000
        ),
        Err(OutputError::AccessDenied)
    ));
    assert!(matches!(
        device.enable_video_output_sync(DecklinkDisplayModeId::PAL, DecklinkVideoOutputFlags::empty()),
        Err(OutputError::AccessDenied)
    ));
    assert_eq!(driver.calls.len(), calls);
    assert!(device.is_active(Capability::Video));
}

#[test]
fn enabling_for_scheduled_playback_makes_two_calls_in_order() {
    let mut device = wrap_device_output();
    let mut driver = MockDriver::new();
    let flags = DecklinkVideoOutputFlags::from_bits_truncate(DecklinkVideoOutputFlags::VANC);
    let pending = device
        .enable_video_output_scheduled(DecklinkDisplayModeId::HD1080i50, flags, 25000)
        .unwrap_or_else(|e| panic!("{:?}", e));
    assert!(matches!(pending.request(), DriverCall::SetScheduledFrameCompletionCallback));
    let status = driver.perform(&pending.request());
    let pending = match pending.complete(status, &mut device) {
        EnableOutcome::Continue(next) => next,
        _ => panic!("one more call was due"),
    };
    match pending.request() {
        DriverCall::EnableVideoOutput { mode, flags } => {
            assert_eq!(mode, 0x48693530);
            assert_eq!(flags, 1);
        }
        _ => panic!("the enabling call was due"),
    }
    let status = driver.perform(&pending.request());
    let output = match pending.complete(status, &mut device) {
        EnableOutcome::Ready(output) => output,
        _ => panic!("the output was due"),
    };
    assert!(output.is_scheduled());
    assert!(!output.is_scheduled_playback_running());
    assert_eq!(output.timescale(), 25000);
    assert_eq!(output.buffered_video_frame_count(), 0);
    assert!(output.callback_wrapper().unwrap().handler.is_none());
    assert_eq!(driver.calls, vec!["set_callback", "enable_video 0x48693530 0x1"]);
}

#[test]
fn a_refusal_to_register_the_slot_clears_the_claim() {
    let mut device = wrap_device_output();
    let mut driver = MockDriver::new();
    let pending = device
        .enable_video_output_scheduled(
            DecklinkDisplayModeId::PAL,
            DecklinkVideoOutputFlags::empty(),
            1000,
        )
        .unwrap_or_else(|e| panic!("{:?}", e));
    assert!(device.is_active(Capability::Video));
    driver.next_status = -8;
    let status = driver.perform(&pending.request());
    match pending.complete(status, &mut device) {
        EnableOutcome::Failed(e) => assert_eq!(e, OutputError::DriverFailure(-8)),
        _ => panic!("the driver had refused"),
    }
    assert!(!device.is_active(Capability::Video));
    assert_eq!(driver.calls, vec!["set_callback"]);
}

#[test]
fn a_refusal_to_enable_withdraws_the_slot_before_the_claim_is_cleared() {
    let mut device = wrap_device_output();
    let mut driver = MockDriver::new();
    let pending = device
        .enable_video_output_scheduled(
            DecklinkDisplayModeId::PAL,
            DecklinkVideoOutputFlags::empty(),
            1000,
        )
        .unwrap_or_else(|e| panic!("{:?}", e));
    let status = driver.perform(&pending.request());
    let pending = match pending.complete(status, &mut device) {
        EnableOutcome::Continue(next) => next,
        _ => panic!("one more call was due"),
    };
    driver.next_status = -3;
    let status = driver.perform(&pending.request());
    let pending = match pending.complete(status, &mut device) {
        EnableOutcome::Continue(next) => next,
        _ => panic!("the slot had to be withdrawn"),
    };
    assert!(device.is_active(Capability::Video));
    assert!(matches!(pending.request(), DriverCall::ClearScheduledFrameCompletionCallback));
    driver.next_status = 0;
    let status = driver.perform(&pending.request());
    match pending.complete(status, &mut device) {
        EnableOutcome::Failed(e) => assert_eq!(e, OutputError::DriverFailure(-3)),
        _ => panic!("the driver had refused"),
    }
    assert!(!device.is_active(Capability::Video));
    assert_eq!(driver.calls, vec!["set_callback", "enable_video 0x70616c20 0x0", "clear_callback"]);
}

#[test]
fn a_refused_withdrawal_leaves_the_slot_with_the_driver() {
    let mut device = wrap_device_output();
    let pending = device
        .enable_video_output_scheduled(
            DecklinkDisplayModeId::PAL,
            DecklinkVideoOutputFlags::empty(),
            1000,
        )
        .unwrap_or_else(|e| panic!("{:?}", e));
    let pending = match pending.complete(0, &mut device) {
        EnableOutcome::Continue(next) => next,
        _ => panic!("one more call was due"),
    };
    let pending = match pending.complete(-3, &mut device) {
        EnableOutcome::Continue(next) => next,
        _ => panic!("the slot had to be withdrawn"),
    };
    match pending.complete(-6, &mut device) {
        EnableOutcome::Stranded(e) => assert_eq!(e, OutputError::DriverFailure(-3)),
        _ => panic!("the driver had kept the slot"),
    }
    assert!(!device.is_active(Capability::Video));
}

#[test]
fn a_refusal_to_enable_a_sync_output_ends_at_once() {
    let mut device = wrap_device_output();
    let pending = device
        .enable_video_output_sync(DecklinkDisplayModeId::PAL, DecklinkVideoOutputFlags::empty())
        .unwrap_or_else(|e| panic!("{:?}", e));
    match pending.complete(-8, &mut device) {
        EnableOutcome::Failed(e) => assert_eq!(e, OutputError::DriverFailure(-8)),
        _ => panic!("the driver had refused"),
    }
    assert!(!device.is_active(Capability::Video));
}

#[test]
fn the_driver_count_is_asked_and_read() {
    let mut device = wrap_device_output();
    let mut driver = MockDriver::new();
    let output = enable_scheduled(&mut device, &mut driver, 1000);
    let call = output.buffered_video_frame_count_request();
    assert!(matches!(call, DriverCall::GetBufferedVideoFrameCount));
    let status = driver.perform(&call);
    assert_eq!(output.buffered_video_frame_count_reported(status, 3), Ok(3));
    assert_eq!(
        output.buffered_video_frame_count_reported(-8, 3),
        Err(OutputError::DriverFailure(-8))
    );
    assert_eq!(driver.calls.last().unwrap(), "buffered_count");
}

#[test]
fn enabling_for_sync_output_makes_one_call_and_has_no_callback_slot() {
    let mut device = wrap_device_output();
    let mut driver = MockDriver::new();
    let pending = device
        .enable_video_output_sync(DecklinkDisplayModeId::NTSC, DecklinkVideoOutputFlags::empty())
        .unwrap_or_else(|e| panic!("{:?}", e));
    let status = driver.perform(&pending.request());
    let mut output = match pending.complete(status, &mut device) {
        EnableOutcome::Ready(output) => output,
        _ => panic!("the output was due"),
    };
    assert_eq!(driver.calls, vec!["enable_video 0x6e747363 0x0"]);
    assert!(!output.is_scheduled());
    assert_eq!(output.timescale(), 1000);
    assert!(output.callback_wrapper().is_none());
    assert_eq!(output.set_callback(None), Err(OutputError::InvalidState));
    assert!(matches!(
        output.schedule_frame_copy(&filled_frame(), 0, 1000),
        Err(OutputError::InvalidState)
    ));
}

#[test]
fn audio_is_claimed_and_released_apart_from_video() {
    let mut device = wrap_device_output();
    let mut driver = MockDriver::new();
    let pending = device
        .enable_audio_output(
            DecklinkAudioSampleRate::Rate48kHz,
            DecklinkAudioSampleType::Int16,
            2,
            DecklinkAudioOutputStreamType::Continuous,
        )
        .unwrap_or_else(|e| panic!("{:?}", e));
    assert!(matches!(
        device.enable_audio_output(
            DecklinkAudioSampleRate::Rate48kHz,
            DecklinkAudioSampleType::Int32,
            8,
            DecklinkAudioOutputStreamType::ContinuousDontResample,
        ),
        Err(OutputError::AccessDenied)
    ));
    let status = driver.perform(&pending.request());
    let audio = pending.complete(status, &mut device).unwrap_or_else(|e| panic!("{:?}", e));
    assert_eq!(driver.calls, vec!["enable_audio 48000 16 2 0"]);
    assert_eq!(audio.channels(), 2);
    assert!(device.is_active(Capability::Audio));
    assert!(!device.is_active(Capability::Video));
    let status = driver.perform(&audio.disable_request());
    assert_eq!(status, 0);
    device.release_audio(audio);
    assert!(!device.is_active(Capability::Audio));
    assert_eq!(driver.calls.last().unwrap(), "disable_audio");
}

#[test]
fn a_refused_audio_output_clears_the_claim() {
    let mut device = wrap_device_output();
    let pending = device
        .enable_audio_output(
            DecklinkAudioSampleRate::Rate48kHz,
            DecklinkAudioSampleType::Int32,
            16,
            DecklinkAudioOutputStreamType::Continuous,
        )
        .unwrap_or_else(|e| panic!("{:?}", e));
    assert!(matches!(pending.complete(-3, &mut device), Err(OutputError::DriverFailure(-3))));
    assert!(!device.is_active(Capability::Audio));
}

#[test]
fn start_playback_twice_is_start_playback_once() {
    let mut device = wrap_device_output();
    let mut driver = MockDriver::new();
    let mut output = enable_scheduled(&mut device, &mut driver, 1000);
    let before = driver.calls.len();

    let call = output.start_playback(0, 1.0f64.to_bits()).unwrap();
    let status = driver.perform(&call);
    assert_eq!(output.playback_started(status), Ok(()));
    assert!(output.is_scheduled_playback_running());
    assert_eq!(driver.calls.len(), before + 1);
    assert_eq!(driver.calls.last().unwrap(), "start 0 1000 1");

    assert!(output.start_playback(500, 2.0f64.to_bits()).is_none());
    assert!(output.is_scheduled_playback_running());
    assert_eq!(output.timescale(), 1000);
    assert_eq!(output.buffered_video_frame_count(), 0);
    assert_eq!(driver.calls.len(), before + 1);
}

#[test]
fn stop_playback_while_stopped_is_invalid_state_every_time() {
    let mut device = wrap_device_output();
    let mut driver = MockDriver::new();
    let mut output = enable_scheduled(&mut device, &mut driver, 1000);
    let before = driver.calls.len();
    assert!(matches!(output.stop_playback(0), Err(OutputError::InvalidState)));
    assert!(matches!(output.stop_playback(10), Err(OutputError::InvalidState)));
    assert_eq!(driver.calls.len(), before);

    let call = output.start_playback(0, 1.0f64.to_bits()).unwrap();
    let status = driver.perform(&call);
    output.playback_started(status).unwrap();
    let call = output.stop_playback(3000).unwrap_or_else(|e| panic!("{:?}", e));
    let status = driver.perform(&call);
    assert_eq!(output.playback_stopped(status, driver.position), Ok(3000));
    assert!(!output.is_scheduled_playback_running());
    assert!(matches!(output.stop_playback(0), Err(OutputError::InvalidState)));
    assert!(matches!(output.stop_playback(0), Err(OutputError::InvalidState)));
}

#[test]
fn a_failed_start_leaves_playback_stopped() {
    let mut device = wrap_device_output();
    let mut driver = MockDriver::new();
    let mut output = enable_scheduled(&mut device, &mut driver, 1000);
    driver.next_status = -8;
    let call = output.start_playback(0, 1.0f64.to_bits()).unwrap();
    let status = driver.perform(&call);
    assert_eq!(output.playback_started(status), Err(OutputError::DriverFailure(-8)));
    assert!(!output.is_scheduled_playback_running());
    assert!(output.start_playback(0, 1.0f64.to_bits()).is_some());
}

#[test]
fn a_failed_stop_leaves_playback_running() {
    let mut device = wrap_device_output();
    let mut driver = MockDriver::new();
    let mut output = enable_scheduled(&mut device, &mut driver, 1000);
    let call = output.start_playback(0, 1.0f64.to_bits()).unwrap();
    let status = driver.perform(&call);
    output.playback_started(status).unwrap();
    driver.next_status = -6;
    let call = output.stop_playback(100).unwrap_or_else(|e| panic!("{:?}", e));
    let status = driver.perform(&call);
    assert_eq!(output.playback_stopped(status, 0), Err(OutputError::DriverFailure(-6)));
    assert!(output.is_scheduled_playback_running());
}

#[test]
fn the_stop_call_carries_the_time_and_the_timescale() {
    let mut device = wrap_device_output();
    let mut driver = MockDriver::new();
    let mut output = enable_scheduled(&mut device, &mut driver, 60000);
    output.playback_started(0).unwrap();
    match output.stop_playback(1234) {
        Ok(DriverCall::StopScheduledPlayback { stop_time, timescale }) => {
            assert_eq!(stop_time, 1234);
            assert_eq!(timescale, 60000);
        }
        _ => panic!("the stop call was due"),
    }
}

#[test]
fn three_frames_complete_in_the_order_of_submission() {
    let mut device = wrap_device_output();
    let mut driver = MockDriver::new();
    let mut output = enable_scheduled(&mut device, &mut driver, 1000);
    let recorder = Recorder::new(true);
    assert_eq!(output.set_callback(Some(recorder.clone())), Ok(()));

    for display_time in [0i64, 1000, 2000] {
        assert_eq!(schedule(&mut output, &mut driver, display_time, 1000), Ok(()));
    }
    assert_eq!(output.buffered_video_frame_count(), 3);

    let call = output.start_playback(0, 1.0f64.to_bits()).unwrap();
    let status = driver.perform(&call);
    assert_eq!(output.playback_started(status), Ok(()));

    let mut order = Vec::new();
    for _ in 0..3 {
        let (entry, status) = complete_one(&mut output, &mut driver, 0);
        assert_eq!(status, 0);
        order.push(entry.unwrap().display_time);
    }
    assert_eq!(order, vec![0, 1000, 2000]);
    assert_eq!(output.buffered_video_frame_count(), 0);

    let call = output.stop_playback(3000).unwrap_or_else(|e| panic!("{:?}", e));
    let status = driver.perform(&call);
    assert_eq!(output.playback_stopped(status, 3000), Ok(3000));
    assert_eq!(output.callback_wrapper().unwrap().playback_stopped(), 0);

    assert_eq!(
        recorder.events(),
        vec![
            "completed Completed false",
            "completed Completed false",
            "completed Completed false",
            "stopped"
        ]
    );
    assert_eq!(
        &driver.calls[2..],
        &[
            "schedule 0 1000 1000 32",
            "schedule 1000 1000 1000 32",
            "schedule 2000 1000 1000 32",
            "start 0 1000 1",
            "stop 3000 1000"
        ]
    );
}

#[test]
fn a_frame_without_bytes_never_reaches_the_driver() {
    let mut device = wrap_device_output();
    let mut driver = MockDriver::new();
    let mut output = enable_scheduled(&mut device, &mut driver, 1000);
    driver.calls.clear();
    let empty = DecklinkVideoMutableFrame::create(
        4,
        2,
        16,
        DecklinkPixelFormat::Format8BitBGRA,
        DecklinkFrameFlags::empty(),
    );
    let result = match output.schedule_frame_copy(&empty, 0, 1000) {
        Ok(call) => {
            let status = driver.perform(&call);
            output.frame_scheduled(ScheduleEntry { display_time: 0, duration: 1000 }, status)
        }
        Err(e) => Err(e),
    };
    assert_eq!(result, Err(OutputError::Unavailable));
    assert_eq!(driver.calls.len(), 0);
    assert_eq!(output.buffered_video_frame_count(), 0);
    assert!(matches!(output.display_frame_copy(&empty), Err(OutputError::Unavailable)));
}

#[test]
fn buffered_count_is_scheduled_minus_completed() {
    let mut device = wrap_device_output();
    let mut driver = MockDriver::new();
    let mut output = enable_scheduled(&mut device, &mut driver, 1000);
    let n = 7usize;
    for i in 0..n {
        assert_eq!(schedule(&mut output, &mut driver, 1000 * i as i64, 1000), Ok(()));
        assert_eq!(output.buffered_video_frame_count(), i + 1);
    }
    assert_eq!(output.buffered_video_frame_count(), n);
    for k in 1..=n {
        complete_one(&mut output, &mut driver, 0);
        assert_eq!(output.buffered_video_frame_count(), n - k);
    }
    assert_eq!(output.frame_completed(), None);
    assert_eq!(output.buffered_video_frame_count(), 0);
}

#[test]
fn a_refused_frame_is_not_buffered() {
    let mut device = wrap_device_output();
    let mut driver = MockDriver::new();
    let mut output = enable_scheduled(&mut device, &mut driver, 1000);
    assert_eq!(schedule(&mut output, &mut driver, 0, 1000), Ok(()));
    driver.next_status = -2;
    assert_eq!(schedule(&mut output, &mut driver, 1000, 1000), Err(OutputError::DriverFailure(-2)));
    assert_eq!(output.buffered_video_frame_count(), 1);
}

#[test]
fn the_schedule_call_carries_the_frame() {
    let mut device = wrap_device_output();
    let mut driver = MockDriver::new();
    let output = enable_scheduled(&mut device, &mut driver, 50);
    let mut frame = DecklinkVideoMutableFrame::create(
        3,
        2,
        4,
        DecklinkPixelFormat::Format8BitARGB,
        DecklinkFrameFlags::from_bits_truncate(DecklinkFrameFlags::FLIP_VERTICAL),
    );
    let data: Vec<u8> = (10u8..18).collect();
    frame.copy_bytes(&data).unwrap();
    match output.schedule_frame_copy(&frame, -5, 2) {
        Ok(DriverCall::ScheduleVideoFrame { geometry, bytes, display_time, duration, timescale }) => {
            assert_eq!(
                geometry,
                FrameGeometry { width: 3, height: 2, row_bytes: 4, pixel_format: 32, flags: 1 }
            );
            assert_eq!(bytes, data);
            assert_eq!(display_time, -5);
            assert_eq!(duration, 2);
            assert_eq!(timescale, 50);
        }
        _ => panic!("the schedule call was due"),
    }
}

#[test]
fn a_frame_too_large_for_the_driver_is_an_invalid_argument() {
    let frame = DecklinkVideoFrame::new(0x8000_0000, 0, 0, 32, 0, 0, Vec::new())
        .unwrap_or_else(|e| panic!("{:?}", e));
    assert!(geometry_of(&frame, 0x7FFF_FFFF).is_none());
    assert!(geometry_of(&frame, i64::MAX as u64).is_some());
    assert!(matches!(frame_payload(&frame), Err(OutputError::InvalidArgument)));
    let fits = DecklinkVideoFrame::new(0x7FFF_FFFF, 0, 0, 32, 0, 0, Vec::new())
        .unwrap_or_else(|e| panic!("{:?}", e));
    assert_eq!(
        geometry_of(&fits, 0x7FFF_FFFF),
        Some(FrameGeometry { width: 0x7FFF_FFFF, height: 0, row_bytes: 0, pixel_format: 32, flags: 0 })
    );
}

#[test]
fn a_custom_frame_must_hold_a_multiple_of_64_bytes() {
    let mut device = wrap_device_output();
    let mut driver = MockDriver::new();
    let output = enable_scheduled(&mut device, &mut driver, 1000);

    let mut odd = DecklinkVideoMutableFrame::create(
        4,
        2,
        16,
        DecklinkPixelFormat::Format8BitBGRA,
        DecklinkFrameFlags::empty(),
    );
    odd.copy_bytes(&[1u8; 32]).unwrap();
    assert!(matches!(output.display_custom_frame(odd), Err(OutputError::InvalidArgument)));

    let mut even = DecklinkVideoMutableFrame::create(
        8,
        4,
        32,
        DecklinkPixelFormat::Format8BitBGRA,
        DecklinkFrameFlags::empty(),
    );
    let data: Vec<u8> = (0u8..128).collect();
    even.copy_bytes(&data).unwrap();
    match output.display_custom_frame(even) {
        Ok(DriverCall::DisplayCustomFrameSync { geometry, buffer }) => {
            assert_eq!(geometry.row_bytes, 32);
            assert_eq!(geometry.height, 4);
            assert_eq!(buffer.as_slice(), &data[..]);
        }
        _ => panic!("the display call was due"),
    }

    let empty = DecklinkVideoMutableFrame::create(
        8,
        4,
        32,
        DecklinkPixelFormat::Format8BitBGRA,
        DecklinkFrameFlags::empty(),
    );
    assert!(matches!(output.display_custom_frame(empty), Err(OutputError::Unavailable)));
}

#[test]
fn display_frame_copy_carries_a_copy_of_the_bytes() {
    let mut device = wrap_device_output();
    let mut driver = MockDriver::new();
    let output = enable_scheduled(&mut device, &mut driver, 1000);
    match output.display_frame_copy(&filled_frame()) {
        Ok(DriverCall::DisplayVideoFrameSync { geometry, bytes }) => {
            assert_eq!(geometry.width, 4);
            assert_eq!(geometry.pixel_format, 0x42475241);
            assert_eq!(bytes, vec![7u8; 32]);
        }
        _ => panic!("the display call was due"),
    }
}

#[test]
fn created_frame_status_turns_a_missing_frame_into_a_failure() {
    assert_eq!(created_frame_status(0, false), 0);
    assert_eq!(created_frame_status(0, true), -8);
    assert_eq!(created_frame_status(-2, false), -2);
    assert_eq!(created_frame_status(-2, true), -2);
}

#[test]
fn without_a_handler_every_notice_is_accepted() {
    let wrapper = CallbackWrapper::new();
    assert!(wrapper.handler.is_none());
    assert_eq!(wrapper.schedule_frame_completed_callback(None, 2), 0);
    assert_eq!(wrapper.playback_stopped(), 0);
}

#[test]
fn the_handler_answer_becomes_the_status() {
    let mut wrapper = CallbackWrapper::new();
    let yes = Recorder::new(true);
    let no = Recorder::new(false);
    wrapper.set(Some(yes.clone()));
    assert_eq!(wrapper.schedule_frame_completed_callback(None, 0), 0);
    assert_eq!(wrapper.playback_stopped(), 0);
    wrapper.set(Some(no.clone()));
    assert_eq!(wrapper.schedule_frame_completed_callback(None, 1), 1);
    assert_eq!(wrapper.playback_stopped(), 1);
    wrapper.set(None);
    assert_eq!(wrapper.schedule_frame_completed_callback(None, 3), 0);
    assert_eq!(yes.events(), vec!["completed Completed false", "stopped"]);
    assert_eq!(no.events(), vec!["completed DisplayedLate false", "stopped"]);
    assert_eq!(acknowledge(true), 0);
    assert_eq!(acknowledge(false), 1);
}

#[test]
fn completion_notice_names_the_handler_and_the_outcome() {
    let mut wrapper = CallbackWrapper::new();
    assert!(wrapper.completion_notice(2).is_none());
    let recorder = Recorder::new(true);
    wrapper.set(Some(recorder.clone()));
    match wrapper.completion_notice(2) {
        Some((handler, outcome)) => {
            assert_eq!(outcome, DecklinkOutputFrameCompletionResult::Dropped);
            assert!(handler.playback_stopped());
        }
        None => panic!("a handler was installed"),
    }
    match wrapper.completion_notice(40) {
        Some((_, outcome)) => assert_eq!(outcome, DecklinkOutputFrameCompletionResult::Unknown(40)),
        None => panic!("a handler was installed"),
    }
    assert_eq!(recorder.events(), vec!["stopped"]);
}

#[test]
fn the_handler_gets_the_frame_and_the_decoded_result() {
    let mut wrapper = CallbackWrapper::new();
    let recorder = Recorder::new(true);
    wrapper.set(Some(recorder.clone()));
    let frame = DecklinkVideoFrame::new(1, 1, 4, 32, 0, 0, vec![0; 4])
        .unwrap_or_else(|e| panic!("{:?}", e));
    wrapper.schedule_frame_completed_callback(Some(frame), 2);
    wrapper.schedule_frame_completed_callback(None, 3);
    wrapper.schedule_frame_completed_callback(None, 9);
    assert_eq!(
        recorder.events(),
        vec!["completed Dropped true", "completed Flushed false", "completed Unknown(9) false"]
    );
}

#[test]
fn completion_results_decode_with_an_explicit_unknown() {
    assert_eq!(
        DecklinkOutputFrameCompletionResult::from_u32(0),
        DecklinkOutputFrameCompletionResult::Completed
    );
    assert_eq!(
        DecklinkOutputFrameCompletionResult::from_u32(1),
        DecklinkOutputFrameCompletionResult::DisplayedLate
    );
    assert_eq!(
        DecklinkOutputFrameCompletionResult::from_u32(2),
        DecklinkOutputFrameCompletionResult::Dropped
    );
    assert_eq!(
        DecklinkOutputFrameCompletionResult::from_u32(3),
        DecklinkOutputFrameCompletionResult::Flushed
    );
    assert_eq!(
        DecklinkOutputFrameCompletionResult::from_u32(4),
        DecklinkOutputFrameCompletionResult::Unknown(4)
    );
    assert_eq!(
        DecklinkOutputFrameCompletionResult::from_u32(u32::MAX),
        DecklinkOutputFrameCompletionResult::Unknown(u32::MAX)
    );
    for code in [0u32, 1, 2, 3, 4, 77] {
        assert_eq!(DecklinkOutputFrameCompletionResult::from_u32(code).code(), code);
    }
}

#[test]
fn set_callback_swaps_the_handler_without_touching_playback() {
    let mut device = wrap_device_output();
    let mut driver = MockDriver::new();
    let mut output = enable_scheduled(&mut device, &mut driver, 1000);
    schedule(&mut output, &mut driver, 0, 1000).unwrap();
    output.playback_started(0).unwrap();
    let first = Recorder::new(true);
    let second = Recorder::new(false);
    assert_eq!(output.set_callback(Some(first.clone())), Ok(()));
    assert_eq!(output.callback_wrapper().unwrap().playback_stopped(), 0);
    assert_eq!(output.set_callback(Some(second.clone())), Ok(()));
    assert_eq!(output.callback_wrapper().unwrap().playback_stopped(), 1);
    assert_eq!(output.set_callback(None), Ok(()));
    assert_eq!(output.callback_wrapper().unwrap().playback_stopped(), 0);
    assert_eq!(first.events(), vec!["stopped"]);
    assert_eq!(second.events(), vec!["stopped"]);
    assert!(output.is_scheduled_playback_running());
    assert_eq!(output.buffered_video_frame_count(), 1);
}

#[test]
fn teardown_of_a_running_output_stops_disables_frees_then_releases() {
    let mut device = wrap_device_output();
    let mut driver = MockDriver::new();
    let mut output = enable_scheduled(&mut device, &mut driver, 1000);
    output.playback_started(0).unwrap();
    let mut teardown = output.release();
    let mut steps = Vec::new();
    let mut gate_during = Vec::new();
    let mut slot_during = Vec::new();
    while let Some(step) = device.advance_teardown(&mut teardown) {
        gate_during.push(device.is_active(Capability::Video));
        slot_during.push(teardown.callback_wrapper().is_some());
        steps.push(step);
    }
    assert_eq!(
        steps,
        vec![
            TeardownStep::StopPlayback { stop_time: 0, timescale: 1000 },
            TeardownStep::DisableOutput,
            TeardownStep::FreeContext,
        ]
    );
    assert_eq!(gate_during, vec![true, true, true]);
    assert_eq!(slot_during, vec![true, true, false]);
    assert!(teardown.is_finished());
    assert!(!device.is_active(Capability::Video));
    assert_eq!(device.advance_teardown(&mut teardown), None);
    assert!(!device.is_active(Capability::Video));
    let _again = enable_scheduled(&mut device, &mut driver, 1000);
}

#[test]
fn teardown_of_a_stopped_sync_output_only_disables() {
    let mut device = wrap_device_output();
    let pending = device
        .enable_video_output_sync(DecklinkDisplayModeId::PAL, DecklinkVideoOutputFlags::empty())
        .unwrap_or_else(|e| panic!("{:?}", e));
    let output = match pending.complete(0, &mut device) {
        EnableOutcome::Ready(output) => output,
        _ => panic!("the output was due"),
    };
    let mut teardown = output.release();
    assert_eq!(device.advance_teardown(&mut teardown), Some(TeardownStep::DisableOutput));
    assert!(device.is_active(Capability::Video));
    assert!(!teardown.is_finished());
    assert_eq!(device.advance_teardown(&mut teardown), None);
    assert!(teardown.is_finished());
    assert!(!device.is_active(Capability::Video));
}

#[test]
fn a_callback_racing_with_teardown_never_sees_a_freed_slot() {
    for race_at in 0..4usize {
        let mut device = wrap_device_output();
        let mut driver = MockDriver::new();
        let mut output = enable_scheduled(&mut device, &mut driver, 1000);
        let recorder = Recorder::new(true);
        output.set_callback(Some(recorder.clone())).unwrap();
        schedule(&mut output, &mut driver, 0, 1000).unwrap();
        output.playback_started(0).unwrap();

        let mut teardown = output.release();
        let mut disabled = false;
        let mut n = 0;
        loop {
            // The driver may fire a callback at any moment before it has
            // returned from the call that disables the output.
            if n == race_at && !disabled {
                let slot = teardown.callback_wrapper();
                assert!(slot.is_some(), "the slot was freed while a callback could still fire");
                assert_eq!(slot.unwrap().schedule_frame_completed_callback(None, 3), 0);
            }
            let step = match device.advance_teardown(&mut teardown) {
                Some(step) => step,
                None => break,
            };
            match step {
                TeardownStep::StopPlayback { .. } => {
                    driver.perform(&DriverCall::StopScheduledPlayback { stop_time: 0, timescale: 1000 });
                }
                TeardownStep::DisableOutput => {
                    assert!(teardown.callback_wrapper().is_some());
                    driver.perform(&DriverCall::DisableVideoOutput);
                    disabled = true;
                }
                TeardownStep::FreeContext => {
                    assert!(disabled, "the slot was freed before the output was disabled");
                    assert!(teardown.callback_wrapper().is_none());
                }
            }
            n += 1;
        }
        let expected = if race_at < 2 { 1 } else { 0 };
        assert_eq!(recorder.events().len(), expected);
        assert!(!device.is_active(Capability::Video));
        assert_eq!(&driver.calls[driver.calls.len() - 2..], &["stop 0 1000", "disable_video"]);
    }
}
