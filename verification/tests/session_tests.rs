use screencap::capture::{
    BackendState, CaptureBackend, Platform, ScreenCapture, ScreenCaptureConfig, StartReport,
};
use screencap::dxgi::{acquire_failure, DxgiBackend, DxgiState};
use screencap::errors::{classify_capture_error, CaptureErrorKind, SessionError};
use screencap::frame::FrameDataInternal;
use screencap::gdi::{dib_header, GdiState};
use screencap::pull_loop::{init_capture_mode, loop_step, CaptureMode, IterationEvent};
use screencap::sck::{
    build_stream_configuration, first_display, DisplayInfo, EnumerationCompletion, SampleKind,
    SCKBackend, ScreenshotDelegateIvars, ShareableContent, StreamDelegateIvars,
};
use screencap::windows::{WindowsBackend, WindowsInner};
use screencap::xcap::{accept_library_frame, select_monitor, XCapBackend};

fn sample_frame() -> FrameDataInternal {
    FrameDataInternal { width: 1, height: 1, stride: 4, data: vec![1, 2, 3, 4] }
}

fn one_display() -> ShareableContent {
    ShareableContent { displays: vec![DisplayInfo { width: 1920, height: 1080 }] }
}

// --- error classification ---

#[test]
fn timeout_code_classifies_as_no_frame() {
    assert_eq!(classify_capture_error(0x887A0027), CaptureErrorKind::Timeout);
}

#[test]
fn access_lost_code_classifies_as_access_lost() {
    assert_eq!(classify_capture_error(0x887A0026), CaptureErrorKind::AccessLost);
}

#[test]
fn unknown_code_classifies_as_other() {
    assert_eq!(classify_capture_error(0x80004005), CaptureErrorKind::Other);
}

#[test]
fn acquire_timeout_is_treated_as_no_frame() {
    assert!(acquire_failure(0x887A0027).is_none());
    assert_eq!(acquire_failure(0x887A0026), Some(CaptureErrorKind::AccessLost));
    assert_eq!(acquire_failure(0x80004005), Some(CaptureErrorKind::Other));
}

// --- initialization policy ---

#[test]
fn init_prefers_hardware() {
    assert_eq!(init_capture_mode(true, true), Ok(CaptureMode::Dxgi));
    assert_eq!(init_capture_mode(true, false), Ok(CaptureMode::Dxgi));
}

#[test]
fn init_falls_back_to_software() {
    assert_eq!(init_capture_mode(false, true), Ok(CaptureMode::Gdi));
}

#[test]
fn init_with_no_mechanism_is_fatal() {
    assert_eq!(init_capture_mode(false, false), Err(SessionError::NoCaptureMechanism));
}

// --- the capture loop's recovery policy ---

#[test]
fn access_lost_reinitializes_in_place() {
    let r = loop_step(
        CaptureMode::Dxgi,
        IterationEvent::HardwareAccessLost { hardware_ok: true, software_ok: true },
    );
    assert_eq!(r, Ok((CaptureMode::Dxgi, true)));
}

#[test]
fn access_lost_then_failed_reinit_demotes() {
    let r = loop_step(
        CaptureMode::Dxgi,
        IterationEvent::HardwareAccessLost { hardware_ok: false, software_ok: true },
    );
    assert_eq!(r, Ok((CaptureMode::Gdi, true)));
}

#[test]
fn access_lost_with_nothing_left_is_fatal() {
    let r = loop_step(
        CaptureMode::Dxgi,
        IterationEvent::HardwareAccessLost { hardware_ok: false, software_ok: false },
    );
    assert_eq!(r, Err(SessionError::NoCaptureMechanism));
}

#[test]
fn other_error_demotes_immediately() {
    let r = loop_step(CaptureMode::Dxgi, IterationEvent::HardwareFailed { software_ok: true });
    assert_eq!(r, Ok((CaptureMode::Gdi, true)));
    let r2 = loop_step(CaptureMode::Dxgi, IterationEvent::HardwareFailed { software_ok: false });
    assert_eq!(r2, Err(SessionError::CaptureFailed));
}

#[test]
fn no_frame_continues_unchanged() {
    assert_eq!(loop_step(CaptureMode::Dxgi, IterationEvent::NoFrame), Ok((CaptureMode::Dxgi, true)));
    assert_eq!(loop_step(CaptureMode::Gdi, IterationEvent::NoFrame), Ok((CaptureMode::Gdi, true)));
}

#[test]
fn consumer_gone_stops_the_loop() {
    let r = loop_step(CaptureMode::Gdi, IterationEvent::FrameDelivered { sink_alive: false });
    assert_eq!(r, Ok((CaptureMode::Gdi, false)));
}

#[test]
fn software_capture_failure_is_fatal() {
    assert_eq!(loop_step(CaptureMode::Gdi, IterationEvent::SoftwareFailed), Err(SessionError::CaptureFailed));
}

#[test]
fn fallback_session_stays_on_software() {
    // A hardware backend whose captures always lose access, with hardware
    // reinitialization always failing: the session demotes to the software
    // path and every later pass stays there.
    let mut mode = CaptureMode::Dxgi;
    let (m, running) = loop_step(
        mode,
        IterationEvent::HardwareAccessLost { hardware_ok: false, software_ok: true },
    )
    .unwrap();
    assert!(running);
    mode = m;
    assert_eq!(mode, CaptureMode::Gdi);
    for _ in 0..10 {
        let (m2, running2) =
            loop_step(mode, IterationEvent::FrameDelivered { sink_alive: true }).unwrap();
        assert!(running2);
        assert_eq!(m2, CaptureMode::Gdi);
        mode = m2;
    }
    // and the frames the software path then delivers are well-formed
    let gdi = GdiState::new(2, 2).unwrap();
    let bits: Vec<u8> = (0u8..16).collect();
    let frame = gdi.capture_frame(&bits).unwrap();
    assert_eq!(frame.width, 2);
    assert_eq!(frame.height, 2);
    assert_eq!(frame.stride, 8);
    assert_eq!(frame.data.len(), 16);
    for p in 0..4usize {
        assert_eq!(frame.data[p * 4 + 3], 255);
    }
}

// --- hardware backend state ---

#[test]
fn staging_texture_is_recreated_only_on_size_change() {
    let mut state = DxgiState::new(false, 1920, 1080);
    assert!(state.needs_new_staging(1920, 1080));
    state.note_staging(1920, 1080);
    assert!(!state.needs_new_staging(1920, 1080));
    assert!(state.needs_new_staging(1280, 720));
    state.note_staging(1280, 720);
    assert!(!state.needs_new_staging(1280, 720));
}

#[test]
fn dxgi_backend_requires_some_mechanism() {
    assert!(DxgiBackend::new(true, false).is_ok());
    assert!(DxgiBackend::new(false, true).is_ok());
    match DxgiBackend::new(false, false) {
        Err(e) => assert_eq!(e, SessionError::NoCaptureMechanism),
        Ok(_) => panic!("backend accepted with no mechanism"),
    }
}

// --- software backend state ---

#[test]
fn gdi_refuses_nonpositive_screen() {
    assert!(GdiState::new(0, 1080).is_err());
    assert!(GdiState::new(1920, -1).is_err());
    assert!(GdiState::new(1920, 1080).is_ok());
}

#[test]
fn dib_header_is_top_down_32_bit() {
    let h = dib_header(1920, 1080);
    assert_eq!(h.size, 40);
    assert_eq!(h.width, 1920);
    assert_eq!(h.height, -1080);
    assert_eq!(h.planes, 1);
    assert_eq!(h.bit_count, 32);
    assert_eq!(h.compression, 0);
}

#[test]
fn gdi_capture_refuses_short_buffer() {
    let gdi = GdiState::new(2, 2).unwrap();
    let bits = vec![0u8; 15];
    assert!(gdi.capture_frame(&bits).is_none());
}

// --- streaming backend ---

#[test]
fn first_display_takes_index_zero() {
    let content = ShareableContent {
        displays: vec![
            DisplayInfo { width: 800, height: 600 },
            DisplayInfo { width: 1920, height: 1080 },
        ],
    };
    assert_eq!(first_display(&content), Ok(DisplayInfo { width: 800, height: 600 }));
}

#[test]
fn empty_enumeration_is_fatal() {
    let content = ShareableContent { displays: Vec::new() };
    assert_eq!(first_display(&content), Err(SessionError::NoDisplayFound));
}

#[test]
fn stream_configuration_matches_display_and_rate() {
    let d = DisplayInfo { width: 1920, height: 1080 };
    let c = build_stream_configuration(&d, 30).unwrap();
    assert_eq!(c.width, 1920);
    assert_eq!(c.height, 1080);
    assert_eq!(c.min_frame_interval.numerator, 1);
    assert_eq!(c.min_frame_interval.denominator, 30);
    assert_eq!(c.queue_depth, 5);
    assert_eq!(c.pixel_format, 1111970369);
}

#[test]
fn stream_configuration_refuses_zero_rate() {
    let d = DisplayInfo { width: 1920, height: 1080 };
    assert_eq!(build_stream_configuration(&d, 0), Err(SessionError::InvalidFrameRate));
}

#[test]
fn screenshot_stream_runs_at_the_fixed_rate() {
    let content = one_display();
    let c = SCKBackend::screenshot_configuration(Some(&content)).unwrap();
    assert_eq!(c.min_frame_interval.denominator, 60);
    assert_eq!(c.width, 1920);
}

#[test]
fn stream_delegate_delivers_only_screen_samples_with_a_sink() {
    let with_sink = StreamDelegateIvars::new(true);
    assert!(with_sink.did_output(SampleKind::Screen, Some(sample_frame())).is_some());
    assert!(with_sink.did_output(SampleKind::Audio, Some(sample_frame())).is_none());
    assert!(with_sink.did_output(SampleKind::Screen, None).is_none());
    let without_sink = StreamDelegateIvars::new(false);
    assert!(without_sink.did_output(SampleKind::Screen, Some(sample_frame())).is_none());
}

#[test]
fn one_shot_claim_resolves_once() {
    let mut slot = ScreenshotDelegateIvars::new();
    assert!(slot.armed);
    slot.did_output(SampleKind::Audio, Some(sample_frame()));
    assert!(slot.armed); // other sample kinds are ignored
    slot.did_output(SampleKind::Screen, None);
    assert!(slot.armed); // failed extraction rolls the claim back
    slot.did_output(SampleKind::Screen, Some(sample_frame()));
    assert!(!slot.armed);
    assert_eq!(slot.delivered.as_ref().unwrap().data, vec![1, 2, 3, 4]);
    // later frames no longer change the resolved claim
    let mut other = sample_frame();
    other.data = vec![9, 9, 9, 9];
    slot.did_output(SampleKind::Screen, Some(other));
    assert_eq!(slot.delivered.as_ref().unwrap().data, vec![1, 2, 3, 4]);
}

#[test]
fn sck_stop_releases_stream_twice_over() {
    let mut sck = SCKBackend::new();
    let content = one_display();
    sck.start(Some(&content), true, 30).unwrap();
    assert!(sck.streaming);
    assert!(sck.has_delegate);
    assert!(sck.stop().is_ok());
    assert!(!sck.streaming);
    assert!(sck.stop().is_ok());
    assert!(!sck.streaming);
}

#[test]
fn enumeration_completion_keeps_only_the_first_invocation() {
    let mut cell = EnumerationCompletion::new();
    assert!(cell.pending);
    cell.complete(Some(one_display()));
    assert!(!cell.pending);
    let first = cell.outcome.as_ref().unwrap().as_ref().unwrap().displays.len();
    assert_eq!(first, 1);
    // a second invocation, against the platform's exactly-once promise,
    // changes nothing
    cell.complete(None);
    assert!(cell.outcome.as_ref().unwrap().is_some());
}

#[test]
fn enumeration_completion_records_a_reported_error() {
    let mut cell = EnumerationCompletion::new();
    cell.complete(None);
    assert!(!cell.pending);
    assert!(cell.outcome.as_ref().unwrap().is_none());
}

// --- the pull-family wrapper ---

#[test]
fn wrapper_prefers_the_duplication_pair() {
    let b = WindowsBackend::new(true, false);
    assert!(matches!(b.inner, WindowsInner::Dxgi(_)));
    let c = WindowsBackend::new(false, true);
    assert!(matches!(c.inner, WindowsInner::Dxgi(_)));
    let d = WindowsBackend::new(false, false);
    assert!(matches!(d.inner, WindowsInner::XCap(_)));
}

#[test]
fn wrapper_start_and_stop_forward_to_the_family() {
    let mut b = WindowsBackend::new(true, true);
    b.start(30).unwrap();
    match &b.inner {
        WindowsInner::Dxgi(d) => assert!(d.running && d.producer),
        WindowsInner::XCap(_) => panic!("wrong family"),
    }
    b.stop().unwrap();
    match &b.inner {
        WindowsInner::Dxgi(d) => assert!(!d.running && !d.producer),
        WindowsInner::XCap(_) => panic!("wrong family"),
    }
}

// --- capture-library backend ---

#[test]
fn monitor_selection_takes_index_zero() {
    assert_eq!(select_monitor(3), Ok(0));
    assert_eq!(select_monitor(0), Err(SessionError::NoDisplayFound));
}

#[test]
fn library_frame_is_checked_before_admission() {
    let good = accept_library_frame(2, 2, vec![7u8; 16]).unwrap();
    assert_eq!(good.width, 2);
    assert_eq!(good.stride, 8);
    assert_eq!(good.data, vec![7u8; 16]);
    assert!(accept_library_frame(2, 2, vec![7u8; 15]).is_none());
    assert!(accept_library_frame(2, 2, vec![7u8; 17]).is_none());
}

#[test]
fn xcap_backend_start_and_stop_cycle() {
    let mut b = XCapBackend::new();
    assert!(!b.running);
    b.start(30).unwrap();
    assert!(b.running && b.producer);
    b.stop().unwrap();
    assert!(!b.running && !b.producer);
}

// --- the control surface ---

#[test]
fn stop_twice_is_a_successful_noop() {
    let mut s = ScreenCapture::new(None, Platform::Other, false, false, true);
    s.start(None).unwrap();
    assert!(s.stop().is_ok());
    assert!(s.stop().is_ok());
}

#[test]
fn stop_on_a_never_started_session_succeeds() {
    let mut s = ScreenCapture::new(None, Platform::Other, false, false, true);
    assert!(s.stop().is_ok());
    assert!(s.stop().is_ok());
}

#[test]
fn start_while_running_spawns_no_second_producer() {
    let mut s = ScreenCapture::new(None, Platform::Other, false, false, true);
    match s.start(None) {
        Ok(StartReport::SpawnProducer { fps }) => assert_eq!(fps, 60),
        r => panic!("expected a producer spawn, got {:?}", r.is_ok()),
    }
    match s.start(None) {
        Ok(StartReport::AlreadyRunning) => {},
        _ => panic!("second start must not spawn"),
    }
}

#[test]
fn zero_fps_start_is_rejected() {
    let cfg = ScreenCaptureConfig { backend: Some(CaptureBackend::XCap), fps: Some(0) };
    let mut s = ScreenCapture::new(Some(cfg), Platform::Other, false, false, true);
    match s.start(None) {
        Err(e) => assert_eq!(e, SessionError::InvalidFrameRate),
        Ok(_) => panic!("fps 0 must be rejected"),
    }
}

#[test]
fn default_rate_is_sixty() {
    let s = ScreenCapture::new(None, Platform::Other, false, false, false);
    assert_eq!(s.fps, 60);
}

#[test]
fn requested_streaming_off_platform_becomes_library() {
    let cfg = ScreenCaptureConfig { backend: Some(CaptureBackend::ScreenCaptureKit), fps: None };
    let s = ScreenCapture::new(Some(cfg), Platform::Other, false, false, false);
    assert!(matches!(s.backend, Some(BackendState::XCap(_))));
}

#[test]
fn default_backend_follows_the_platform() {
    let mac = ScreenCapture::new(None, Platform::MacOs, false, false, false);
    assert!(matches!(mac.backend, Some(BackendState::Sck(_))));
    let win = ScreenCapture::new(None, Platform::Windows, true, true, false);
    assert!(matches!(win.backend, Some(BackendState::Windows(_))));
    let other = ScreenCapture::new(None, Platform::Other, false, false, false);
    assert!(matches!(other.backend, Some(BackendState::XCap(_))));
}

#[test]
fn streaming_start_reports_the_configuration() {
    let mut s = ScreenCapture::new(None, Platform::MacOs, false, false, true);
    let content = one_display();
    match s.start(Some(&content)) {
        Ok(StartReport::StreamStarted(c)) => {
            assert_eq!(c.width, 1920);
            assert_eq!(c.height, 1080);
            assert_eq!(c.min_frame_interval.denominator, 60);
        },
        _ => panic!("expected a stream start"),
    }
}

#[test]
fn streaming_start_surfaces_enumeration_failure() {
    let mut s = ScreenCapture::new(None, Platform::MacOs, false, false, true);
    match s.start(None) {
        Err(e) => assert_eq!(e, SessionError::ContentEnumerationFailed),
        Ok(_) => panic!("enumeration failure must surface"),
    }
    let empty = ShareableContent { displays: Vec::new() };
    match s.start(Some(&empty)) {
        Err(e) => assert_eq!(e, SessionError::NoDisplayFound),
        Ok(_) => panic!("an empty display list must surface"),
    }
}

#[test]
fn screenshot_resolves_to_the_claimed_frame() {
    let mut s = ScreenCapture::new(None, Platform::MacOs, false, false, false);
    let content = one_display();
    let fd = s.screenshot(Some(&content), Some(sample_frame())).unwrap();
    assert_eq!(fd.width, 1);
    assert_eq!(fd.height, 1);
    assert_eq!(fd.stride, 4);
    assert_eq!(fd.rgba, vec![1, 2, 3, 4]);
}

#[test]
fn screenshot_without_a_claimed_frame_fails() {
    let mut s = ScreenCapture::new(None, Platform::MacOs, false, false, false);
    let content = one_display();
    match s.screenshot(Some(&content), None) {
        Err(e) => assert_eq!(e, SessionError::CaptureFailed),
        Ok(_) => panic!("no claimed frame: the screenshot must fail"),
    }
}

#[test]
fn missing_backend_is_surfaced() {
    let mut s = ScreenCapture { backend: None, fps: 60, has_sink: false };
    match s.start(None) {
        Err(e) => assert_eq!(e, SessionError::BackendMissing),
        Ok(_) => panic!("a taken backend must surface"),
    }
    assert!(s.stop().is_ok());
    match s.screenshot(None, None) {
        Err(e) => assert_eq!(e, SessionError::BackendMissing),
        Ok(_) => panic!("a taken backend must surface"),
    }
}
