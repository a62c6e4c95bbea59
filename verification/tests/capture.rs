use signal_hub::camera::{can_encode, encode_frame, CameraServer};
use signal_hub::capture::{
    settings, Action, CaptureSession, CaptureState, Exit, ReadOutcome, Setting, Signal,
    BUFFER_DEPTH, COOLDOWN_MS, DEVICE_INDEX, FRAME_HEIGHT, FRAME_INTERVAL_MS, FRAME_RATE,
    FRAME_WIDTH, JPEG_QUALITY, MAX_FAILURES, RESTART_DELAY_MS, WARMUP_DELAY_MS, WARMUP_READS,
};
use signal_hub::message::{Message, Outbound};
use signal_hub::publisher::publish_frame;
use signal_hub::registry::Registry;
use tokio::sync::mpsc::error::TryRecvError;
use tokio::sync::mpsc::unbounded_channel;

const OPEN: Action = Action::Open { device: 0 };
const WARM_UP: Action = Action::WarmUp { delay_ms: 100 };
const READ_ON: Action = Action::Read { delay_ms: 66 };
const ENCODE: Action = Action::Encode { quality: 60 };
const REOPEN: Action = Action::Reopen { cooldown_ms: 2000, device: 0 };

const EMPTY: Signal = Signal::Read(ReadOutcome::Empty);
const FRAME: Signal = Signal::Read(ReadOutcome::Frame);
const WARMED_UP: Signal = Signal::WarmedUp(ReadOutcome::Frame);

/// A session whose device has been opened and warmed up.
fn capturing() -> CaptureSession {
    let mut session = CaptureSession::new();
    assert_eq!(session.advance(Signal::Start), OPEN);
    assert_eq!(session.advance(Signal::Opened(true)), WARM_UP);
    for _ in 0..4 {
        assert_eq!(session.advance(WARMED_UP), WARM_UP);
    }
    assert_eq!(session.advance(WARMED_UP), Action::Read { delay_ms: 0 });
    session
}

/// A session that has given up its device.
fn degraded() -> CaptureSession {
    let mut session = capturing();
    for _ in 0..3 {
        session.advance(EMPTY);
    }
    assert_eq!(session.state(), CaptureState::Degraded);
    session
}

#[test]
fn the_fixed_values() {
    assert_eq!(DEVICE_INDEX, 0);
    assert_eq!(FRAME_WIDTH, 320);
    assert_eq!(FRAME_HEIGHT, 240);
    assert_eq!(FRAME_RATE, 15);
    assert_eq!(BUFFER_DEPTH, 1);
    assert_eq!(JPEG_QUALITY, 60);
    assert_eq!(WARMUP_READS, 5);
    assert_eq!(WARMUP_DELAY_MS, 100);
    assert_eq!(MAX_FAILURES, 3);
    assert_eq!(COOLDOWN_MS, 2000);
    assert_eq!(FRAME_INTERVAL_MS, 66);
    assert_eq!(RESTART_DELAY_MS, 5000);
}

#[test]
fn the_settings_in_their_order() {
    assert_eq!(
        settings(),
        vec![
            Setting::PixelFormat('M', 'J', 'P', 'G'),
            Setting::Width(320),
            Setting::Height(240),
            Setting::FrameRate(15),
            Setting::BufferDepth(1),
            Setting::AutoExposure(false),
            Setting::AutoFocus(false),
        ]
    );
}

#[test]
fn a_new_session_is_closed() {
    let session = CaptureSession::new();
    assert_eq!(session.state(), CaptureState::Closed);
    assert_eq!(session.failures(), 0);
    assert!(!session.encoding());
    assert_eq!(session.exit(), None);
}

#[test]
fn opening_warms_up_five_times_then_reads_at_once() {
    let mut session = CaptureSession::new();
    assert_eq!(session.advance(Signal::Start), OPEN);
    assert_eq!(session.state(), CaptureState::Opening);
    assert_eq!(session.advance(Signal::Opened(true)), WARM_UP);
    let mut warmups = 1;
    loop {
        match session.advance(WARMED_UP) {
            Action::WarmUp { delay_ms } => {
                assert_eq!(delay_ms, 100);
                warmups += 1;
            }
            other => {
                assert_eq!(other, Action::Read { delay_ms: 0 });
                break;
            }
        }
    }
    assert_eq!(warmups, 5);
    assert_eq!(session.state(), CaptureState::Capturing);
    assert_eq!(session.failures(), 0);
}

#[test]
fn warm_up_reads_without_a_frame_still_count() {
    let mut session = CaptureSession::new();
    session.advance(Signal::Start);
    session.advance(Signal::Opened(true));
    assert_eq!(session.advance(Signal::WarmedUp(ReadOutcome::Empty)), WARM_UP);
    assert_eq!(session.advance(Signal::WarmedUp(ReadOutcome::NoFrame)), WARM_UP);
    assert_eq!(session.advance(Signal::WarmedUp(ReadOutcome::Frame)), WARM_UP);
    assert_eq!(session.advance(Signal::WarmedUp(ReadOutcome::NoFrame)), WARM_UP);
    assert_eq!(
        session.advance(Signal::WarmedUp(ReadOutcome::Empty)),
        Action::Read { delay_ms: 0 }
    );
    assert_eq!(session.state(), CaptureState::Capturing);
}

#[test]
fn a_device_that_does_not_open_fails_the_loop() {
    let mut session = CaptureSession::new();
    session.advance(Signal::Start);
    assert_eq!(session.advance(Signal::Opened(false)), Action::Stop);
    assert_eq!(session.state(), CaptureState::Terminated);
    assert_eq!(session.exit(), Some(Exit::OpenFailed));
    assert!(Exit::OpenFailed.is_failure());
}

#[test]
fn a_warm_up_read_that_raises_an_error_ends_the_opening() {
    let mut session = CaptureSession::new();
    session.advance(Signal::Start);
    session.advance(Signal::Opened(true));
    session.advance(WARMED_UP);
    assert_eq!(session.advance(Signal::WarmedUp(ReadOutcome::Error)), Action::Stop);
    assert_eq!(session.state(), CaptureState::Terminated);
    assert_eq!(session.exit(), Some(Exit::OpenFailed));
}

#[test]
fn a_frame_is_compressed_and_the_loop_goes_on() {
    let mut session = capturing();
    assert_eq!(session.advance(FRAME), ENCODE);
    assert!(session.encoding());
    assert_eq!(session.advance(Signal::Published(true)), READ_ON);
    assert!(!session.encoding());
    assert_eq!(session.state(), CaptureState::Capturing);
    assert_eq!(session.failures(), 0);
}

#[test]
fn a_frame_that_cannot_be_compressed_is_skipped() {
    let mut session = capturing();
    session.advance(EMPTY);
    assert_eq!(session.advance(FRAME), ENCODE);
    assert_eq!(session.failures(), 0);
    assert_eq!(session.advance(Signal::Unencodable), READ_ON);
    assert_eq!(session.state(), CaptureState::Capturing);
    assert_eq!(session.failures(), 0);
}

#[test]
fn every_kind_of_failed_read_counts() {
    for outcome in [ReadOutcome::Empty, ReadOutcome::NoFrame, ReadOutcome::Error] {
        let mut session = capturing();
        assert_eq!(session.advance(Signal::Read(outcome)), READ_ON);
        assert_eq!(session.failures(), 1);
    }
    let mut session = capturing();
    assert_eq!(session.advance(Signal::Read(ReadOutcome::Empty)), READ_ON);
    assert_eq!(session.advance(Signal::Read(ReadOutcome::Error)), READ_ON);
    assert_eq!(session.advance(Signal::Read(ReadOutcome::NoFrame)), REOPEN);
}

#[test]
fn a_good_read_resets_the_failure_count() {
    let mut session = capturing();
    assert_eq!(session.advance(EMPTY), READ_ON);
    assert_eq!(session.advance(EMPTY), READ_ON);
    assert_eq!(session.failures(), 2);
    assert_eq!(session.advance(FRAME), ENCODE);
    assert_eq!(session.failures(), 0);
    assert_eq!(session.advance(Signal::Published(true)), READ_ON);
    // Two more failures are again below the limit.
    assert_eq!(session.advance(EMPTY), READ_ON);
    assert_eq!(session.advance(EMPTY), READ_ON);
    assert_eq!(session.state(), CaptureState::Capturing);
    assert_eq!(session.failures(), 2);
}

#[test]
fn three_failed_reads_reopen_once() {
    let mut session = capturing();
    assert_eq!(session.advance(EMPTY), READ_ON);
    assert_eq!(session.failures(), 1);
    assert_eq!(session.advance(EMPTY), READ_ON);
    assert_eq!(session.failures(), 2);
    assert_eq!(session.advance(EMPTY), REOPEN);
    assert_eq!(session.state(), CaptureState::Degraded);
    assert_eq!(session.failures(), 3);
    // Until the device has answered, reads are not taken in.
    assert_eq!(session.advance(EMPTY), Action::Ignore);
    assert_eq!(session.advance(FRAME), Action::Ignore);
    assert_eq!(session.advance(Signal::Published(true)), Action::Ignore);
    assert_eq!(session.state(), CaptureState::Degraded);
    assert_eq!(session.failures(), 3);
    // The device opens again, warms up, and the next frame is processed.
    assert_eq!(session.advance(Signal::Opened(true)), WARM_UP);
    assert_eq!(session.state(), CaptureState::Opening);
    for _ in 0..4 {
        assert_eq!(session.advance(WARMED_UP), WARM_UP);
    }
    assert_eq!(session.advance(WARMED_UP), READ_ON);
    assert_eq!(session.state(), CaptureState::Capturing);
    assert_eq!(session.failures(), 0);
    assert_eq!(session.advance(FRAME), ENCODE);
    assert_eq!(session.advance(Signal::Published(true)), READ_ON);
}

#[test]
fn five_empty_frames_with_a_failed_reopen_end_the_loop() {
    let mut session = capturing();
    let mut answers = Vec::new();
    for _ in 0..3 {
        answers.push(session.advance(EMPTY));
    }
    assert_eq!(answers, vec![READ_ON, READ_ON, REOPEN]);
    assert_eq!(session.advance(Signal::Opened(false)), Action::Stop);
    assert_eq!(session.state(), CaptureState::Terminated);
    assert_eq!(session.exit(), Some(Exit::ReopenFailed));
    assert!(!Exit::ReopenFailed.is_failure());
    // Whatever else the device says, the loop has ended.
    assert_eq!(session.advance(EMPTY), Action::Stop);
    assert_eq!(session.advance(EMPTY), Action::Stop);
    assert_eq!(session.exit(), Some(Exit::ReopenFailed));
    // The supervisor starts over after the fixed delay.
    assert_eq!(session.restart(), 5000);
    assert_eq!(session.state(), CaptureState::Closed);
    assert_eq!(session.exit(), None);
    assert_eq!(session.advance(Signal::Start), OPEN);
}

#[test]
fn five_empty_frames_with_a_good_reopen_count_on_from_zero() {
    let mut session = degraded();
    session.advance(Signal::Opened(true));
    for _ in 0..5 {
        session.advance(WARMED_UP);
    }
    assert_eq!(session.advance(EMPTY), READ_ON);
    assert_eq!(session.advance(EMPTY), READ_ON);
    assert_eq!(session.state(), CaptureState::Capturing);
    assert_eq!(session.failures(), 2);
}

#[test]
fn a_warm_up_error_after_reopening_ends_the_loop_quietly() {
    let mut session = degraded();
    session.advance(Signal::Opened(true));
    assert_eq!(session.advance(Signal::WarmedUp(ReadOutcome::Error)), Action::Stop);
    assert_eq!(session.exit(), Some(Exit::ReopenFailed));
}

#[test]
fn a_consumer_that_is_gone_ends_the_loop() {
    let mut session = capturing();
    session.advance(EMPTY);
    session.advance(FRAME);
    assert_eq!(session.advance(Signal::Published(false)), Action::Stop);
    assert_eq!(session.state(), CaptureState::Terminated);
    assert_eq!(session.exit(), Some(Exit::ConsumerGone));
    assert_eq!(session.failures(), 0);
    assert!(!session.encoding());
    assert!(!Exit::ConsumerGone.is_failure());
}

#[test]
fn signals_out_of_turn_change_nothing() {
    let mut session = CaptureSession::new();
    for signal in [
        Signal::Opened(true),
        Signal::Opened(false),
        WARMED_UP,
        FRAME,
        EMPTY,
        Signal::Published(true),
        Signal::Published(false),
        Signal::Unencodable,
    ] {
        assert_eq!(session.advance(signal), Action::Ignore);
        assert_eq!(session.state(), CaptureState::Closed);
    }
    session.advance(Signal::Start);
    assert_eq!(session.advance(Signal::Start), Action::Ignore);
    assert_eq!(session.advance(WARMED_UP), Action::Ignore);
    assert_eq!(session.advance(EMPTY), Action::Ignore);
    assert_eq!(session.state(), CaptureState::Opening);
    session.advance(Signal::Opened(true));
    assert_eq!(session.advance(Signal::Opened(true)), Action::Ignore);
    assert_eq!(session.advance(Signal::Opened(false)), Action::Ignore);
    let mut session = capturing();
    assert_eq!(session.advance(Signal::Start), Action::Ignore);
    assert_eq!(session.advance(Signal::Opened(false)), Action::Ignore);
    assert_eq!(session.advance(Signal::WarmedUp(ReadOutcome::Error)), Action::Ignore);
    assert_eq!(session.advance(Signal::Published(false)), Action::Ignore);
    assert_eq!(session.advance(Signal::Unencodable), Action::Ignore);
    assert_eq!(session.state(), CaptureState::Capturing);
    session.advance(FRAME);
    assert_eq!(session.advance(FRAME), Action::Ignore);
    assert_eq!(session.advance(EMPTY), Action::Ignore);
    assert!(session.encoding());
    assert_eq!(session.failures(), 0);
}

#[test]
fn restart_always_waits_the_same() {
    let mut session = CaptureSession::new();
    for _ in 0..10 {
        session.advance(Signal::Start);
        session.advance(Signal::Opened(false));
        assert_eq!(session.restart(), 5000);
        assert_eq!(session.state(), CaptureState::Closed);
    }
    let mut session = capturing();
    session.advance(FRAME);
    session.advance(Signal::Published(false));
    assert_eq!(session.restart(), 5000);
    assert_eq!(session.failures(), 0);
    let mut session = degraded();
    assert_eq!(session.restart(), 5000);
    assert_eq!(session.state(), CaptureState::Closed);
    assert_eq!(session.failures(), 0);
}

#[test]
fn frames_are_put_into_base64() {
    assert_eq!(encode_frame(b""), "");
    assert_eq!(encode_frame(b"f"), "Zg==");
    assert_eq!(encode_frame(b"fo"), "Zm8=");
    assert_eq!(encode_frame(b"foo"), "Zm9v");
    assert_eq!(encode_frame(b"hello"), "aGVsbG8=");
    assert_eq!(encode_frame(&[0xff, 0xd8, 0xff, 0xe0]), "/9j/4A==");
    assert_eq!(encode_frame(&[0xfb, 0xef, 0xbe]), "++++");
}

#[test]
fn every_frame_length_in_use_can_be_encoded() {
    assert!(can_encode(0));
    assert!(can_encode(1));
    assert!(can_encode(1 << 20));
    assert!(can_encode(usize::MAX / 2));
    assert!(!can_encode(usize::MAX));
    assert!(!can_encode(usize::MAX / 4 * 3));
}

#[test]
fn a_frame_goes_onto_the_queue_as_text() {
    let (tx, mut rx) = unbounded_channel::<String>();
    let server = CameraServer::new(tx);
    let mut session = capturing();
    session.advance(EMPTY);
    assert_eq!(session.advance(FRAME), ENCODE);
    assert_eq!(server.handle_frame(&mut session, b"hello"), READ_ON);
    assert_eq!(session.failures(), 0);
    assert!(!session.encoding());
    assert_eq!(rx.try_recv(), Ok("aGVsbG8=".to_string()));
    assert_eq!(rx.try_recv(), Err(TryRecvError::Empty));
}

#[test]
fn a_frame_nobody_takes_ends_the_loop() {
    let (tx, rx) = unbounded_channel::<String>();
    let server = CameraServer::new(tx);
    let mut session = capturing();
    session.advance(FRAME);
    drop(rx);
    assert_eq!(server.handle_frame(&mut session, b"hello"), Action::Stop);
    assert_eq!(session.exit(), Some(Exit::ConsumerGone));
}

#[test]
fn a_frame_out_of_turn_is_not_queued() {
    let (tx, mut rx) = unbounded_channel::<String>();
    let server = CameraServer::new(tx);
    let mut session = CaptureSession::new();
    assert_eq!(server.handle_frame(&mut session, b"hello"), Action::Ignore);
    assert_eq!(rx.try_recv(), Err(TryRecvError::Empty));
    let mut session = capturing();
    assert_eq!(server.handle_frame(&mut session, b"hello"), Action::Ignore);
    assert_eq!(rx.try_recv(), Err(TryRecvError::Empty));
    let mut session = degraded();
    assert_eq!(server.handle_frame(&mut session, b"hello"), Action::Ignore);
    assert_eq!(session.state(), CaptureState::Degraded);
    assert_eq!(rx.try_recv(), Err(TryRecvError::Empty));
}

#[test]
fn published_frames_reach_every_connection() {
    let mut registry = Registry::new();
    let (tx_a, mut rx_a) = unbounded_channel::<Outbound>();
    let (tx_b, mut rx_b) = unbounded_channel::<Outbound>();
    registry.register("a", tx_a);
    registry.register("b", tx_b);
    let dispatch = publish_frame(&registry, "aGVsbG8=".to_string());
    let expected = Outbound::Notice(Message {
        event: "camera-frame".to_string(),
        data: "aGVsbG8=".to_string(),
        room: "default-room".to_string(),
        from: "server-camera".to_string(),
        to: None,
    });
    assert_eq!(dispatch.report.len(), 2);
    assert!(dispatch.report.iter().all(|a| a.accepted));
    assert_eq!(rx_a.try_recv(), Ok(expected.clone()));
    assert_eq!(rx_b.try_recv(), Ok(expected.clone()));
    assert_eq!(dispatch.payload, Some(expected));
}

#[test]
fn from_camera_to_peer() {
    let (frame_tx, mut frame_rx) = unbounded_channel::<String>();
    let server = CameraServer::new(frame_tx);
    let mut registry = Registry::new();
    let (tx, mut rx) = unbounded_channel::<Outbound>();
    registry.register("viewer", tx);
    let mut session = capturing();
    session.advance(FRAME);
    server.handle_frame(&mut session, &[1, 2, 3]);
    let frame = frame_rx.try_recv().unwrap();
    publish_frame(&registry, frame);
    match rx.try_recv() {
        Ok(Outbound::Notice(message)) => {
            assert_eq!(message.event, "camera-frame");
            assert_eq!(message.data, "AQID");
        }
        other => panic!("unexpected item: {:?}", other),
    }
}
