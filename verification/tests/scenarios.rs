use capvicam::mjpeg::AcceptOutcome;
use capvicam::mjpeg::AcceptStep;
use capvicam::CancelFlag;
use capvicam::Capture;
use capvicam::CapturePhase;
use capvicam::ErrorKind;
use capvicam::FrameSlot;
use capvicam::Mjpeg;
use capvicam::StreamSession;

/// A session connected while sequences 1..=5 are published emits exactly
/// five parts, each Content-Length matching that frame's byte length, in
/// increasing sequence order.
#[test]
fn five_publishes_five_parts_in_order() {
    let mut slot = FrameSlot::new();
    let mut session = StreamSession::new();
    let mut parts: Vec<(usize, String, Vec<u8>)> = Vec::new();

    for n in 1u8..=5 {
        // Frames of different lengths: frame n carries n bytes.
        slot.publish(vec![n; n as usize]);
        let (sequence, data) = slot.snapshot();
        if let Some((header, body)) = session.poll(sequence, &data) {
            parts.push((sequence, header, body));
        }
    }

    assert_eq!(parts.len(), 5);
    let mut last = 0;
    for (sequence, header, body) in &parts {
        assert!(*sequence > last);
        last = *sequence;
        assert_eq!(
            header,
            &format!(
                "--mjpegstream\r\nContent-Type: image/jpeg\r\nContent-Length: {}\r\n\r\n",
                body.len()
            )
        );
        assert_eq!(body.len(), *sequence);
    }
}

/// A session whose socket write fails on part 3 terminates at once, without
/// retrying, and without affecting another session's delivery of part 3 and
/// later parts.
#[test]
fn write_failure_ends_one_session_only() {
    let mut slot = FrameSlot::new();
    let mut failing = StreamSession::new();
    let mut healthy = StreamSession::new();
    let mut healthy_parts = 0;

    for n in 1u8..=5 {
        slot.publish(vec![n]);

        if failing.is_session_active() {
            let (sequence, data) = slot.snapshot();
            let emitted = failing.poll(sequence, &data).is_some();
            assert!(emitted);
            // The write of part 3 fails; earlier writes succeed.
            failing.on_write_result(n != 3);
        }

        let (sequence, data) = slot.snapshot();
        if healthy.poll(sequence, &data).is_some() {
            healthy.on_write_result(true);
            healthy_parts += 1;
        }
    }

    // The failing session stopped right after part 3 and polled no further.
    assert!(!failing.is_session_active());
    // The other session delivered all five parts, part 3 included.
    assert!(healthy.is_session_active());
    assert_eq!(healthy_parts, 5);
}

/// Cancellation raised while the loop is blocked in a frame read is
/// observed at the next iteration's check: the loop reads nothing more and
/// completes its teardown; sessions close at their next observation.
#[test]
fn cancel_during_read_tears_down() {
    let mut flag = CancelFlag::new();
    let mut capture = Capture::new();
    let mut slot = FrameSlot::new();
    let mut session = StreamSession::new();

    capture.on_buffers_allocated(true);
    capture.on_stream_started(true);
    assert_eq!(capture.current_phase(), CapturePhase::Streaming);

    // One normal iteration: poll, blocking read, publish.
    assert!(capture.on_poll(flag.is_cancelled()));
    capture.on_frame_read(true);
    slot.publish(vec![1]);

    // The interrupt arrives while the next read is in flight; the read
    // still completes and its frame is published.
    assert!(capture.on_poll(flag.is_cancelled()));
    flag.cancel();
    capture.on_frame_read(true);
    slot.publish(vec![2]);

    // The very next iteration observes the flag: no further read.
    assert!(!capture.on_poll(flag.is_cancelled()));
    assert_eq!(capture.current_phase(), CapturePhase::Stopping);
    capture.on_stream_stopped(true);
    assert_eq!(capture.current_phase(), CapturePhase::Idle);
    assert_eq!(capture.outcome(), None);
    assert_eq!(capture.cleanup_outcome(), None);

    // A session observes cancellation at its next cycle and closes.
    session.on_cancelled();
    assert!(!session.is_session_active());
}

/// A failed buffer allocation is fatal for the run: the loop never enters
/// streaming and reports the failure upward.
#[test]
fn buffer_allocation_failure_is_fatal() {
    let mut capture = Capture::new();
    capture.on_buffers_allocated(false);
    assert_eq!(capture.current_phase(), CapturePhase::Failed);
    assert_eq!(capture.outcome(), Some(ErrorKind::BufferAllocationFailed));
}

/// A failed stream start records its error and still runs the teardown; a
/// failure during that teardown is reported separately and never masks the
/// original error.
#[test]
fn start_failure_then_teardown_failure_does_not_mask() {
    let mut capture = Capture::new();
    capture.on_buffers_allocated(true);
    capture.on_stream_started(false);
    assert_eq!(capture.current_phase(), CapturePhase::Stopping);
    capture.on_stream_stopped(false);
    assert_eq!(capture.current_phase(), CapturePhase::Failed);
    assert_eq!(capture.outcome(), Some(ErrorKind::StreamStartFailed));
    assert_eq!(capture.cleanup_outcome(), Some(ErrorKind::StreamStopFailed));
}

/// A single frame-read failure ends the session without retry, and the
/// teardown still runs.
#[test]
fn frame_read_failure_breaks_loop() {
    let mut capture = Capture::new();
    capture.on_buffers_allocated(true);
    capture.on_stream_started(true);
    assert!(capture.on_poll(false));
    capture.on_frame_read(false);
    assert_eq!(capture.current_phase(), CapturePhase::Stopping);
    capture.on_stream_stopped(true);
    assert_eq!(capture.current_phase(), CapturePhase::Failed);
    assert_eq!(capture.outcome(), Some(ErrorKind::FrameReadFailed));
    assert_eq!(capture.cleanup_outcome(), None);
}

/// An acceptor that cannot bind its port reports `ListenerBindFailed`; no
/// acceptor value exists afterwards, so no session is ever spawned.
#[test]
fn bind_failure_spawns_nothing() {
    match Mjpeg::new(false) {
        Ok(_) => panic!("a failed bind must not yield an acceptor"),
        Err(e) => assert_eq!(e.message(), "could not bind the listening socket"),
    }
}

/// A bound acceptor spawns one fresh session per connection, keeps going
/// through transient accept failures, and stops on a listener-level error.
#[test]
fn acceptor_spawns_and_survives_transient_errors() {
    let mut acceptor = Mjpeg::new(true).expect("a successful bind yields an acceptor");

    match acceptor.on_accept(AcceptOutcome::Connection) {
        AcceptStep::Spawn(session) => assert!(session.is_session_active()),
        _ => panic!("a connection must spawn a session"),
    }
    match acceptor.on_accept(AcceptOutcome::TransientError) {
        AcceptStep::Continue => {}
        _ => panic!("a transient accept failure must not stop the acceptor"),
    }
    match acceptor.on_accept(AcceptOutcome::Connection) {
        AcceptStep::Spawn(_) => {}
        _ => panic!("the acceptor must still spawn after a transient failure"),
    }
    match acceptor.on_accept(AcceptOutcome::ListenerError) {
        AcceptStep::Stop(e) => assert_eq!(e.message(), "a client connection was lost"),
        _ => panic!("a listener-level failure must stop the acceptor"),
    }
}
