use vstd::prelude::*;

use crate::error::ErrorKind;

verus! {

/// How many kernel capture buffers the loop asks for: small, fixed
/// headroom for double/triple buffering against momentary skew between the
/// device and the consumer.
pub const BUFFERS_NUM: i32 = 8;

/// Where the capture loop stands.
#[derive(Clone, Copy, Debug, PartialEq, Eq, Structural)]
pub enum CapturePhase {
    /// Not capturing: before buffers are allocated, or after a clean
    /// teardown.
    Idle,
    /// Buffers are allocated; streaming has not started yet.
    Ready,
    /// The device streams; the loop blocks on one frame read at a time.
    Streaming,
    /// Tearing down: the stream must still be stopped and the buffers
    /// released, whatever brought the loop here.
    Stopping,
    /// Torn down after a fatal error; the error is recorded.
    Failed,
}

/// The capture loop's state machine. The blocking device calls — allocate
/// buffers, start, read one frame, stop — happen outside this crate; their
/// outcomes are handed in here as plain values, and every decision of the
/// loop (carry on, tear down, what to report) is taken and recorded here.
///
/// A fatal error ends the run without retry, but teardown is attempted on
/// every exit path, and a failure during teardown never overrides the
/// error that caused the exit.
pub struct Capture {
    phase: CapturePhase,
    failure: Option<ErrorKind>,
    cleanup_failure: Option<ErrorKind>,
}

impl Capture {
    /// Where the loop stands.
    pub closed spec fn phase(&self) -> CapturePhase {
        self.phase
    }

    /// The first fatal error of the run, if any; never overwritten once
    /// recorded.
    pub closed spec fn failure(&self) -> Option<ErrorKind> {
        self.failure
    }

    /// A failure during teardown, if any; reported separately so it can
    /// never mask the error that caused the exit.
    pub closed spec fn cleanup_failure(&self) -> Option<ErrorKind> {
        self.cleanup_failure
    }

    /// A capture loop that has not begun: no buffers, no error.
    pub fn new() -> (r: Capture)
        ensures
            r.phase() == CapturePhase::Idle,
            r.failure() is None,
            r.cleanup_failure() is None,
    {
        Capture { phase: CapturePhase::Idle, failure: None, cleanup_failure: None }
    }

    /// Where the loop stands, for the caller driving it.
    pub fn current_phase(&self) -> (r: CapturePhase)
        ensures
            r == self.phase(),
    {
        self.phase
    }

    /// The reported failure of the run, if any.
    pub fn outcome(&self) -> (r: Option<ErrorKind>)
        ensures
            r == self.failure(),
    {
        self.failure
    }

    /// The reported teardown failure, if any.
    pub fn cleanup_outcome(&self) -> (r: Option<ErrorKind>)
        ensures
            r == self.cleanup_failure(),
    {
        self.cleanup_failure
    }

    /// Take the outcome of allocating the fixed buffer pool. Failure is
    /// fatal for this run — the loop never enters streaming and the
    /// failure is reported upward, not retried.
    pub fn on_buffers_allocated(&mut self, ok: bool)
        requires
            old(self).phase() == CapturePhase::Idle,
        ensures
            ok ==> final(self).phase() == CapturePhase::Ready && final(self).failure()
                == old(self).failure(),
            !ok ==> final(self).phase() == CapturePhase::Failed && final(self).failure() == (
            if old(self).failure() is None {
                Some(ErrorKind::BufferAllocationFailed)
            } else {
                old(self).failure()
            }),
            final(self).cleanup_failure() == old(self).cleanup_failure(),
    {
        if ok {
            self.phase = CapturePhase::Ready;
        } else {
            self.phase = CapturePhase::Failed;
            if self.failure.is_none() {
                self.failure = Some(ErrorKind::BufferAllocationFailed);
            }
        }
    }

    /// Take the outcome of starting the device's streaming mode. On
    /// failure the error is recorded and the loop goes straight to
    /// teardown: no frame is ever read from a device that failed to start.
    pub fn on_stream_started(&mut self, ok: bool)
        requires
            old(self).phase() == CapturePhase::Ready,
        ensures
            ok ==> final(self).phase() == CapturePhase::Streaming && final(self).failure()
                == old(self).failure(),
            !ok ==> final(self).phase() == CapturePhase::Stopping && final(self).failure() == (
            if old(self).failure() is None {
                Some(ErrorKind::StreamStartFailed)
            } else {
                old(self).failure()
            }),
            final(self).cleanup_failure() == old(self).cleanup_failure(),
    {
        if ok {
            self.phase = CapturePhase::Streaming;
        } else {
            self.phase = CapturePhase::Stopping;
            if self.failure.is_none() {
                self.failure = Some(ErrorKind::StreamStartFailed);
            }
        }
    }

    /// One loop iteration's cancellation check, made once per iteration
    /// before blocking in the frame read. Returns whether to read another
    /// frame; once cancellation is observed the loop reads nothing more and
    /// tears down, so the interrupt is honoured within one frame-read
    /// period of being raised.
    pub fn on_poll(&mut self, cancelled: bool) -> (read: bool)
        requires
            old(self).phase() == CapturePhase::Streaming,
        ensures
            read == !cancelled,
            cancelled ==> final(self).phase() == CapturePhase::Stopping,
            !cancelled ==> final(self).phase() == CapturePhase::Streaming,
            final(self).failure() == old(self).failure(),
            final(self).cleanup_failure() == old(self).cleanup_failure(),
    {
        if cancelled {
            self.phase = CapturePhase::Stopping;
            false
        } else {
            true
        }
    }

    /// Take the outcome of one blocking frame read. On success the caller
    /// must invoke the frame callback — copy the transient buffer view into
    /// owned bytes and publish them — before reading again. A single read
    /// failure is fatal for the session: the error is recorded and the loop
    /// breaks to teardown, with no retry.
    pub fn on_frame_read(&mut self, ok: bool)
        requires
            old(self).phase() == CapturePhase::Streaming,
        ensures
            ok ==> final(self).phase() == CapturePhase::Streaming && final(self).failure()
                == old(self).failure(),
            !ok ==> final(self).phase() == CapturePhase::Stopping && final(self).failure() == (
            if old(self).failure() is None {
                Some(ErrorKind::FrameReadFailed)
            } else {
                old(self).failure()
            }),
            final(self).cleanup_failure() == old(self).cleanup_failure(),
    {
        if !ok {
            self.phase = CapturePhase::Stopping;
            if self.failure.is_none() {
                self.failure = Some(ErrorKind::FrameReadFailed);
            }
        }
    }

    /// Take the outcome of stopping the device's streaming mode, attempted
    /// on every exit path. The caller then releases the buffer pool. A
    /// stop failure is recorded as a teardown failure — reported, but
    /// non-fatal, and never masking the error that caused the exit. The
    /// loop ends Idle after a clean run and Failed after a fatal error.
    pub fn on_stream_stopped(&mut self, ok: bool)
        requires
            old(self).phase() == CapturePhase::Stopping,
        ensures
            final(self).phase() == (if old(self).failure() is Some {
                CapturePhase::Failed
            } else {
                CapturePhase::Idle
            }),
            final(self).failure() == old(self).failure(),
            final(self).cleanup_failure() == (if ok {
                old(self).cleanup_failure()
            } else {
                Some(ErrorKind::StreamStopFailed)
            }),
    {
        self.phase = if self.failure.is_some() {
            CapturePhase::Failed
        } else {
            CapturePhase::Idle
        };
        if !ok {
            self.cleanup_failure = Some(ErrorKind::StreamStopFailed);
        }
    }
}

} // verus!
