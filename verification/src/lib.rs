//! Core logic of a single-producer, many-consumer MJPEG camera streamer:
//! the shared latest-frame slot, the capture-loop state machine, the
//! cooperative cancellation flag, and the per-client streaming protocol.
//!
//! Device I/O and network I/O live outside this crate; the functions here
//! take their outcomes as plain values and decide everything else.

pub mod cancel;
pub mod capture;
pub mod decimal;
pub mod error;
pub mod frame;
pub mod ioctl;
pub mod mjpeg;

pub use cancel::CancelFlag;
pub use capture::Capture;
pub use capture::CapturePhase;
pub use error::CapViCamError;
pub use error::ErrorKind;
pub use frame::FrameSlot;
pub use frame::Image;
pub use ioctl::check_support_video_streaming;
pub use ioctl::V4l2Capability;
pub use mjpeg::Mjpeg;
pub use mjpeg::StreamSession;
