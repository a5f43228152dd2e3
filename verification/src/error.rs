use vstd::prelude::*;

verus! {

/// An error carried upward to whoever reports it: a plain message with
/// enough context to identify the stage that failed.
#[derive(Debug, PartialEq)]
pub struct CapViCamError {
    msg: String,
}

impl CapViCamError {
    /// The characters of the message.
    pub closed spec fn text(&self) -> Seq<char> {
        self.msg@
    }

    /// The message, for reporting.
    pub fn message(&self) -> (r: &str)
        ensures
            r@ == self.text(),
    {
        self.msg.as_str()
    }

    /// Build an error from borrowed message text.
    pub fn from_text(text: &str) -> (r: CapViCamError)
        ensures
            r.text() == text@,
    {
        CapViCamError { msg: text.to_owned() }
    }
}

impl From<String> for CapViCamError {
    fn from(msg: String) -> (r: CapViCamError) {
        CapViCamError { msg }
    }
}

impl vstd::std_specs::convert::FromSpecImpl<String> for CapViCamError {
    open spec fn obeys_from_spec() -> bool {
        true
    }

    closed spec fn from_spec(msg: String) -> CapViCamError {
        CapViCamError { msg }
    }
}

/// What `CapViCamError::from` makes of a message: an error carrying
/// exactly that text.
pub proof fn lemma_from_keeps_text(msg: String)
    ensures
        <CapViCamError as vstd::std_specs::convert::FromSpec<String>>::from_spec(msg).text()
            == msg@,
{
}

/// Every failure a run can report, by the stage it happened in.
#[derive(Clone, Copy, Debug, PartialEq, Eq, Structural)]
pub enum ErrorKind {
    /// Opening the device handle failed; fatal to the run.
    DeviceOpenFailed,
    /// The device reported no capability record; fatal to the run.
    CapabilityUnavailable,
    /// The device does not support streaming capture; fatal to the run.
    StreamingUnsupported,
    /// The requested capture format was rejected; fatal to the run.
    FormatNegotiationFailed,
    /// The capture buffer pool could not be allocated; fatal to the run.
    BufferAllocationFailed,
    /// The device refused to start streaming; fatal to the run.
    StreamStartFailed,
    /// A blocking frame read failed; fatal to the capture session.
    FrameReadFailed,
    /// Stopping the stream failed during teardown; reported, not fatal.
    StreamStopFailed,
    /// Closing the device failed during teardown; reported, not fatal.
    DeviceCloseFailed,
    /// The listening socket could not be bound; fatal to the server only.
    ListenerBindFailed,
    /// A client connection failed; expected, ends that session silently.
    ClientIoFailed,
}

impl ErrorKind {
    /// The report text for this failure.
    pub open spec fn describe_spec(&self) -> Seq<char> {
        match *self {
            ErrorKind::DeviceOpenFailed => "could not open the capture device"@,
            ErrorKind::CapabilityUnavailable => "could not read the device capability"@,
            ErrorKind::StreamingUnsupported => "the device does not support video streaming"@,
            ErrorKind::FormatNegotiationFailed => "could not set the capture format"@,
            ErrorKind::BufferAllocationFailed => "could not allocate the capture buffers"@,
            ErrorKind::StreamStartFailed => "could not start streaming"@,
            ErrorKind::FrameReadFailed => "could not read a frame from the device"@,
            ErrorKind::StreamStopFailed => "could not stop streaming"@,
            ErrorKind::DeviceCloseFailed => "could not close the capture device"@,
            ErrorKind::ListenerBindFailed => "could not bind the listening socket"@,
            ErrorKind::ClientIoFailed => "a client connection was lost"@,
        }
    }

    /// The report text for this failure.
    pub fn describe(&self) -> (r: &'static str)
        ensures
            r@ == self.describe_spec(),
    {
        match *self {
            ErrorKind::DeviceOpenFailed => "could not open the capture device",
            ErrorKind::CapabilityUnavailable => "could not read the device capability",
            ErrorKind::StreamingUnsupported => "the device does not support video streaming",
            ErrorKind::FormatNegotiationFailed => "could not set the capture format",
            ErrorKind::BufferAllocationFailed => "could not allocate the capture buffers",
            ErrorKind::StreamStartFailed => "could not start streaming",
            ErrorKind::FrameReadFailed => "could not read a frame from the device",
            ErrorKind::StreamStopFailed => "could not stop streaming",
            ErrorKind::DeviceCloseFailed => "could not close the capture device",
            ErrorKind::ListenerBindFailed => "could not bind the listening socket",
            ErrorKind::ClientIoFailed => "a client connection was lost",
        }
    }

    /// Wrap the report text in an error value.
    pub fn to_error(&self) -> (r: CapViCamError)
        ensures
            r.text() == self.describe_spec(),
    {
        CapViCamError::from_text(self.describe())
    }
}

} // verus!
