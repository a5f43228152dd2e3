use capvicam::decimal::decimal_string;
use capvicam::ioctl::check_support_video_streaming;
use capvicam::ioctl::format_version;
use capvicam::ioctl::fourcc_bytes;
use capvicam::mjpeg::part_header;
use capvicam::mjpeg::preamble;
use capvicam::CapViCamError;
use capvicam::ErrorKind;
use capvicam::V4l2Capability;

#[test]
fn decimal_rendering_exact() {
    assert_eq!(decimal_string(0), "0");
    assert_eq!(decimal_string(7), "7");
    assert_eq!(decimal_string(10), "10");
    assert_eq!(decimal_string(480), "480");
    assert_eq!(decimal_string(123456), "123456");
    assert_eq!(decimal_string(usize::MAX), format!("{}", usize::MAX));
}

#[test]
fn preamble_exact() {
    assert_eq!(
        preamble(),
        "HTTP/1.0 200 OK\r\nContent-Type: multipart/x-mixed-replace;boundary=mjpegstream\r\n\r\n"
    );
}

#[test]
fn part_header_exact() {
    assert_eq!(
        part_header(2),
        "--mjpegstream\r\nContent-Type: image/jpeg\r\nContent-Length: 2\r\n\r\n"
    );
    assert_eq!(
        part_header(12345),
        "--mjpegstream\r\nContent-Type: image/jpeg\r\nContent-Length: 12345\r\n\r\n"
    );
    assert_eq!(
        part_header(0),
        "--mjpegstream\r\nContent-Type: image/jpeg\r\nContent-Length: 0\r\n\r\n"
    );
}

#[test]
fn version_rendering_exact() {
    assert_eq!(format_version((1 << 16) | (2 << 8) | 3), "1.2.3");
    assert_eq!(format_version((255 << 16) | (255 << 8) | 255), "255.255.255");
    assert_eq!(format_version(0), "0.0.0");
    // Bits above the three version bytes are ignored.
    assert_eq!(format_version(0xAB000000 | (6 << 16) | (1 << 8) | 12), "6.1.12");
}

#[test]
fn fourcc_unpacks_little_endian() {
    let packed = u32::from_le_bytes(*b"MJPG");
    assert_eq!(fourcc_bytes(packed), b"MJPG".to_vec());
    let packed = u32::from_le_bytes(*b"YUYV");
    assert_eq!(fourcc_bytes(packed), b"YUYV".to_vec());
}

#[test]
fn streaming_capability_bit() {
    assert!(check_support_video_streaming(0x0400_0000));
    assert!(check_support_video_streaming(0x0400_0001));
    assert!(check_support_video_streaming(u32::MAX));
    assert!(!check_support_video_streaming(0));
    assert!(!check_support_video_streaming(0x0200_0000));
}

#[test]
fn capability_record_keeps_fields() {
    let caps = V4l2Capability::from_raw(
        String::from("uvcvideo"),
        String::from("HD Webcam"),
        String::from("usb-0000:00:14.0-1"),
        (6 << 16) | (1 << 8) | 12,
        0x8420_0001,
        0x0420_0001,
    );
    assert_eq!(caps.get_device_caps(), 0x0420_0001);
    assert!(check_support_video_streaming(caps.get_device_caps()));
    assert_eq!(
        caps.describe(),
        "Device capability [driver: uvcvideo, card: HD Webcam, bus_info: usb-0000:00:14.0-1, version: 6.1.12]"
    );
}

#[test]
fn error_messages_by_stage() {
    assert_eq!(
        ErrorKind::DeviceOpenFailed.describe(),
        "could not open the capture device"
    );
    assert_eq!(
        ErrorKind::CapabilityUnavailable.describe(),
        "could not read the device capability"
    );
    assert_eq!(
        ErrorKind::StreamingUnsupported.describe(),
        "the device does not support video streaming"
    );
    assert_eq!(
        ErrorKind::FormatNegotiationFailed.describe(),
        "could not set the capture format"
    );
    assert_eq!(
        ErrorKind::BufferAllocationFailed.describe(),
        "could not allocate the capture buffers"
    );
    assert_eq!(ErrorKind::StreamStartFailed.describe(), "could not start streaming");
    assert_eq!(
        ErrorKind::FrameReadFailed.describe(),
        "could not read a frame from the device"
    );
    assert_eq!(ErrorKind::StreamStopFailed.describe(), "could not stop streaming");
    assert_eq!(
        ErrorKind::DeviceCloseFailed.describe(),
        "could not close the capture device"
    );
    assert_eq!(
        ErrorKind::ListenerBindFailed.describe(),
        "could not bind the listening socket"
    );
    assert_eq!(ErrorKind::ClientIoFailed.describe(), "a client connection was lost");
}

#[test]
fn error_carries_its_text() {
    let e = CapViCamError::from(String::from("device is gone"));
    assert_eq!(e.message(), "device is gone");
    let e = CapViCamError::from_text("listener refused");
    assert_eq!(e.message(), "listener refused");
    let e = ErrorKind::FrameReadFailed.to_error();
    assert_eq!(e.message(), "could not read a frame from the device");
}
