use vstd::prelude::*;
use vstd::string::StringExecFns;

use crate::decimal::decimal_chars;
use crate::decimal::decimal_string;

verus! {

/// The device-capability bit that advertises streaming I/O
/// (`V4L2_CAP_STREAMING`).
pub const CAP_STREAMING: u32 = 0x04000000;

/// A kernel version number packed as `major.minor.patch`, one byte each,
/// rendered with dots between the decimal parts.
pub open spec fn version_chars(version: u32) -> Seq<char> {
    decimal_chars(((version >> 16) & 0xFF) as nat) + "."@ + decimal_chars(
        ((version >> 8) & 0xFF) as nat,
    ) + "."@ + decimal_chars((version & 0xFF) as nat)
}

/// Render a packed kernel version number as `major.minor.patch`.
pub fn format_version(version: u32) -> (r: String)
    ensures
        r@ == version_chars(version),
{
    let mut s = decimal_string(((version >> 16) & 0xFF) as usize);
    s.append(".");
    let minor = decimal_string(((version >> 8) & 0xFF) as usize);
    s.append(minor.as_str());
    s.append(".");
    let patch = decimal_string((version & 0xFF) as usize);
    s.append(patch.as_str());
    s
}

/// The four characters of a packed pixel-format code, least significant
/// byte first — the order in which a fourcc is spelled.
pub open spec fn fourcc_spec(pixelformat: u32) -> Seq<u8> {
    seq![
        (pixelformat & 0xFF) as u8,
        ((pixelformat >> 8) & 0xFF) as u8,
        ((pixelformat >> 16) & 0xFF) as u8,
        ((pixelformat >> 24) & 0xFF) as u8,
    ]
}

/// Unpack a pixel-format code into its four fourcc bytes.
pub fn fourcc_bytes(pixelformat: u32) -> (r: Vec<u8>)
    ensures
        r@ == fourcc_spec(pixelformat),
{
    proof {
        assert(pixelformat & 0xFF < 256 && (pixelformat >> 8) & 0xFF < 256 && (pixelformat >> 16)
            & 0xFF < 256 && (pixelformat >> 24) & 0xFF < 256) by (bit_vector);
    }
    let mut r: Vec<u8> = Vec::new();
    r.push((pixelformat & 0xFF) as u8);
    r.push(((pixelformat >> 8) & 0xFF) as u8);
    r.push(((pixelformat >> 16) & 0xFF) as u8);
    r.push(((pixelformat >> 24) & 0xFF) as u8);
    proof {
        assert(r@ =~= fourcc_spec(pixelformat));
    }
    r
}

/// Whether a device-capability word advertises streaming I/O.
pub fn check_support_video_streaming(device_caps: u32) -> (r: bool)
    ensures
        r == (device_caps & CAP_STREAMING != 0),
{
    device_caps & CAP_STREAMING != 0
}

/// What a device reports about itself, already decoded into owned values:
/// the driver, card and bus names as text, the version rendered as
/// `major.minor.patch`, and the two raw capability words.
pub struct V4l2Capability {
    driver: String,
    card: String,
    bus_info: String,
    version: String,
    capabilities: u32,
    device_caps: u32,
}

impl V4l2Capability {
    pub closed spec fn driver_text(&self) -> Seq<char> {
        self.driver@
    }

    pub closed spec fn card_text(&self) -> Seq<char> {
        self.card@
    }

    pub closed spec fn bus_info_text(&self) -> Seq<char> {
        self.bus_info@
    }

    pub closed spec fn version_text(&self) -> Seq<char> {
        self.version@
    }

    pub closed spec fn capabilities_word(&self) -> u32 {
        self.capabilities
    }

    pub closed spec fn device_caps_word(&self) -> u32 {
        self.device_caps
    }

    /// Assemble a capability record from the raw fields a capability query
    /// yields, rendering the packed version number on the way.
    pub fn from_raw(
        driver: String,
        card: String,
        bus_info: String,
        version: u32,
        capabilities: u32,
        device_caps: u32,
    ) -> (r: V4l2Capability)
        ensures
            r.driver_text() == driver@,
            r.card_text() == card@,
            r.bus_info_text() == bus_info@,
            r.version_text() == version_chars(version),
            r.capabilities_word() == capabilities,
            r.device_caps_word() == device_caps,
    {
        let rendered = format_version(version);
        V4l2Capability {
            driver,
            card,
            bus_info,
            version: rendered,
            capabilities,
            device_caps,
        }
    }

    /// The capability word that `check_support_video_streaming` inspects.
    pub fn get_device_caps(&self) -> (r: u32)
        ensures
            r == self.device_caps_word(),
    {
        self.device_caps
    }

    /// One line describing the device, for reporting.
    pub fn describe(&self) -> (r: String)
        ensures
            r@ == "Device capability [driver: "@ + self.driver_text() + ", card: "@
                + self.card_text() + ", bus_info: "@ + self.bus_info_text() + ", version: "@
                + self.version_text() + "]"@,
    {
        let mut s = String::from_str("Device capability [driver: ");
        s.append(self.driver.as_str());
        s.append(", card: ");
        s.append(self.card.as_str());
        s.append(", bus_info: ");
        s.append(self.bus_info.as_str());
        s.append(", version: ");
        s.append(self.version.as_str());
        s.append("]");
        s
    }
}

} // verus!
