//! Control-protocol core for a pan/tilt/zoom USB webcam.
//!
//! The library covers the device-matching rules, the vendor extension-unit
//! transaction protocol (length negotiation followed by get/set), the
//! status and range codecs, and the catalog that maps semantic commands
//! (tracking mode, exposure mode, field of view, HDR) to fixed byte
//! sequences.  The raw device I/O itself sits behind the [`UvcUsbIo`]
//! trait, so the whole protocol layer is checked independently of any
//! particular kernel interface.

use vstd::prelude::*;

mod camera;
mod catalog;
mod codec;
mod hexstr;
mod locator;
mod modes;
mod usbio;

pub use camera::Axis;
pub use camera::Camera;
pub use camera::OBSBotWebCam;
pub use camera::V4L2_CID_PAN_ABSOLUTE;
pub use camera::V4L2_CID_TILT_ABSOLUTE;
pub use camera::V4L2_CID_ZOOM_ABSOLUTE;
pub use camera::axis_cid;
pub use camera::axis_control_id;
pub use camera::channel_error;
pub use camera::check_get_length;
pub use camera::check_set_length;
pub use camera::clamped_sum;
pub use camera::le16;
pub use camera::relative_target;
pub use catalog::MAX_PAYLOAD_LEN;
pub use catalog::ai_mode_payload;
pub use catalog::auto_exposure_payload;
pub use catalog::exposure_select_payload;
pub use catalog::fov_payload;
pub use catalog::hdr_payload;
pub use catalog::is_set_request;
pub use catalog::manual_exposure_payload;
pub use catalog::SELECTOR_CONTROL;
pub use catalog::SELECTOR_EXPOSURE;
pub use catalog::XU_UNIT;
pub use catalog::ai_mode_command;
pub use catalog::auto_exposure_command;
pub use catalog::exposure_requests;
pub use catalog::fov_command;
pub use catalog::hdr_command;
pub use catalog::manual_exposure_command;
pub use catalog::pad_command;
pub use codec::CTRL_FLAG_DISABLED;
pub use codec::CameraStatus;
pub use codec::ControlRange;
pub use codec::RawRange;
pub use codec::STATUS_BLOCK_LEN;
pub use codec::STATUS_HDR_OFFSET;
pub use codec::STATUS_MODE_OFFSET;
pub use codec::STATUS_SUBMODE_OFFSET;
pub use codec::ai_mode_pair;
pub use codec::decode_range;
pub use codec::encode_status_block;
pub use codec::lemma_status_round_trip;
pub use codec::mode_of_pair;
pub use codec::pair_of_mode;
pub use codec::synthetic_status;
pub use hexstr::hex_byte;
pub use hexstr::hex_bytes;
pub use hexstr::hex_digit_val;
pub use hexstr::is_hex_digit;
pub use hexstr::parse_hex;
pub use hexstr::valid_hex;
pub use locator::METADATA_CAPS_BIT;
pub use locator::PollDecision;
pub use locator::contains_bytes;
pub use locator::contains_bytes_spec;
pub use locator::device_matches;
pub use locator::hint_matches;
pub use locator::locate_device;
pub use locator::match_at;
pub use locator::poll_step;
pub use locator::select_device;
pub use modes::AIMode;
pub use modes::ExposureMode;
pub use modes::ai_mode_name;
pub use modes::ai_mode_of_index;
pub use modes::tracking_mode_of_index;
pub use modes::FOVMode;
pub use modes::TrackingMode;
pub use usbio::UVC_GET_CUR;
pub use usbio::UVC_GET_LEN;
pub use usbio::UVC_SET_CUR;
pub use usbio::UvcUsbIo;
pub use usbio::uvc_menu_info;
pub use usbio::uvc_xu_control_mapping;
pub use usbio::uvc_xu_control_query;
pub use usbio::v4l2_capability;

verus! {

/// Everything that can go wrong in the control layer.
///
/// Every failure is returned to the caller; no operation of this crate
/// aborts the process.
#[derive(Debug, Clone, Copy, PartialEq, Eq, Structural)]
pub enum Error {
    /// An integer does not name any variant of the requested mode.
    UnsupportedIntValue(i32),
    /// A transaction failed; the OS error code is passed through verbatim.
    USBIOError(i32),
    /// No capture device matched the hint.
    NoCameraFound,
    /// The caller's buffer does not fit the length the device declared.
    ProtocolError,
    /// The device reports the standard control as disabled.
    ControlUnsupported,
    /// A raw command string is not valid hexadecimal.
    InvalidHex,
    /// A status block holds a mode pair outside the known table.
    DecodeError,
}

} // verus!
