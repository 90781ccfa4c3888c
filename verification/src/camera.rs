//! The camera facade: one open device handle and every operation the
//! collaborators consume, routed through the command catalog and the
//! two-phase vendor transaction protocol.

use vstd::prelude::*;

use crate::Error;
use crate::catalog::MAX_PAYLOAD_LEN;
use crate::catalog::SELECTOR_CONTROL;
use crate::catalog::SELECTOR_EXPOSURE;
use crate::catalog::XU_UNIT;
use crate::catalog::ai_mode_command;
use crate::catalog::exposure_requests;
use crate::catalog::fov_command;
use crate::catalog::hdr_command;
use crate::catalog::pad_command;
use crate::codec::CameraStatus;
use crate::codec::ControlRange;
use crate::codec::STATUS_BLOCK_LEN;
use crate::codec::decode_range;
use crate::hexstr::hex_bytes;
use crate::hexstr::parse_hex;
use crate::hexstr::valid_hex;
use crate::modes::AIMode;
use crate::modes::ExposureMode;
use crate::modes::FOVMode;
use crate::usbio::UVC_GET_CUR;
use crate::usbio::UVC_GET_LEN;
use crate::usbio::UVC_SET_CUR;
use crate::usbio::UvcUsbIo;
use crate::usbio::v4l2_capability;

verus! {

/// Standard control id of the absolute pan position.
pub const V4L2_CID_PAN_ABSOLUTE: u32 = 0x009a0908;

/// Standard control id of the absolute tilt position.
pub const V4L2_CID_TILT_ABSOLUTE: u32 = 0x009a0909;

/// Standard control id of the absolute zoom position.
pub const V4L2_CID_ZOOM_ABSOLUTE: u32 = 0x009a090d;

/// A motorized axis of the camera head.
#[derive(Debug, Clone, Copy, PartialEq, Eq, Structural)]
pub enum Axis {
    Pan,
    Tilt,
    Zoom,
}

/// The standard control id that drives each axis.
pub open spec fn axis_cid(axis: Axis) -> u32 {
    match axis {
        Axis::Pan => V4L2_CID_PAN_ABSOLUTE,
        Axis::Tilt => V4L2_CID_TILT_ABSOLUTE,
        Axis::Zoom => V4L2_CID_ZOOM_ABSOLUTE,
    }
}

/// The standard control id that drives `axis`, as executable code.
pub fn axis_control_id(axis: Axis) -> (id: u32)
    ensures
        id == axis_cid(axis),
{
    match axis {
        Axis::Pan => V4L2_CID_PAN_ABSOLUTE,
        Axis::Tilt => V4L2_CID_TILT_ABSOLUTE,
        Axis::Zoom => V4L2_CID_ZOOM_ABSOLUTE,
    }
}

/// An error the transaction channel can return: a length-negotiation
/// failure or an OS error passed through verbatim.
pub open spec fn channel_error(e: Error) -> bool {
    e is ProtocolError || e is USBIOError
}

/// `current + delta`, clamped to the machine range of an axis value.
pub open spec fn clamped_sum(current: i32, delta: i32) -> int {
    let s = current + delta;
    if s > i32::MAX {
        i32::MAX as int
    } else if s < i32::MIN {
        i32::MIN as int
    } else {
        s
    }
}

/// The absolute target of a relative move: the current position plus the
/// delta, clamped only to the machine range of the value.  The target is
/// deliberately not clamped to any queried control range; the device
/// answers an out-of-range write itself.
pub fn relative_target(current: i32, delta: i32) -> (t: i32)
    ensures
        t == clamped_sum(current, delta),
{
    let s: i64 = current as i64 + delta as i64;
    if s > i32::MAX as i64 {
        i32::MAX
    } else if s < i32::MIN as i64 {
        i32::MIN
    } else {
        s as i32
    }
}

/// Length negotiation for a read: the device-declared length must fit in
/// the caller's buffer, else the read is refused with `ProtocolError`.
pub fn check_get_length(buffer_len: usize, declared: u16) -> (r: Result<(), Error>)
    ensures
        r is Ok <==> declared as usize <= buffer_len,
        r is Err ==> r == Err::<(), Error>(Error::ProtocolError),
{
    if buffer_len < declared as usize {
        Err(Error::ProtocolError)
    } else {
        Ok(())
    }
}

/// Length negotiation for a write: the payload must not exceed the
/// device-declared length, else the write is refused with `ProtocolError`.
pub fn check_set_length(buffer_len: usize, declared: u16) -> (r: Result<(), Error>)
    ensures
        r is Ok <==> buffer_len <= declared as usize,
        r is Err ==> r == Err::<(), Error>(Error::ProtocolError),
{
    if buffer_len > declared as usize {
        Err(Error::ProtocolError)
    } else {
        Ok(())
    }
}

/// Reads the little-endian 16-bit length a device answered.
pub fn le16(lo: u8, hi: u8) -> (r: u16)
    ensures
        r == lo + 256 * hi,
{
    lo as u16 + 256 * (hi as u16)
}

/// One camera: exclusive ownership of one open device handle.
///
/// The handle is created by the caller (the locator lives at the I/O
/// boundary) and fixed for the camera's lifetime.  All access must be
/// serialized by the caller: the two-phase transaction protocol is not
/// safe to interleave on one (unit, selector) pair.
#[derive(Debug)]
pub struct Camera<H: UvcUsbIo> {
    handle: H,
}

/// The semantic operations every collaborator drives the camera with.
pub trait OBSBotWebCam {
    /// Applies a tracking mode through the single fixed command.
    fn set_ai_mode(&self, mode: AIMode) -> (r: Result<(), Error>)
        ensures
            r matches Err(e) ==> channel_error(e),
    ;

    /// Reads the current tracking mode out of a fresh status block.
    fn get_ai_mode(&self) -> (r: Result<AIMode, Error>)
        ensures
            r matches Err(e) ==> channel_error(e) || e is DecodeError,
    ;

    /// Switches HDR on or off.
    fn set_hdr_mode(&self, mode: bool) -> (r: Result<(), Error>)
        ensures
            r matches Err(e) ==> channel_error(e),
    ;

    /// Applies an exposure mode, request by request; the requests are not
    /// atomic, so a failure leaves the already-sent requests standing.
    fn set_exposure_mode(&self, mode: ExposureMode) -> (r: Result<(), Error>)
        ensures
            r matches Err(e) ==> channel_error(e),
    ;
}

impl<H: UvcUsbIo> Camera<H> {
    /// Wraps an exclusively-owned device handle.
    pub fn new(handle: H) -> (c: Camera<H>) {
        Camera { handle }
    }

    /// The capability metadata of the device behind this camera.
    pub fn info(&self) -> (r: Result<v4l2_capability, Error>)
        ensures
            r matches Err(e) ==> e is USBIOError,
    {
        match self.handle.info() {
            Ok(cap) => Ok(cap),
            Err(code) => Err(Error::USBIOError(code)),
        }
    }

    /// First phase of every vendor transaction: asks the device how many
    /// bytes the control at `(unit, selector)` carries.  The answer is a
    /// little-endian 16-bit count and holds for this transaction only.
    pub fn get_len(&self, unit: u8, selector: u8) -> (r: Result<u16, Error>)
        ensures
            r matches Err(e) ==> e is USBIOError,
    {
        let mut data: Vec<u8> = vec![0u8, 0u8];
        match self.handle.io(unit, selector, UVC_GET_LEN, &mut data) {
            Ok(()) => {
                let lo = data[0];
                let hi = data[1];
                Ok(le16(lo, hi))
            },
            Err(code) => Err(Error::USBIOError(code)),
        }
    }

    /// Reads the current value of a vendor control into `data`: queries
    /// the length first and refuses with `ProtocolError` any buffer
    /// smaller than the device-declared count.
    pub fn get_cur(&self, unit: u8, selector: u8, data: &mut Vec<u8>) -> (r: Result<(), Error>)
        ensures
            final(data)@.len() == old(data)@.len(),
            r matches Err(e) ==> channel_error(e),
    {
        let size = match self.get_len(unit, selector) {
            Ok(s) => s,
            Err(e) => {
                return Err(e);
            },
        };
        match check_get_length(data.len(), size) {
            Ok(()) => {},
            Err(e) => {
                return Err(e);
            },
        }
        match self.handle.io(unit, selector, UVC_GET_CUR, data) {
            Ok(()) => Ok(()),
            Err(code) => Err(Error::USBIOError(code)),
        }
    }

    /// Writes `data` as the current value of a vendor control: queries
    /// the length first and refuses with `ProtocolError` any payload
    /// larger than the device-declared count.
    pub fn set_cur(&self, unit: u8, selector: u8, data: &mut Vec<u8>) -> (r: Result<(), Error>)
        ensures
            final(data)@.len() == old(data)@.len(),
            r matches Err(e) ==> channel_error(e),
    {
        let size = match self.get_len(unit, selector) {
            Ok(s) => s,
            Err(e) => {
                return Err(e);
            },
        };
        match check_set_length(data.len(), size) {
            Ok(()) => {},
            Err(e) => {
                return Err(e);
            },
        }
        match self.handle.io(unit, selector, UVC_SET_CUR, data) {
            Ok(()) => Ok(()),
            Err(code) => Err(Error::USBIOError(code)),
        }
    }

    /// Sends a semantic command: zero-fills it into the fixed 60-byte
    /// working buffer and writes it as the control's current value.
    pub fn send_cmd(&self, unit: u8, selector: u8, cmd: &Vec<u8>) -> (r: Result<(), Error>)
        requires
            cmd@.len() <= MAX_PAYLOAD_LEN,
        ensures
            r matches Err(e) ==> channel_error(e),
    {
        let mut data = pad_command(cmd);
        self.set_cur(unit, selector, &mut data)
    }

    /// Reads and decodes a fresh status snapshot; nothing is cached.
    pub fn get_status(&self) -> (r: Result<CameraStatus, Error>)
        ensures
            r matches Err(e) ==> channel_error(e) || e is DecodeError,
    {
        let empty: Vec<u8> = Vec::new();
        let mut data = pad_command(&empty);
        match self.get_cur(XU_UNIT, SELECTOR_CONTROL, &mut data) {
            Ok(()) => {},
            Err(e) => {
                return Err(e);
            },
        }
        assert(data@.len() == STATUS_BLOCK_LEN);
        CameraStatus::decode(&data)
    }

    /// The raw 60-byte block of the tracking/HDR control bundle, for
    /// diagnostic rendering by the caller.
    pub fn dump(&self) -> (r: Result<Vec<u8>, Error>)
        ensures
            r matches Ok(b) ==> b@.len() == STATUS_BLOCK_LEN,
            r matches Err(e) ==> channel_error(e),
    {
        self.read_block(SELECTOR_CONTROL)
    }

    /// The raw 60-byte block of the exposure-parameter bundle, for
    /// diagnostic rendering by the caller.
    pub fn dump_02(&self) -> (r: Result<Vec<u8>, Error>)
        ensures
            r matches Ok(b) ==> b@.len() == STATUS_BLOCK_LEN,
            r matches Err(e) ==> channel_error(e),
    {
        self.read_block(SELECTOR_EXPOSURE)
    }

    /// Reads one control bundle into a fresh zero-filled working buffer.
    fn read_block(&self, selector: u8) -> (r: Result<Vec<u8>, Error>)
        ensures
            r matches Ok(b) ==> b@.len() == STATUS_BLOCK_LEN,
            r matches Err(e) ==> channel_error(e),
    {
        let empty: Vec<u8> = Vec::new();
        let mut data = pad_command(&empty);
        match self.get_cur(XU_UNIT, selector, &mut data) {
            Ok(()) => Ok(data),
            Err(e) => Err(e),
        }
    }

    /// Applies a field of view through the single fixed command.
    pub fn set_fov(&self, mode: FOVMode) -> (r: Result<(), Error>)
        ensures
            r matches Err(e) ==> channel_error(e),
    {
        let cmd = fov_command(mode);
        self.send_cmd(XU_UNIT, SELECTOR_CONTROL, &cmd)
    }

    /// Sends an operator-supplied hexadecimal payload verbatim to the
    /// chosen selector.  Exactly the ill-formed strings fail with
    /// `InvalidHex`; a payload beyond the 60-byte working buffer is
    /// refused with `ProtocolError` before anything is sent.
    pub fn send_raw(&self, selector: u8, hex_input: &Vec<u8>) -> (r: Result<(), Error>)
        ensures
            !valid_hex(hex_input@) ==> r == Err::<(), Error>(Error::InvalidHex),
            valid_hex(hex_input@) && hex_bytes(hex_input@).len() > MAX_PAYLOAD_LEN ==> r
                == Err::<(), Error>(Error::ProtocolError),
            r matches Err(e) ==> e is InvalidHex || channel_error(e),
    {
        let bytes = match parse_hex(hex_input) {
            Ok(b) => b,
            Err(e) => {
                return Err(e);
            },
        };
        if bytes.len() > MAX_PAYLOAD_LEN {
            return Err(Error::ProtocolError);
        }
        self.send_cmd(XU_UNIT, selector, &bytes)
    }

    /// The current value of a standard control, one round trip.
    pub fn get_value(&self, control_id: u32) -> (r: Result<i32, Error>)
        ensures
            r matches Err(e) ==> e is USBIOError,
    {
        match self.handle.get_value(control_id) {
            Ok(v) => Ok(v),
            Err(code) => Err(Error::USBIOError(code)),
        }
    }

    /// Sets a standard control, one round trip.
    pub fn set_value(&self, control_id: u32, value: i32) -> (r: Result<(), Error>)
        ensures
            r matches Err(e) ==> e is USBIOError,
    {
        match self.handle.set_value(control_id, value) {
            Ok(()) => Ok(()),
            Err(code) => Err(Error::USBIOError(code)),
        }
    }

    /// Queries the legal domain of a standard control.  A response whose
    /// disabled flag bit is set fails with `ControlUnsupported` whatever
    /// numeric fields it carries.
    pub fn query_range(&self, control_id: u32) -> (r: Result<ControlRange, Error>)
        ensures
            r matches Err(e) ==> e is ControlUnsupported || e is USBIOError,
    {
        match self.handle.query_raw_range(control_id) {
            Ok(raw) => decode_range(&raw),
            Err(code) => Err(Error::USBIOError(code)),
        }
    }

    /// The current absolute position of an axis.
    pub fn get_axis(&self, axis: Axis) -> (r: Result<i32, Error>)
        ensures
            r matches Err(e) ==> e is USBIOError,
    {
        self.get_value(axis_control_id(axis))
    }

    /// Writes an absolute position to an axis.
    pub fn set_axis(&self, axis: Axis, value: i32) -> (r: Result<(), Error>)
        ensures
            r matches Err(e) ==> e is USBIOError,
    {
        self.set_value(axis_control_id(axis), value)
    }

    /// The legal domain of an axis.
    pub fn query_axis_range(&self, axis: Axis) -> (r: Result<ControlRange, Error>)
        ensures
            r matches Err(e) ==> e is ControlUnsupported || e is USBIOError,
    {
        self.query_range(axis_control_id(axis))
    }

    /// Moves an axis by `delta`: reads the current position, adds the
    /// delta (clamped only to the machine range of the value), writes the
    /// target back, and returns the target it wrote.
    pub fn move_axis_relative(&self, axis: Axis, delta: i32) -> (r: Result<i32, Error>)
        ensures
            r matches Err(e) ==> e is USBIOError,
    {
        let cid = axis_control_id(axis);
        let current = match self.get_value(cid) {
            Ok(v) => v,
            Err(e) => {
                return Err(e);
            },
        };
        let target = relative_target(current, delta);
        match self.set_value(cid, target) {
            Ok(()) => Ok(target),
            Err(e) => Err(e),
        }
    }
}

impl<H: UvcUsbIo> OBSBotWebCam for Camera<H> {
    fn set_ai_mode(&self, mode: AIMode) -> (r: Result<(), Error>) {
        let cmd = ai_mode_command(mode);
        self.send_cmd(XU_UNIT, SELECTOR_CONTROL, &cmd)
    }

    fn get_ai_mode(&self) -> (r: Result<AIMode, Error>) {
        match self.get_status() {
            Ok(status) => Ok(status.ai_mode),
            Err(e) => Err(e),
        }
    }

    fn set_hdr_mode(&self, mode: bool) -> (r: Result<(), Error>) {
        let cmd = hdr_command(mode);
        self.send_cmd(XU_UNIT, SELECTOR_CONTROL, &cmd)
    }

    fn set_exposure_mode(&self, mode: ExposureMode) -> (r: Result<(), Error>) {
        let reqs = exposure_requests(mode);
        let mut i: usize = 0;
        while i < reqs.len()
            invariant
                i <= reqs@.len(),
                forall|k: int|
                    0 <= k < reqs@.len() ==> (#[trigger] reqs@[k]).data@.len() <= MAX_PAYLOAD_LEN,
            decreases reqs@.len() - i,
        {
            let req = &reqs[i];
            match self.send_cmd(req.unit, req.selector, &req.data) {
                Ok(()) => {},
                Err(e) => {
                    return Err(e);
                },
            }
            i = i + 1;
        }
        Ok(())
    }
}

} // verus!
