//! The device-facing interface: the I/O capability trait, the request
//! codes of the vendor extension-unit protocol, and the plain data shapes
//! exchanged with the kernel video-capture interface.

use vstd::prelude::*;

use crate::codec::RawRange;

verus! {

/// Request code: set the current value of a vendor control.
pub const UVC_SET_CUR: u8 = 0x01;

/// Request code: get the current value of a vendor control.
pub const UVC_GET_CUR: u8 = 0x81;

/// Request code: query the byte length of a vendor control.
pub const UVC_GET_LEN: u8 = 0x85;

/// Capability metadata a video device node reports about itself.
///
/// The locator matches the `card` and `bus_info` strings against the
/// caller's hint and reads `device_caps` for the metadata-only bit.
#[allow(non_camel_case_types)]
#[derive(Debug)]
pub struct v4l2_capability {
    pub driver: Vec<u8>,
    pub card: Vec<u8>,
    pub bus_info: Vec<u8>,
    pub version: u32,
    pub capabilities: u32,
    pub device_caps: u32,
    pub reserved: Vec<u32>,
}

/// One wire-level request against a vendor extension unit: the (unit,
/// selector) pair that addresses the control entity, the request code,
/// and the payload with its declared size.
#[allow(non_camel_case_types)]
#[derive(Debug, PartialEq, Eq)]
pub struct uvc_xu_control_query {
    pub unit: u8,
    pub selector: u8,
    pub query: u8,
    pub size: u16,
    pub data: Vec<u8>,
}

/// One entry of a menu-type control mapping.
#[allow(non_camel_case_types)]
#[derive(Debug)]
pub struct uvc_menu_info {
    pub name: Vec<u8>,
    pub value: u32,
}

/// A mapping that publishes a vendor control under a standard control id.
#[allow(non_camel_case_types)]
#[derive(Debug)]
pub struct uvc_xu_control_mapping {
    pub id: u32,
    pub name: Vec<u8>,
    pub entity: u8,
    pub selector: u8,
    pub size: u16,
    pub offset: u16,
    pub v4l2_type: u32,
    pub data_type: u32,
    pub uvc_menu_info: u32,
    pub uvc_menu_count: u32,
}

/// The wire protocols of one open camera device, behind a single handle.
///
/// The library never performs I/O itself: an implementation of this trait
/// carries the vendor extension-unit requests and the standard-control
/// requests to the device and reports the OS error code of a failure
/// verbatim.  Each call is one synchronous round trip; nothing is promised
/// of the bytes a device chooses to answer, and every caller in this crate
/// is verified against every possible answer.
pub trait UvcUsbIo {
    /// One vendor extension-unit request.  The payload buffer is read or
    /// filled in place; an implementation must leave its length unchanged.
    fn io(&self, unit: u8, selector: u8, query: u8, data: &mut Vec<u8>) -> (r: Result<(), i32>)
        ensures
            final(data)@.len() == old(data)@.len(),
    ;

    /// The capability metadata of the device node.
    fn info(&self) -> (r: Result<v4l2_capability, i32>);

    /// The current value of a standard control, one round trip.
    fn get_value(&self, control_id: u32) -> (r: Result<i32, i32>);

    /// Sets a standard control to `value`, one round trip.
    fn set_value(&self, control_id: u32, value: i32) -> (r: Result<(), i32>);

    /// The raw, undecoded answer to a standard-control range query.
    fn query_raw_range(&self, control_id: u32) -> (r: Result<RawRange, i32>);
}

} // verus!
