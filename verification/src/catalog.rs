//! The command catalog: the pure mapping from each semantic camera
//! setting to the fixed byte sequences that carry it on the wire.

use vstd::prelude::*;

use crate::codec::pair_of_mode;
use crate::codec::ai_mode_pair;
use crate::modes::AIMode;
use crate::modes::ExposureMode;
use crate::modes::FOVMode;
use crate::usbio::UVC_SET_CUR;
use crate::usbio::uvc_xu_control_query;

verus! {

/// The extension unit that carries every vendor command of this device.
pub const XU_UNIT: u8 = 0x2;

/// Selector of the tracking / HDR / field-of-view control bundle.
pub const SELECTOR_CONTROL: u8 = 0x6;

/// Selector of the exposure-parameter bundle.
pub const SELECTOR_EXPOSURE: u8 = 0x2;

/// The longest payload a control of this device accepts.
pub const MAX_PAYLOAD_LEN: usize = 60;

/// The tracking-mode command: a fixed prefix and the mode's byte pair.
pub open spec fn ai_mode_payload(mode: AIMode) -> Seq<u8> {
    seq![0x16u8, 0x02u8, pair_of_mode(mode).0, pair_of_mode(mode).1]
}

/// The HDR on/off command.
pub open spec fn hdr_payload(on: bool) -> Seq<u8> {
    seq![0x01u8, 0x01u8, if on { 1u8 } else { 0u8 }]
}

/// The field-of-view command.
pub open spec fn fov_payload(mode: FOVMode) -> Seq<u8> {
    seq![
        0x04u8,
        0x01u8,
        match mode {
            FOVMode::Wide => 1u8,
            FOVMode::Normal => 2u8,
            FOVMode::Narrow => 3u8,
        },
    ]
}

/// The fixed opaque payload that switches the camera to automatic exposure.
pub open spec fn auto_exposure_payload() -> Seq<u8> {
    seq![
        0xaau8, 0x25u8, 0x16u8, 0x00u8, 0x0cu8, 0x00u8, 0x58u8, 0x91u8, 0x0au8, 0x02u8, 0x82u8,
        0x29u8, 0x05u8, 0x00u8, 0xb2u8, 0xafu8, 0x02u8, 0x04u8,
    ]
}

/// The fixed opaque payload that switches the camera to manual exposure.
pub open spec fn manual_exposure_payload() -> Seq<u8> {
    seq![
        0xaau8, 0x25u8, 0x15u8, 0x00u8, 0x0cu8, 0x00u8, 0xa8u8, 0x9eu8, 0x0au8, 0x02u8, 0x82u8,
        0x29u8, 0x05u8, 0x00u8, 0xf9u8, 0x27u8, 0x01u8, 0x32u8,
    ]
}

/// The mode-select payload that follows the automatic-exposure payload:
/// its last byte picks global (0) or face-priority (1) metering.
pub open spec fn exposure_select_payload(face: bool) -> Seq<u8> {
    seq![0x03u8, 0x01u8, if face { 1u8 } else { 0u8 }]
}

/// `req` is the "set current value" request that carries `payload` to
/// `(unit, selector)`.
pub open spec fn is_set_request(req: uvc_xu_control_query, unit: u8, selector: u8, payload: Seq<
    u8,
>) -> bool {
    &&& req.unit == unit
    &&& req.selector == selector
    &&& req.query == UVC_SET_CUR
    &&& req.size == payload.len()
    &&& req.data@ == payload
}

/// Builds the tracking-mode command bytes.
pub fn ai_mode_command(mode: AIMode) -> (cmd: Vec<u8>)
    ensures
        cmd@ == ai_mode_payload(mode),
{
    let pair = ai_mode_pair(mode);
    let cmd: Vec<u8> = vec![0x16u8, 0x02u8, pair.0, pair.1];
    proof {
        assert(cmd@ =~= ai_mode_payload(mode));
    }
    cmd
}

/// Builds the HDR command bytes.
pub fn hdr_command(on: bool) -> (cmd: Vec<u8>)
    ensures
        cmd@ == hdr_payload(on),
{
    let last: u8 = if on {
        1
    } else {
        0
    };
    let cmd: Vec<u8> = vec![0x01u8, 0x01u8, last];
    proof {
        assert(cmd@ =~= hdr_payload(on));
    }
    cmd
}

/// Builds the field-of-view command bytes.
pub fn fov_command(mode: FOVMode) -> (cmd: Vec<u8>)
    ensures
        cmd@ == fov_payload(mode),
{
    let last: u8 = match mode {
        FOVMode::Wide => 1,
        FOVMode::Normal => 2,
        FOVMode::Narrow => 3,
    };
    let cmd: Vec<u8> = vec![0x04u8, 0x01u8, last];
    proof {
        assert(cmd@ =~= fov_payload(mode));
    }
    cmd
}

/// Builds the automatic-exposure payload.
pub fn auto_exposure_command() -> (cmd: Vec<u8>)
    ensures
        cmd@ == auto_exposure_payload(),
{
    let cmd: Vec<u8> = vec![
        0xaau8, 0x25u8, 0x16u8, 0x00u8, 0x0cu8, 0x00u8, 0x58u8, 0x91u8, 0x0au8, 0x02u8, 0x82u8,
        0x29u8, 0x05u8, 0x00u8, 0xb2u8, 0xafu8, 0x02u8, 0x04u8,
    ];
    proof {
        assert(cmd@ =~= auto_exposure_payload());
    }
    cmd
}

/// Builds the manual-exposure payload.
pub fn manual_exposure_command() -> (cmd: Vec<u8>)
    ensures
        cmd@ == manual_exposure_payload(),
{
    let cmd: Vec<u8> = vec![
        0xaau8, 0x25u8, 0x15u8, 0x00u8, 0x0cu8, 0x00u8, 0xa8u8, 0x9eu8, 0x0au8, 0x02u8, 0x82u8,
        0x29u8, 0x05u8, 0x00u8, 0xf9u8, 0x27u8, 0x01u8, 0x32u8,
    ];
    proof {
        assert(cmd@ =~= manual_exposure_payload());
    }
    cmd
}

/// The wire requests of an exposure-mode change, in sending order.
///
/// Manual metering is one request to the exposure-parameter bundle.
/// Global and face-priority metering are exactly two requests: first the
/// fixed automatic-exposure payload to the exposure-parameter bundle,
/// then the mode-select payload to the control bundle, whose last byte
/// alone tells the two apart.  The requests are sent one by one and are
/// not atomic: a failure in the second leaves the first applied.
pub fn exposure_requests(mode: ExposureMode) -> (reqs: Vec<uvc_xu_control_query>)
    ensures
        mode == ExposureMode::Manual ==> reqs@.len() == 1 && is_set_request(
            reqs@[0],
            XU_UNIT,
            SELECTOR_EXPOSURE,
            manual_exposure_payload(),
        ),
        mode == ExposureMode::Global ==> reqs@.len() == 2 && is_set_request(
            reqs@[0],
            XU_UNIT,
            SELECTOR_EXPOSURE,
            auto_exposure_payload(),
        ) && is_set_request(reqs@[1], XU_UNIT, SELECTOR_CONTROL, exposure_select_payload(false)),
        mode == ExposureMode::Face ==> reqs@.len() == 2 && is_set_request(
            reqs@[0],
            XU_UNIT,
            SELECTOR_EXPOSURE,
            auto_exposure_payload(),
        ) && is_set_request(reqs@[1], XU_UNIT, SELECTOR_CONTROL, exposure_select_payload(true)),
        forall|i: int| 0 <= i < reqs@.len() ==> #[trigger] reqs@[i].data@.len() <= MAX_PAYLOAD_LEN,
{
    let mut reqs: Vec<uvc_xu_control_query> = Vec::new();
    match mode {
        ExposureMode::Manual => {
            let data = manual_exposure_command();
            reqs.push(
                uvc_xu_control_query {
                    unit: XU_UNIT,
                    selector: SELECTOR_EXPOSURE,
                    query: UVC_SET_CUR,
                    size: 18,
                    data,
                },
            );
        },
        ExposureMode::Global => {
            let data = auto_exposure_command();
            reqs.push(
                uvc_xu_control_query {
                    unit: XU_UNIT,
                    selector: SELECTOR_EXPOSURE,
                    query: UVC_SET_CUR,
                    size: 18,
                    data,
                },
            );
            let select: Vec<u8> = vec![0x03u8, 0x01u8, 0x00u8];
            proof {
                assert(select@ =~= exposure_select_payload(false));
            }
            reqs.push(
                uvc_xu_control_query {
                    unit: XU_UNIT,
                    selector: SELECTOR_CONTROL,
                    query: UVC_SET_CUR,
                    size: 3,
                    data: select,
                },
            );
        },
        ExposureMode::Face => {
            let data = auto_exposure_command();
            reqs.push(
                uvc_xu_control_query {
                    unit: XU_UNIT,
                    selector: SELECTOR_EXPOSURE,
                    query: UVC_SET_CUR,
                    size: 18,
                    data,
                },
            );
            let select: Vec<u8> = vec![0x03u8, 0x01u8, 0x01u8];
            proof {
                assert(select@ =~= exposure_select_payload(true));
            }
            reqs.push(
                uvc_xu_control_query {
                    unit: XU_UNIT,
                    selector: SELECTOR_CONTROL,
                    query: UVC_SET_CUR,
                    size: 3,
                    data: select,
                },
            );
        },
    }
    reqs
}

/// Zero-fills a semantic payload into the fixed 60-byte working buffer:
/// the payload stands at the front, every trailing byte is zero.
pub fn pad_command(cmd: &Vec<u8>) -> (data: Vec<u8>)
    requires
        cmd@.len() <= MAX_PAYLOAD_LEN,
    ensures
        data@.len() == MAX_PAYLOAD_LEN,
        forall|i: int| 0 <= i < cmd@.len() ==> data@[i] == cmd@[i],
        forall|i: int| cmd@.len() <= i < MAX_PAYLOAD_LEN ==> data@[i] == 0u8,
{
    let mut data: Vec<u8> = Vec::new();
    let mut i: usize = 0;
    while i < cmd.len()
        invariant
            i <= cmd@.len() <= MAX_PAYLOAD_LEN,
            data@.len() == i,
            forall|j: int| 0 <= j < i ==> data@[j] == cmd@[j],
        decreases cmd@.len() - i,
    {
        data.push(cmd[i]);
        i = i + 1;
    }
    while data.len() < MAX_PAYLOAD_LEN
        invariant
            cmd@.len() <= data@.len() <= MAX_PAYLOAD_LEN,
            forall|j: int| 0 <= j < cmd@.len() ==> data@[j] == cmd@[j],
            forall|j: int| cmd@.len() <= j < data@.len() ==> data@[j] == 0u8,
        decreases MAX_PAYLOAD_LEN - data@.len(),
    {
        data.push(0u8);
    }
    data
}

} // verus!
