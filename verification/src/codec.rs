//! Decoding of the fixed-size status block and of control-range queries.

use vstd::prelude::*;

use crate::Error;
use crate::modes::AIMode;

verus! {

/// Length in bytes of the status block the camera returns.
pub const STATUS_BLOCK_LEN: usize = 60;

/// Offset of the main tracking-mode byte in the status block.
pub const STATUS_MODE_OFFSET: usize = 0x18;

/// Offset of the tracking-submode byte in the status block.
pub const STATUS_SUBMODE_OFFSET: usize = 0x1c;

/// Offset of the HDR byte in the status block; HDR is on iff it is nonzero.
pub const STATUS_HDR_OFFSET: usize = 0x6;

/// A decoded snapshot of the camera's tracking and HDR state.
///
/// It has no identity of its own: it is recomputed from a fresh status
/// block on every read and never cached.
#[derive(Debug, Clone, Copy, PartialEq, Eq, Structural)]
pub struct CameraStatus {
    pub ai_mode: AIMode,
    pub hdr_on: bool,
}

/// The fixed table from a status byte pair to a tracking mode.
///
/// Any pair outside the table decodes to `None`.
pub open spec fn mode_of_pair(m: u8, n: u8) -> Option<AIMode> {
    match (m, n) {
        (0u8, 0u8) => Some(AIMode::NoTracking),
        (2u8, 0u8) => Some(AIMode::NormalTracking),
        (2u8, 1u8) => Some(AIMode::UpperBody),
        (2u8, 2u8) => Some(AIMode::CloseUp),
        (2u8, 3u8) => Some(AIMode::Headless),
        (2u8, 4u8) => Some(AIMode::LowerBody),
        (5u8, 0u8) => Some(AIMode::DeskMode),
        (4u8, 0u8) => Some(AIMode::Whiteboard),
        (6u8, 0u8) => Some(AIMode::Hand),
        (1u8, 0u8) => Some(AIMode::Group),
        _ => None,
    }
}

/// The inverse of [`mode_of_pair`]: the byte pair that names each mode.
pub open spec fn pair_of_mode(mode: AIMode) -> (u8, u8) {
    match mode {
        AIMode::NoTracking => (0u8, 0u8),
        AIMode::NormalTracking => (2u8, 0u8),
        AIMode::UpperBody => (2u8, 1u8),
        AIMode::CloseUp => (2u8, 2u8),
        AIMode::Headless => (2u8, 3u8),
        AIMode::LowerBody => (2u8, 4u8),
        AIMode::DeskMode => (5u8, 0u8),
        AIMode::Whiteboard => (4u8, 0u8),
        AIMode::Hand => (6u8, 0u8),
        AIMode::Group => (1u8, 0u8),
    }
}

/// The byte pair that names `mode`, as executable code.
pub fn ai_mode_pair(mode: AIMode) -> (p: (u8, u8))
    ensures
        p == pair_of_mode(mode),
{
    match mode {
        AIMode::NoTracking => (0u8, 0u8),
        AIMode::NormalTracking => (2u8, 0u8),
        AIMode::UpperBody => (2u8, 1u8),
        AIMode::CloseUp => (2u8, 2u8),
        AIMode::Headless => (2u8, 3u8),
        AIMode::LowerBody => (2u8, 4u8),
        AIMode::DeskMode => (5u8, 0u8),
        AIMode::Whiteboard => (4u8, 0u8),
        AIMode::Hand => (6u8, 0u8),
        AIMode::Group => (1u8, 0u8),
    }
}

/// A synthetic status block that reports `mode` and HDR off: zero
/// everywhere but at the two mode offsets.
pub open spec fn synthetic_status(mode: AIMode) -> Seq<u8> {
    Seq::new(
        STATUS_BLOCK_LEN as nat,
        |i: int|
            if i == STATUS_MODE_OFFSET {
                pair_of_mode(mode).0
            } else if i == STATUS_SUBMODE_OFFSET {
                pair_of_mode(mode).1
            } else {
                0u8
            },
    )
}

/// Builds the synthetic status block of [`synthetic_status`].
pub fn encode_status_block(mode: AIMode) -> (b: Vec<u8>)
    ensures
        b@ =~= synthetic_status(mode),
        b@.len() == STATUS_BLOCK_LEN,
{
    let mut b: Vec<u8> = Vec::new();
    while b.len() < STATUS_BLOCK_LEN
        invariant
            b@.len() <= STATUS_BLOCK_LEN,
            forall|i: int| 0 <= i < b@.len() ==> b@[i] == 0u8,
        decreases STATUS_BLOCK_LEN - b@.len(),
    {
        b.push(0u8);
    }
    let pair = ai_mode_pair(mode);
    b.set(STATUS_MODE_OFFSET, pair.0);
    b.set(STATUS_SUBMODE_OFFSET, pair.1);
    b
}

/// Every tracking mode survives the round trip through a synthetic status
/// block: placing the mode's byte pair at the mode offsets and reading it
/// back through the decode table yields the same mode.
pub proof fn lemma_status_round_trip(mode: AIMode)
    ensures
        mode_of_pair(
            synthetic_status(mode)[STATUS_MODE_OFFSET as int],
            synthetic_status(mode)[STATUS_SUBMODE_OFFSET as int],
        ) == Some(mode),
{
}

impl CameraStatus {
    /// Decodes a status block: the byte pair at the mode offsets names the
    /// tracking mode through the fixed table, and HDR is on iff the HDR
    /// byte is nonzero.  A pair outside the table is a `DecodeError`.
    pub fn decode(bytes: &Vec<u8>) -> (r: Result<CameraStatus, Error>)
        requires
            bytes@.len() == STATUS_BLOCK_LEN,
        ensures
            match r {
                Ok(st) => mode_of_pair(bytes@[STATUS_MODE_OFFSET as int], bytes@[STATUS_SUBMODE_OFFSET as int])
                    == Some(st.ai_mode) && st.hdr_on == (bytes@[STATUS_HDR_OFFSET as int] != 0),
                Err(e) => mode_of_pair(bytes@[STATUS_MODE_OFFSET as int], bytes@[STATUS_SUBMODE_OFFSET as int])
                    is None && e == Error::DecodeError,
            },
    {
        let m = bytes[STATUS_MODE_OFFSET];
        let n = bytes[STATUS_SUBMODE_OFFSET];

        let ai_mode = match (m, n) {
            (0u8, 0u8) => AIMode::NoTracking,
            (2u8, 0u8) => AIMode::NormalTracking,
            (2u8, 1u8) => AIMode::UpperBody,
            (2u8, 2u8) => AIMode::CloseUp,
            (2u8, 3u8) => AIMode::Headless,
            (2u8, 4u8) => AIMode::LowerBody,
            (5u8, 0u8) => AIMode::DeskMode,
            (4u8, 0u8) => AIMode::Whiteboard,
            (6u8, 0u8) => AIMode::Hand,
            (1u8, 0u8) => AIMode::Group,
            _ => {
                return Err(Error::DecodeError);
            },
        };

        let hdr_on = bytes[STATUS_HDR_OFFSET] != 0;

        Ok(CameraStatus { ai_mode, hdr_on })
    }
}

/// The flag bit with which the device marks a standard control disabled.
pub const CTRL_FLAG_DISABLED: u32 = 0x0001;

/// The raw answer to a standard-control range query, before decoding.
#[derive(Debug, Clone, Copy, PartialEq, Eq, Structural)]
pub struct RawRange {
    pub minimum: i32,
    pub maximum: i32,
    pub step: i32,
    pub default_value: i32,
    pub flags: u32,
}

/// The legal domain of a standard axis control, captured once per query.
#[derive(Debug, Clone, Copy, PartialEq, Eq, Structural)]
pub struct ControlRange {
    pub minimum: i32,
    pub maximum: i32,
    pub step: i32,
    pub default_value: i32,
}

/// Decodes a range query: the numeric fields pass through unchanged, but a
/// response whose disabled flag bit is set fails with `ControlUnsupported`
/// whatever its numeric fields hold.
pub fn decode_range(raw: &RawRange) -> (r: Result<ControlRange, Error>)
    ensures
        raw.flags & CTRL_FLAG_DISABLED != 0 ==> r == Err::<ControlRange, Error>(
            Error::ControlUnsupported,
        ),
        raw.flags & CTRL_FLAG_DISABLED == 0 ==> r == Ok::<ControlRange, Error>(
            (ControlRange {
                minimum: raw.minimum,
                maximum: raw.maximum,
                step: raw.step,
                default_value: raw.default_value,
            }),
        ),
{
    if raw.flags & CTRL_FLAG_DISABLED != 0 {
        Err(Error::ControlUnsupported)
    } else {
        Ok(
            ControlRange {
                minimum: raw.minimum,
                maximum: raw.maximum,
                step: raw.step,
                default_value: raw.default_value,
            },
        )
    }
}

} // verus!
