//! Device matching: which capture device node a human hint names.
//!
//! Opening device nodes and reading their capability metadata is I/O and
//! lives outside the library; the caller hands the candidates' metadata in
//! and this module decides, so the matching rules themselves are checked.

use vstd::prelude::*;

use crate::Error;
use crate::usbio::v4l2_capability;

verus! {

/// The device-capability bit that marks a metadata-only video node.
///
/// A single physical webcam can expose several video nodes; only the
/// capture-capable one accepts control transactions, so a node carrying
/// this bit is never matched.
pub const METADATA_CAPS_BIT: u32 = 0x800000;

/// `needle` stands in `hay` at position `i`.
pub open spec fn match_at(hay: Seq<u8>, needle: Seq<u8>, i: int) -> bool {
    &&& 0 <= i
    &&& i + needle.len() <= hay.len()
    &&& forall|j: int| 0 <= j < needle.len() ==> hay[i + j] == needle[j]
}

/// `needle` occurs somewhere in `hay` as a contiguous byte substring.
pub open spec fn contains_bytes_spec(hay: Seq<u8>, needle: Seq<u8>) -> bool {
    exists|i: int| match_at(hay, needle, i)
}

/// Whether a device with the given card string, bus string and capability
/// bits answers to `hint`: the hint occurs byte for byte (hence
/// case-sensitively) in the card name or in the bus string, and the device
/// is not a metadata-only node.
pub open spec fn hint_matches(
    card: Seq<u8>,
    bus_info: Seq<u8>,
    device_caps: u32,
    hint: Seq<u8>,
) -> bool {
    &&& (contains_bytes_spec(card, hint) || contains_bytes_spec(bus_info, hint))
    &&& device_caps & METADATA_CAPS_BIT == 0
}

/// Whether `needle` stands in `hay` at position `i`, as executable code.
fn matches_at(hay: &Vec<u8>, needle: &Vec<u8>, i: usize) -> (r: bool)
    requires
        i + needle@.len() <= hay@.len(),
    ensures
        r == match_at(hay@, needle@, i as int),
{
    let mut j: usize = 0;
    assert(hay.len() == hay@.len());
    while j < needle.len()
        invariant
            i + needle@.len() <= hay@.len(),
            hay@.len() <= usize::MAX,
            j <= needle@.len(),
            forall|t: int| 0 <= t < j ==> hay@[i + t] == needle@[t],
        decreases needle@.len() - j,
    {
        if hay[i + j] != needle[j] {
            assert(!match_at(hay@, needle@, i as int)) by {
                assert(hay@[i + j] != needle@[j as int]);
            }
            return false;
        }
        j = j + 1;
    }
    true
}

/// Case-sensitive byte-substring search: whether `needle` occurs
/// contiguously anywhere in `hay`.
pub fn contains_bytes(hay: &Vec<u8>, needle: &Vec<u8>) -> (r: bool)
    ensures
        r == contains_bytes_spec(hay@, needle@),
{
    if needle.len() > hay.len() {
        assert(forall|i: int| !match_at(hay@, needle@, i));
        return false;
    }
    if needle.len() == 0 {
        assert(match_at(hay@, needle@, 0));
        return true;
    }
    let last = hay.len() - needle.len();
    let mut i: usize = 0;
    assert(hay.len() == hay@.len());
    while i <= last
        invariant
            1 <= needle@.len() <= hay@.len(),
            hay@.len() <= usize::MAX,
            last == hay@.len() - needle@.len(),
            i <= last + 1,
            forall|k: int| 0 <= k < i ==> !match_at(hay@, needle@, k),
        decreases last + 1 - i,
    {
        if matches_at(hay, needle, i) {
            return true;
        }
        i = i + 1;
    }
    assert(forall|k: int| !match_at(hay@, needle@, k)) by {
        assert(forall|k: int| match_at(hay@, needle@, k) ==> 0 <= k <= last);
    }
    false
}

/// Whether one device's metadata answers to `hint`.
pub fn device_matches(cap: &v4l2_capability, hint: &Vec<u8>) -> (r: bool)
    ensures
        r == hint_matches(cap.card@, cap.bus_info@, cap.device_caps, hint@),
{
    (contains_bytes(&cap.card, hint) || contains_bytes(&cap.bus_info, hint))
        && cap.device_caps & METADATA_CAPS_BIT == 0
}

/// Picks the first candidate whose metadata answers to `hint`, in the
/// order the caller enumerated them; no later candidate is examined.
pub fn select_device(caps: &Vec<v4l2_capability>, hint: &Vec<u8>) -> (r: Option<usize>)
    ensures
        match r {
            Some(idx) => idx < caps@.len() && hint_matches(
                caps@[idx as int].card@,
                caps@[idx as int].bus_info@,
                caps@[idx as int].device_caps,
                hint@,
            ) && forall|k: int|
                0 <= k < idx ==> !hint_matches(
                    (#[trigger] caps@[k]).card@,
                    caps@[k].bus_info@,
                    caps@[k].device_caps,
                    hint@,
                ),
            None => forall|k: int|
                0 <= k < caps@.len() ==> !hint_matches(
                    (#[trigger] caps@[k]).card@,
                    caps@[k].bus_info@,
                    caps@[k].device_caps,
                    hint@,
                ),
        },
{
    let mut i: usize = 0;
    while i < caps.len()
        invariant
            i <= caps@.len(),
            forall|k: int|
                0 <= k < i ==> !hint_matches(
                    (#[trigger] caps@[k]).card@,
                    caps@[k].bus_info@,
                    caps@[k].device_caps,
                    hint@,
                ),
        decreases caps@.len() - i,
    {
        if device_matches(&caps[i], hint) {
            return Some(i);
        }
        i = i + 1;
    }
    None
}

/// The locator's verdict over a full enumeration: the first candidate
/// whose metadata answers to `hint`, or `NoCameraFound` once every
/// candidate is exhausted.
pub fn locate_device(caps: &Vec<v4l2_capability>, hint: &Vec<u8>) -> (r: Result<usize, Error>)
    ensures
        match r {
            Ok(idx) => idx < caps@.len() && hint_matches(
                caps@[idx as int].card@,
                caps@[idx as int].bus_info@,
                caps@[idx as int].device_caps,
                hint@,
            ) && forall|k: int|
                0 <= k < idx ==> !hint_matches(
                    (#[trigger] caps@[k]).card@,
                    caps@[k].bus_info@,
                    caps@[k].device_caps,
                    hint@,
                ),
            Err(e) => e == Error::NoCameraFound && forall|k: int|
                0 <= k < caps@.len() ==> !hint_matches(
                    (#[trigger] caps@[k]).card@,
                    caps@[k].bus_info@,
                    caps@[k].device_caps,
                    hint@,
                ),
        },
{
    match select_device(caps, hint) {
        Some(idx) => Ok(idx),
        None => Err(Error::NoCameraFound),
    }
}

/// One decision of the blocking device-wait loop.
#[derive(Debug, Clone, Copy, PartialEq, Eq, Structural)]
pub struct PollDecision {
    /// The wait is over: the device was found.
    pub done: bool,
    /// Announce once that the loop is waiting for the device.
    pub announce_waiting: bool,
    /// Announce once that the device was found after a wait.
    pub announce_found: bool,
    /// Whether the loop has waited at least once, carried to the next turn.
    pub waited: bool,
}

/// The decision rule of the blocking open: given whether the loop has
/// already waited and whether this attempt found the device, it stops
/// exactly on success, announces the wait on the first failure only, and
/// announces the find only after an announced wait.
pub fn poll_step(waited: bool, found: bool) -> (r: PollDecision)
    ensures
        r.done == found,
        r.announce_waiting == (!found && !waited),
        r.announce_found == (found && waited),
        r.waited == (waited || !found),
{
    PollDecision {
        done: found,
        announce_waiting: !found && !waited,
        announce_found: found && waited,
        waited: waited || !found,
    }
}

} // verus!
