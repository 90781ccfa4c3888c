//! Device matching and the blocking-open decision rule.

use tiny2::{Error, contains_bytes, device_matches, locate_device, poll_step, select_device, v4l2_capability};

fn cap(card: &str, bus: &str, device_caps: u32) -> v4l2_capability {
    v4l2_capability {
        driver: b"uvcvideo".to_vec(),
        card: card.as_bytes().to_vec(),
        bus_info: bus.as_bytes().to_vec(),
        version: 0,
        capabilities: 0,
        device_caps,
        reserved: vec![0, 0, 0],
    }
}

#[test]
fn substring_search_finds_contiguous_bytes() {
    assert!(contains_bytes(&b"OBSBOT Tiny 2".to_vec(), &b"Tiny".to_vec()));
    assert!(contains_bytes(&b"OBSBOT Tiny 2".to_vec(), &b"OBSBOT Tiny 2".to_vec()));
    assert!(contains_bytes(&b"OBSBOT Tiny 2".to_vec(), &b"".to_vec()));
    assert!(!contains_bytes(&b"OBSBOT Tiny 2".to_vec(), &b"Tiny 22".to_vec()));
    assert!(!contains_bytes(&b"Tiny".to_vec(), &b"OBSBOT Tiny".to_vec()));
}

#[test]
fn matching_is_case_sensitive() {
    let device = cap("OBSBOT Tiny 2", "usb-0000:00:14.0-1", 0);
    assert!(device_matches(&device, &b"OBSBOT".to_vec()));
    assert!(!device_matches(&device, &b"obsbot".to_vec()));
    assert!(!device_matches(&device, &b"TINY".to_vec()));
}

#[test]
fn bus_string_matches_too() {
    let device = cap("OBSBOT Tiny 2", "usb-0000:00:14.0-1", 0);
    assert!(device_matches(&device, &b"usb-0000".to_vec()));
}

#[test]
fn metadata_only_node_never_matches() {
    // Two nodes of one physical webcam share the card name; only the
    // capture-capable one (without the metadata bit) may be returned.
    let metadata_node = cap("OBSBOT Tiny 2", "usb-0000:00:14.0-1", 0x800000);
    let capture_node = cap("OBSBOT Tiny 2", "usb-0000:00:14.0-1", 0);

    assert!(!device_matches(&metadata_node, &b"OBSBOT Tiny 2".to_vec()));
    assert!(device_matches(&capture_node, &b"OBSBOT Tiny 2".to_vec()));

    let candidates = vec![metadata_node, capture_node];
    assert_eq!(select_device(&candidates, &b"OBSBOT Tiny 2".to_vec()), Some(1));
}

#[test]
fn first_matching_candidate_wins() {
    let candidates = vec![
        cap("Integrated Camera", "usb-0000:00:14.0-7", 0),
        cap("OBSBOT Tiny 2", "usb-0000:00:14.0-1", 0),
        cap("OBSBOT Tiny 2", "usb-0000:00:14.0-2", 0),
    ];
    assert_eq!(select_device(&candidates, &b"OBSBOT".to_vec()), Some(1));
    assert_eq!(select_device(&candidates, &b"Camera".to_vec()), Some(0));
}

#[test]
fn exhausted_candidates_are_no_camera_found() {
    let candidates = vec![
        cap("Integrated Camera", "usb-0000:00:14.0-7", 0),
        cap("OBSBOT Tiny 2", "usb-0000:00:14.0-1", 0x800000),
    ];
    assert_eq!(locate_device(&candidates, &b"OBSBOT".to_vec()), Err(Error::NoCameraFound));
    assert_eq!(locate_device(&candidates, &b"Camera".to_vec()), Ok(0));
    let no_candidates: Vec<v4l2_capability> = Vec::new();
    assert_eq!(select_device(&no_candidates, &b"OBSBOT".to_vec()), None);
}

#[test]
fn poll_announces_waiting_once_and_found_after_a_wait() {
    // Immediate success: no notice at all.
    let first = poll_step(false, true);
    assert!(first.done);
    assert!(!first.announce_waiting);
    assert!(!first.announce_found);

    // First failure announces the wait.
    let miss = poll_step(false, false);
    assert!(!miss.done);
    assert!(miss.announce_waiting);
    assert!(!miss.announce_found);
    assert!(miss.waited);

    // Later failures stay silent.
    let again = poll_step(miss.waited, false);
    assert!(!again.announce_waiting);
    assert!(!again.announce_found);

    // Success after a wait announces the find, once.
    let found = poll_step(again.waited, true);
    assert!(found.done);
    assert!(!found.announce_waiting);
    assert!(found.announce_found);
}
