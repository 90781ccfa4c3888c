//! The two-phase transaction protocol and the camera facade, driven
//! against an in-memory device.

use std::cell::RefCell;
use std::rc::Rc;

use tiny2::{
    AIMode, Axis, Camera, CameraStatus, ControlRange, Error, ExposureMode, OBSBotWebCam, RawRange,
    UvcUsbIo, check_get_length, check_set_length, le16, relative_target, v4l2_capability,
};

const GET_LEN: u8 = 0x85;
const GET_CUR: u8 = 0x81;
const SET_CUR: u8 = 0x01;

/// An in-memory device: answers length queries with a fixed declared
/// length, reads with a fixed block, and records every write.
struct FakeDevice {
    declared_len: u16,
    block: Vec<u8>,
    io_error: Option<i32>,
    writes: Rc<RefCell<Vec<(u8, u8, Vec<u8>)>>>,
    value: i32,
    value_writes: Rc<RefCell<Vec<(u32, i32)>>>,
    raw_range: Result<RawRange, i32>,
}

impl FakeDevice {
    fn new(declared_len: u16) -> FakeDevice {
        FakeDevice {
            declared_len,
            block: vec![0u8; 60],
            io_error: None,
            writes: Rc::new(RefCell::new(Vec::new())),
            value: 0,
            value_writes: Rc::new(RefCell::new(Vec::new())),
            raw_range: Err(22),
        }
    }
}

impl UvcUsbIo for FakeDevice {
    fn io(&self, unit: u8, selector: u8, query: u8, data: &mut Vec<u8>) -> Result<(), i32> {
        if let Some(code) = self.io_error {
            return Err(code);
        }
        match query {
            GET_LEN => {
                let bytes = self.declared_len.to_le_bytes();
                data[0] = bytes[0];
                data[1] = bytes[1];
                Ok(())
            }
            GET_CUR => {
                for i in 0..data.len() {
                    data[i] = if i < self.block.len() { self.block[i] } else { 0 };
                }
                Ok(())
            }
            SET_CUR => {
                self.writes.borrow_mut().push((unit, selector, data.clone()));
                Ok(())
            }
            _ => Err(22),
        }
    }

    fn info(&self) -> Result<v4l2_capability, i32> {
        Ok(v4l2_capability {
            driver: b"uvcvideo".to_vec(),
            card: b"OBSBOT Tiny 2".to_vec(),
            bus_info: b"usb-0000:00:14.0-1".to_vec(),
            version: 0,
            capabilities: 0,
            device_caps: 0,
            reserved: vec![0, 0, 0],
        })
    }

    fn get_value(&self, _control_id: u32) -> Result<i32, i32> {
        Ok(self.value)
    }

    fn set_value(&self, control_id: u32, value: i32) -> Result<(), i32> {
        self.value_writes.borrow_mut().push((control_id, value));
        Ok(())
    }

    fn query_raw_range(&self, _control_id: u32) -> Result<RawRange, i32> {
        self.raw_range
    }
}

#[test]
fn get_refuses_a_buffer_smaller_than_the_declared_length() {
    let camera = Camera::new(FakeDevice::new(18));
    let mut buffer = vec![0u8; 10];
    assert_eq!(camera.get_cur(0x2, 0x6, &mut buffer), Err(Error::ProtocolError));
}

#[test]
fn set_refuses_a_buffer_larger_than_the_declared_length() {
    let camera = Camera::new(FakeDevice::new(18));
    let mut buffer = vec![0u8; 30];
    assert_eq!(camera.set_cur(0x2, 0x6, &mut buffer), Err(Error::ProtocolError));
}

#[test]
fn negotiation_passes_when_the_buffer_fits() {
    let camera = Camera::new(FakeDevice::new(18));
    let mut get_buffer = vec![0u8; 18];
    assert_eq!(camera.get_cur(0x2, 0x6, &mut get_buffer), Ok(()));
    let mut set_buffer = vec![0u8; 18];
    assert_eq!(camera.set_cur(0x2, 0x6, &mut set_buffer), Ok(()));
}

#[test]
fn length_checks_are_exact() {
    assert_eq!(check_get_length(10, 18), Err(Error::ProtocolError));
    assert_eq!(check_get_length(18, 18), Ok(()));
    assert_eq!(check_get_length(60, 18), Ok(()));
    assert_eq!(check_set_length(30, 18), Err(Error::ProtocolError));
    assert_eq!(check_set_length(18, 18), Ok(()));
    assert_eq!(check_set_length(3, 18), Ok(()));
}

#[test]
fn declared_length_is_read_little_endian() {
    let camera = Camera::new(FakeDevice::new(0x0112));
    assert_eq!(camera.get_len(0x2, 0x6), Ok(0x0112));
    assert_eq!(le16(0x12, 0x01), 0x0112);
    assert_eq!(le16(60, 0), 60);
}

#[test]
fn io_error_codes_pass_through_verbatim() {
    let mut device = FakeDevice::new(60);
    device.io_error = Some(71);
    let camera = Camera::new(device);
    assert_eq!(camera.get_status(), Err(Error::USBIOError(71)));
    assert_eq!(camera.send_cmd(0x2, 0x6, &vec![0x01, 0x01, 0x01]), Err(Error::USBIOError(71)));
}

#[test]
fn send_cmd_pads_the_payload_to_sixty_zero_filled_bytes() {
    let device = FakeDevice::new(60);
    let recorded = Rc::clone(&device.writes);
    let camera = Camera::new(device);
    camera.send_cmd(0x2, 0x6, &vec![0x16, 0x02, 0x06, 0x00]).unwrap();
    let writes = recorded.borrow();
    assert_eq!(writes.len(), 1);
    let (unit, selector, data) = &writes[0];
    assert_eq!((*unit, *selector), (0x2, 0x6));
    assert_eq!(data.len(), 60);
    assert_eq!(&data[..4], &[0x16, 0x02, 0x06, 0x00]);
    assert!(data[4..].iter().all(|&b| b == 0));
}

#[test]
fn status_is_decoded_from_the_device_block() {
    let mut device = FakeDevice::new(60);
    device.block[0x18] = 2;
    device.block[0x1c] = 1;
    device.block[0x6] = 5;
    let camera = Camera::new(device);
    assert_eq!(
        camera.get_status(),
        Ok(CameraStatus { ai_mode: AIMode::UpperBody, hdr_on: true })
    );
    assert_eq!(camera.get_ai_mode(), Ok(AIMode::UpperBody));
}

#[test]
fn unknown_status_pair_is_a_decode_error() {
    let mut device = FakeDevice::new(60);
    device.block[0x18] = 7;
    let camera = Camera::new(device);
    assert_eq!(camera.get_status(), Err(Error::DecodeError));
}

#[test]
fn global_exposure_sends_two_requests_in_order() {
    let device = FakeDevice::new(60);
    let recorded = Rc::clone(&device.writes);
    let camera = Camera::new(device);
    camera.set_exposure_mode(ExposureMode::Global).unwrap();
    let writes = recorded.borrow();
    assert_eq!(writes.len(), 2);
    assert_eq!((writes[0].0, writes[0].1), (0x2, 0x2));
    assert_eq!(&writes[0].2[..18], &[
        0xaa, 0x25, 0x16, 0x00, 0x0c, 0x00, 0x58, 0x91, 0x0a, 0x02, 0x82, 0x29, 0x05, 0x00,
        0xb2, 0xaf, 0x02, 0x04,
    ]);
    assert_eq!((writes[1].0, writes[1].1), (0x2, 0x6));
    assert_eq!(&writes[1].2[..3], &[0x03, 0x01, 0x00]);
}

#[test]
fn tracking_and_hdr_commands_reach_the_control_bundle() {
    let device = FakeDevice::new(60);
    let recorded = Rc::clone(&device.writes);
    let camera = Camera::new(device);
    camera.set_ai_mode(AIMode::DeskMode).unwrap();
    camera.set_hdr_mode(true).unwrap();
    let writes = recorded.borrow();
    assert_eq!(writes.len(), 2);
    assert_eq!((writes[0].0, writes[0].1), (0x2, 0x6));
    assert_eq!(&writes[0].2[..4], &[0x16, 0x02, 0x05, 0x00]);
    assert_eq!(&writes[1].2[..3], &[0x01, 0x01, 0x01]);
}

#[test]
fn raw_commands_parse_before_anything_is_sent() {
    let device = FakeDevice::new(60);
    let recorded = Rc::clone(&device.writes);
    let camera = Camera::new(device);
    assert_eq!(camera.send_raw(0x6, &b"01z1".to_vec()), Err(Error::InvalidHex));
    assert_eq!(camera.send_raw(0x6, &b"010".to_vec()), Err(Error::InvalidHex));
    let too_long = b"00".repeat(61);
    assert_eq!(camera.send_raw(0x6, &too_long), Err(Error::ProtocolError));
    assert_eq!(camera.send_raw(0x6, &b"040102".to_vec()), Ok(()));
    let writes = recorded.borrow();
    assert_eq!(writes.len(), 1);
    assert_eq!(&writes[0].2[..3], &[0x04, 0x01, 0x02]);
}

#[test]
fn relative_move_writes_current_plus_delta_unclamped_by_the_range() {
    // Range {0, 100, 5} notwithstanding, a +10 move from 98 attempts 108:
    // the facade clamps only at the machine limits of the value.
    let mut device = FakeDevice::new(60);
    device.value = 98;
    device.raw_range = Ok(RawRange { minimum: 0, maximum: 100, step: 5, default_value: 50, flags: 0 });
    let recorded = Rc::clone(&device.value_writes);
    let camera = Camera::new(device);
    assert_eq!(
        camera.query_axis_range(Axis::Pan),
        Ok(ControlRange { minimum: 0, maximum: 100, step: 5, default_value: 50 })
    );
    assert_eq!(camera.move_axis_relative(Axis::Pan, 10), Ok(108));
    assert_eq!(*recorded.borrow(), vec![(0x009a0908, 108)]);
}

#[test]
fn relative_targets_clamp_at_the_machine_limits() {
    assert_eq!(relative_target(98, 10), 108);
    assert_eq!(relative_target(98, -100), -2);
    assert_eq!(relative_target(i32::MAX, 1), i32::MAX);
    assert_eq!(relative_target(i32::MIN, -1), i32::MIN);
    assert_eq!(relative_target(i32::MAX, i32::MAX), i32::MAX);
    assert_eq!(relative_target(i32::MIN, i32::MIN), i32::MIN);
}

#[test]
fn disabled_range_is_unsupported_whatever_its_numbers_say() {
    let mut device = FakeDevice::new(60);
    device.raw_range = Ok(RawRange { minimum: 0, maximum: 100, step: 5, default_value: 50, flags: 1 });
    let camera = Camera::new(device);
    assert_eq!(camera.query_axis_range(Axis::Zoom), Err(Error::ControlUnsupported));
}

#[test]
fn range_io_failures_carry_the_code() {
    let camera = Camera::new(FakeDevice::new(60));
    assert_eq!(camera.query_axis_range(Axis::Tilt), Err(Error::USBIOError(22)));
}

#[test]
fn axis_values_read_and_write_their_control_ids() {
    let mut device = FakeDevice::new(60);
    device.value = -3600;
    let recorded = Rc::clone(&device.value_writes);
    let camera = Camera::new(device);
    assert_eq!(camera.get_axis(Axis::Tilt), Ok(-3600));
    camera.set_axis(Axis::Zoom, 77).unwrap();
    assert_eq!(*recorded.borrow(), vec![(0x009a090d, 77)]);
}

#[test]
fn info_hands_the_capability_metadata_through() {
    let camera = Camera::new(FakeDevice::new(60));
    let cap = camera.info().unwrap();
    assert_eq!(cap.card, b"OBSBOT Tiny 2".to_vec());
    assert_eq!(cap.device_caps, 0);
}

#[test]
fn dump_returns_the_sixty_byte_block() {
    let mut device = FakeDevice::new(60);
    device.block[0] = 0xab;
    let camera = Camera::new(device);
    let block = camera.dump().unwrap();
    assert_eq!(block.len(), 60);
    assert_eq!(block[0], 0xab);
    let block_02 = camera.dump_02().unwrap();
    assert_eq!(block_02.len(), 60);
}
