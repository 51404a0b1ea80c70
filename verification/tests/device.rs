use surface_dtx::device::{next_event, split_base_id, Command, Direction, RawBaseInfo, RawEvent};
use surface_dtx::event::{ConnectionState, DetachError, DeviceMode, Event, LatchStatus};
use surface_dtx::types::{BaseInfo, BaseState, DeviceType, HardwareError, RuntimeError};

#[test]
fn frame_with_payload_is_taken_off_the_buffer() {
    // length 2, code 4, payload 01 00, then the start of another frame
    let buf = [2u8, 0, 4, 0, 1, 0, 0, 0];
    let (raw, used) = next_event(&buf).unwrap();
    assert_eq!(used, 6);
    assert_eq!(raw.code, 4);
    assert_eq!(raw.payload(), &[1u8, 0][..]);
}

#[test]
fn frame_without_payload() {
    let buf = [0u8, 0, 1, 0];
    let (raw, used) = next_event(&buf).unwrap();
    assert_eq!(used, 4);
    assert_eq!(raw.code, 1);
    assert!(raw.payload().is_empty());
}

#[test]
fn short_header_is_pending() {
    assert!(next_event(&[]).is_none());
    assert!(next_event(&[2, 0, 4]).is_none());
}

#[test]
fn short_payload_is_pending() {
    assert!(next_event(&[2, 0, 4, 0, 1]).is_none());
    assert!(next_event(&[4, 0, 3, 0, 1, 0, 2]).is_none());
}

#[test]
fn frame_header_is_little_endian() {
    // length 0x0001, code 0x0203
    let buf = [1u8, 0, 3, 2, 9];
    let (raw, used) = next_event(&buf).unwrap();
    assert_eq!(used, 5);
    assert_eq!(raw.code, 0x0203);
    assert_eq!(raw.payload(), &[9u8][..]);
}

#[test]
fn frame_of_the_greatest_length() {
    let mut buf = vec![0xffu8, 0xff, 5, 0];
    buf.extend(std::iter::repeat(7u8).take(65535));
    let (raw, used) = next_event(&buf).unwrap();
    assert_eq!(used, 4 + 65535);
    assert_eq!(raw.payload().len(), 65535);
    buf.pop();
    assert!(next_event(&buf).is_none());
}

#[test]
fn raw_event_keeps_code_and_payload() {
    let raw = RawEvent::new(7, &[1, 2, 3, 4, 5, 6]);
    assert_eq!(raw.code, 7);
    assert_eq!(raw.payload(), &[1u8, 2, 3, 4, 5, 6][..]);
    assert_eq!(raw, RawEvent::new(7, &[1, 2, 3, 4, 5, 6]));
    assert_ne!(raw, RawEvent::new(7, &[1, 2, 3]));
}

#[test]
fn decode_request() {
    assert_eq!(Event::decode(RawEvent::new(1, &[])), Event::Request);
}

#[test]
fn decode_request_with_payload_is_unknown() {
    assert_eq!(
        Event::decode(RawEvent::new(1, &[0])),
        Event::Unknown { code: 1, data: vec![0] }
    );
}

#[test]
fn decode_cancel_reasons() {
    assert_eq!(
        Event::decode(RawEvent::new(2, &[0x01, 0x10])),
        Event::Cancel { reason: DetachError::Runtime(RuntimeError::NotFeasible) }
    );
    assert_eq!(
        Event::decode(RawEvent::new(2, &[0x02, 0x10])),
        Event::Cancel { reason: DetachError::Runtime(RuntimeError::Timeout) }
    );
    assert_eq!(
        Event::decode(RawEvent::new(2, &[0x01, 0x20])),
        Event::Cancel { reason: DetachError::Hardware(HardwareError::FailedToOpen) }
    );
    assert_eq!(
        Event::decode(RawEvent::new(2, &[0x02, 0x20])),
        Event::Cancel { reason: DetachError::Hardware(HardwareError::FailedToRemainOpen) }
    );
    assert_eq!(
        Event::decode(RawEvent::new(2, &[0x03, 0x20])),
        Event::Cancel { reason: DetachError::Hardware(HardwareError::FailedToClose) }
    );
    assert_eq!(
        Event::decode(RawEvent::new(2, &[0x34, 0x12])),
        Event::Cancel { reason: DetachError::Unknown(0x1234) }
    );
}

#[test]
fn decode_base_connection() {
    // state attached, base id 0x0203: type 2, number 3
    assert_eq!(
        Event::decode(RawEvent::new(3, &[1, 0, 3, 2])),
        Event::BaseConnection {
            state: ConnectionState::Connected,
            device_type: DeviceType::Ssh,
            id: 3
        }
    );
    assert_eq!(
        Event::decode(RawEvent::new(3, &[0, 0, 0, 1])),
        Event::BaseConnection {
            state: ConnectionState::Disconnected,
            device_type: DeviceType::Hid,
            id: 0
        }
    );
    assert_eq!(
        Event::decode(RawEvent::new(3, &[0x01, 0x10, 0xff, 0x09])),
        Event::BaseConnection {
            state: ConnectionState::NotFeasible,
            device_type: DeviceType::Unknown(9),
            id: 0xff
        }
    );
    assert_eq!(
        Event::decode(RawEvent::new(3, &[2, 0, 0, 0])),
        Event::BaseConnection {
            state: ConnectionState::Unknown(2),
            device_type: DeviceType::Unknown(0),
            id: 0
        }
    );
}

#[test]
fn decode_base_connection_of_wrong_length_is_unknown() {
    assert_eq!(
        Event::decode(RawEvent::new(3, &[1, 0])),
        Event::Unknown { code: 3, data: vec![1, 0] }
    );
}

#[test]
fn decode_latch_status() {
    assert_eq!(
        Event::decode(RawEvent::new(4, &[0, 0])),
        Event::LatchStatus { status: LatchStatus::Closed }
    );
    assert_eq!(
        Event::decode(RawEvent::new(4, &[1, 0])),
        Event::LatchStatus { status: LatchStatus::Opened }
    );
    assert_eq!(
        Event::decode(RawEvent::new(4, &[3, 0x20])),
        Event::LatchStatus { status: LatchStatus::Error(HardwareError::FailedToClose) }
    );
    assert_eq!(
        Event::decode(RawEvent::new(4, &[4, 0x20])),
        Event::LatchStatus { status: LatchStatus::Unknown(0x2004) }
    );
}

#[test]
fn decode_device_mode() {
    assert_eq!(
        Event::decode(RawEvent::new(5, &[0, 0])),
        Event::DeviceMode { mode: DeviceMode::Tablet }
    );
    assert_eq!(
        Event::decode(RawEvent::new(5, &[1, 0])),
        Event::DeviceMode { mode: DeviceMode::Laptop }
    );
    assert_eq!(
        Event::decode(RawEvent::new(5, &[2, 0])),
        Event::DeviceMode { mode: DeviceMode::Studio }
    );
    assert_eq!(
        Event::decode(RawEvent::new(5, &[3, 0])),
        Event::DeviceMode { mode: DeviceMode::Unknown(3) }
    );
}

#[test]
fn decode_other_code_keeps_the_record() {
    assert_eq!(
        Event::decode(RawEvent::new(6, &[9, 8, 7])),
        Event::Unknown { code: 6, data: vec![9, 8, 7] }
    );
    assert_eq!(Event::decode(RawEvent::new(0, &[])), Event::Unknown { code: 0, data: vec![] });
}

#[test]
fn status_codes_of_the_base() {
    assert_eq!(ConnectionState::from(0), ConnectionState::Disconnected);
    assert_eq!(ConnectionState::from(1), ConnectionState::Connected);
    assert_eq!(ConnectionState::from(0x1001), ConnectionState::NotFeasible);
    assert_eq!(ConnectionState::from(0x1002), ConnectionState::Unknown(0x1002));
    assert_eq!(ConnectionState::Disconnected.to_base_state(), Some(BaseState::Detached));
    assert_eq!(ConnectionState::Connected.to_base_state(), Some(BaseState::Attached));
    assert_eq!(ConnectionState::NotFeasible.to_base_state(), Some(BaseState::NotFeasible));
    assert_eq!(ConnectionState::Unknown(7).to_base_state(), None);
}

#[test]
fn status_codes_of_the_latch() {
    assert_eq!(LatchStatus::from(0), LatchStatus::Closed);
    assert_eq!(LatchStatus::from(1), LatchStatus::Opened);
    assert_eq!(LatchStatus::from(0x2001), LatchStatus::Error(HardwareError::FailedToOpen));
    assert_eq!(LatchStatus::from(0x2002), LatchStatus::Error(HardwareError::FailedToRemainOpen));
    assert_eq!(LatchStatus::from(0x2003), LatchStatus::Error(HardwareError::FailedToClose));
    assert_eq!(LatchStatus::from(2), LatchStatus::Unknown(2));
    assert_eq!(
        LatchStatus::Unknown(2).to_status(),
        surface_dtx::types::LatchStatus::Error(HardwareError::Unknown(2))
    );
    assert_eq!(LatchStatus::Opened.to_status(), surface_dtx::types::LatchStatus::Opened);
}

#[test]
fn status_codes_of_the_device_mode() {
    assert_eq!(DeviceMode::from(0).as_str(), "tablet");
    assert_eq!(DeviceMode::from(1).as_str(), "laptop");
    assert_eq!(DeviceMode::from(2).as_str(), "studio");
    assert_eq!(DeviceMode::from(3).as_str(), "<unknown>");
    assert_eq!(DeviceMode::from(3).to_mode(), None);
    assert_eq!(DeviceMode::from(2).to_mode(), Some(surface_dtx::types::DeviceMode::Studio));
}

#[test]
fn base_id_splits_into_type_and_number() {
    assert_eq!(split_base_id(0x0100), (DeviceType::Hid, 0));
    assert_eq!(split_base_id(0x0205), (DeviceType::Ssh, 5));
    assert_eq!(split_base_id(0xffff), (DeviceType::Unknown(0xff), 0xff));
    assert_eq!(split_base_id(0x0007), (DeviceType::Unknown(0), 7));
}

#[test]
fn base_record_is_interpreted() {
    assert_eq!(
        RawBaseInfo { state: 1, base_id: 0x0201 }.interpret(),
        Some(BaseInfo { state: BaseState::Attached, device_type: DeviceType::Ssh, id: 1 })
    );
    assert_eq!(RawBaseInfo { state: 5, base_id: 0x0201 }.interpret(), None);
}

#[test]
fn command_numbers() {
    let all = [
        (Command::EventsEnable, 0x21u8, 0usize),
        (Command::EventsDisable, 0x22, 0),
        (Command::LatchLock, 0x23, 0),
        (Command::LatchUnlock, 0x24, 0),
        (Command::LatchRequest, 0x25, 0),
        (Command::LatchConfirm, 0x26, 0),
        (Command::LatchHeartbeat, 0x27, 0),
        (Command::LatchCancel, 0x28, 0),
        (Command::GetBaseInfo, 0x29, 4),
        (Command::GetDeviceMode, 0x2a, 2),
        (Command::GetLatchStatus, 0x2b, 2),
    ];
    for (command, number, len) in all {
        assert_eq!(command.number(), number);
        assert_eq!(command.payload_len(), len);
        let direction = if len > 0 { Direction::Read } else { Direction::Plain };
        assert_eq!(command.direction(), direction);
    }
    assert_eq!(surface_dtx::device::COMMAND_TYPE, 0xa5);
    assert_eq!(surface_dtx::device::DEFAULT_EVENT_FILE_PATH, "/dev/surface/dtx");
}

#[test]
fn frame_is_the_same_with_more_bytes_behind_it() {
    let frame = [2u8, 0, 3, 0, 7, 8];
    let (raw, used) = next_event(&frame).unwrap();
    let mut longer = frame.to_vec();
    longer.extend_from_slice(&[0xff, 0xff, 1]);
    let (again, used_again) = next_event(&longer).unwrap();
    assert_eq!(raw, again);
    assert_eq!(used, used_again);
    // what is left is the beginning of the next frame, which is not there yet
    assert!(next_event(&longer[used..]).is_none());
}
