//! Wire format of the DTX character device: event frames, control commands
//! and the records that the device hands out.

use vstd::prelude::*;
use vstd::slice::slice_subrange;
use smallvec::SmallVec;
use crate::event::ConnectionState;
use crate::types::{BaseInfo, DeviceType};

verus! {

/// Payload of a raw event: a short byte string in a `smallvec::SmallVec`,
/// which keeps up to four bytes inline. The verifier does not look inside;
/// what it holds is known through [`payload_bytes`] alone.
#[verifier::external_body]
#[derive(Debug, PartialEq, Eq)]
pub struct Payload {
    bytes: SmallVec<[u8; 4]>,
}

/// The bytes that a payload holds, in order: the items of its `SmallVec`.
pub uninterp spec fn payload_bytes(data: Payload) -> Seq<u8>;

impl View for Payload {
    type V = Seq<u8>;

    open spec fn view(&self) -> Seq<u8> {
        payload_bytes(*self)
    }
}

impl Payload {
    /// Calls `SmallVec::from_slice`, which copies the items of the slice
    /// into a new vector: the payload holds the bytes of the slice, in order.
    #[verifier::external_body]
    pub(crate) fn from_slice(bytes: &[u8]) -> (data: Payload)
        ensures
            payload_bytes(data) == bytes@,
    {
        Payload { bytes: SmallVec::from_slice(bytes) }
    }

    /// Calls `SmallVec::as_slice`, which hands out a slice of the entire
    /// vector: the slice holds the bytes of the payload, in order.
    #[verifier::external_body]
    pub(crate) fn as_slice(&self) -> (bytes: &[u8])
        ensures
            bytes@ == payload_bytes(*self),
    {
        self.bytes.as_slice()
    }
}

/// One record as read from the device, not yet interpreted.
#[derive(Debug, PartialEq, Eq)]
pub struct RawEvent {
    pub code: u16,
    pub data: Payload,
}

impl RawEvent {
    pub fn new(code: u16, data: &[u8]) -> (raw: RawEvent)
        ensures
            raw.code == code,
            raw.data@ == data@,
    {
        RawEvent { code, data: Payload::from_slice(data) }
    }

    /// The payload, byte for byte.
    pub fn payload(&self) -> (bytes: &[u8])
        ensures
            bytes@ == self.data@,
    {
        self.data.as_slice()
    }
}

/// Where the device is found.
pub const DEFAULT_EVENT_FILE_PATH: &'static str = "/dev/surface/dtx";

/// Number of bytes of a frame's header: payload length, then event code.
pub const HEADER_LEN: usize = 4;

/// The number that two bytes stand for, least significant byte first.
pub open spec fn u16_le(lo: u8, hi: u8) -> u16 {
    (lo as int + 256 * (hi as int)) as u16
}

/// Reads a number from two bytes, least significant byte first.
pub fn read_u16_le(lo: u8, hi: u8) -> (value: u16)
    ensures
        value == u16_le(lo, hi),
        value as int == lo as int + 256 * (hi as int),
{
    (lo as u16) + 256 * (hi as u16)
}

/// Length of the whole first frame of a buffer, header included, once the
/// header is there.
pub open spec fn frame_len(buf: Seq<u8>) -> Option<int> {
    if buf.len() < HEADER_LEN as int {
        None
    } else {
        Some(HEADER_LEN as int + u16_le(buf[0], buf[1]) as int)
    }
}

/// Whether a buffer holds its first frame in full. A buffer that does not is
/// waiting for more bytes; it is never in error.
pub open spec fn frame_complete(buf: Seq<u8>) -> bool {
    frame_len(buf) matches Some(len) && len <= buf.len()
}

/// Event code of the first frame.
pub open spec fn frame_code(buf: Seq<u8>) -> u16 {
    u16_le(buf[2], buf[3])
}

/// Payload of the first frame.
pub open spec fn frame_data(buf: Seq<u8>) -> Seq<u8> {
    buf.subrange(HEADER_LEN as int, frame_len(buf).unwrap())
}

/// Takes the first frame off a buffer. Returns the event and the number of
/// bytes it occupied, or nothing while the frame is incomplete.
pub fn next_event(buf: &[u8]) -> (next: Option<(RawEvent, usize)>)
    ensures
        next is Some <==> frame_complete(buf@),
        next matches Some((raw, used)) ==> {
            &&& Some(used as int) == frame_len(buf@)
            &&& raw.code == frame_code(buf@)
            &&& raw.data@ == frame_data(buf@)
        },
{
    if buf.len() < HEADER_LEN {
        return None;
    }
    let len = read_u16_le(buf[0], buf[1]);
    let code = read_u16_le(buf[2], buf[3]);
    // a frame is at most 4 + 65535 bytes long
    if buf.len() - HEADER_LEN < len as usize {
        return None;
    }
    let end = HEADER_LEN + len as usize;
    let raw = RawEvent::new(code, slice_subrange(buf, HEADER_LEN, end));
    Some((raw, end))
}

/// A frame stays what it is when more bytes arrive behind it.
pub proof fn lemma_frame_stable(buf: Seq<u8>, more: Seq<u8>)
    requires
        frame_complete(buf),
    ensures
        frame_complete(buf + more),
        frame_len(buf + more) == frame_len(buf),
        frame_code(buf + more) == frame_code(buf),
        frame_data(buf + more) == frame_data(buf),
{
    let all = buf + more;
}

/// The record that the device fills in when asked for the base.
#[derive(Debug, Clone, Copy, PartialEq, Eq, Structural)]
pub struct RawBaseInfo {
    pub state: u16,
    pub base_id: u16,
}

impl DeviceType {
    /// Kind of the connection, by its number.
    pub open spec fn of_code(code: u8) -> DeviceType {
        if code == 1 {
            DeviceType::Hid
        } else if code == 2 {
            DeviceType::Ssh
        } else {
            DeviceType::Unknown(code)
        }
    }

    pub fn from_code(code: u8) -> (ty: DeviceType)
        ensures
            ty == DeviceType::of_code(code),
    {
        if code == 1 {
            DeviceType::Hid
        } else if code == 2 {
            DeviceType::Ssh
        } else {
            DeviceType::Unknown(code)
        }
    }
}

/// Kind of the connection in a base identifier: its upper byte.
pub open spec fn base_id_type(base_id: u16) -> DeviceType {
    DeviceType::of_code((base_id as int / 256) as u8)
}

/// Number of the base in a base identifier: its lower byte.
pub open spec fn base_id_number(base_id: u16) -> u8 {
    (base_id as int % 256) as u8
}

/// Splits a base identifier into the connection kind and the base's number.
pub fn split_base_id(base_id: u16) -> (parts: (DeviceType, u8))
    ensures
        parts.0 == base_id_type(base_id),
        parts.1 == base_id_number(base_id),
{
    (DeviceType::from_code((base_id / 256) as u8), (base_id % 256) as u8)
}

impl RawBaseInfo {
    /// What the record says, or nothing where its state is not one that the
    /// device is known to report.
    pub open spec fn interpreted(self) -> Option<BaseInfo> {
        match ConnectionState::of_code(self.state).known() {
            Some(state) => Some(
                BaseInfo {
                    state,
                    device_type: base_id_type(self.base_id),
                    id: base_id_number(self.base_id),
                },
            ),
            None => None,
        }
    }

    pub fn interpret(self) -> (info: Option<BaseInfo>)
        ensures
            info == self.interpreted(),
    {
        match ConnectionState::from(self.state).to_base_state() {
            Some(state) => {
                let (device_type, id) = split_base_id(self.base_id);
                Some(BaseInfo { state, device_type, id })
            },
            None => None,
        }
    }
}

/// Whether a control command carries data back.
#[derive(Debug, Clone, Copy, PartialEq, Eq, Structural)]
pub enum Direction {
    /// Nothing comes back but success or failure.
    Plain,
    /// The device fills in a record.
    Read,
}

/// Type byte of every control command.
pub const COMMAND_TYPE: u8 = 0xa5;

/// The control commands of the device.
#[derive(Debug, Clone, Copy, PartialEq, Eq, Structural)]
pub enum Command {
    EventsEnable,
    EventsDisable,
    LatchLock,
    LatchUnlock,
    LatchRequest,
    LatchConfirm,
    LatchHeartbeat,
    LatchCancel,
    GetBaseInfo,
    GetDeviceMode,
    GetLatchStatus,
}

impl Command {
    /// Number of the command within its type.
    pub open spec fn spec_number(self) -> u8 {
        match self {
            Command::EventsEnable => 0x21,
            Command::EventsDisable => 0x22,
            Command::LatchLock => 0x23,
            Command::LatchUnlock => 0x24,
            Command::LatchRequest => 0x25,
            Command::LatchConfirm => 0x26,
            Command::LatchHeartbeat => 0x27,
            Command::LatchCancel => 0x28,
            Command::GetBaseInfo => 0x29,
            Command::GetDeviceMode => 0x2a,
            Command::GetLatchStatus => 0x2b,
        }
    }

    /// Number of bytes that the command hands back.
    pub open spec fn spec_payload_len(self) -> usize {
        match self {
            Command::GetBaseInfo => 4,
            Command::GetDeviceMode => 2,
            Command::GetLatchStatus => 2,
            _ => 0,
        }
    }

    #[verifier::when_used_as_spec(spec_number)]
    pub fn number(self) -> (nr: u8)
        ensures
            nr == self.spec_number(),
    {
        match self {
            Command::EventsEnable => 0x21,
            Command::EventsDisable => 0x22,
            Command::LatchLock => 0x23,
            Command::LatchUnlock => 0x24,
            Command::LatchRequest => 0x25,
            Command::LatchConfirm => 0x26,
            Command::LatchHeartbeat => 0x27,
            Command::LatchCancel => 0x28,
            Command::GetBaseInfo => 0x29,
            Command::GetDeviceMode => 0x2a,
            Command::GetLatchStatus => 0x2b,
        }
    }

    #[verifier::when_used_as_spec(spec_payload_len)]
    pub fn payload_len(self) -> (len: usize)
        ensures
            len == self.spec_payload_len(),
    {
        match self {
            Command::GetBaseInfo => 4,
            Command::GetDeviceMode => 2,
            Command::GetLatchStatus => 2,
            _ => 0,
        }
    }

    /// A command reads exactly where it hands bytes back.
    pub fn direction(self) -> (dir: Direction)
        ensures
            dir == Direction::Read <==> self.spec_payload_len() > 0,
    {
        if self.payload_len() > 0 {
            Direction::Read
        } else {
            Direction::Plain
        }
    }
}

/// No two commands share a number.
pub proof fn lemma_command_numbers_distinct(a: Command, b: Command)
    requires
        a.number() == b.number(),
    ensures
        a == b,
{
}

} // verus!
