//! Events of the device, as it reports them and as the engine takes them.

use vstd::prelude::*;
use vstd::slice::slice_to_vec;
use vstd::std_specs::convert::FromSpecImpl;
use crate::device::{read_u16_le, split_base_id, u16_le, base_id_type, base_id_number, RawEvent};
use crate::types::{BaseState, CancelReason, DeviceType, HardwareError, RuntimeError};

verus! {

/// Connection state of the base as the device reports it.
#[derive(Debug, Clone, Copy, PartialEq, Eq, Structural)]
pub enum ConnectionState {
    Disconnected,
    Connected,
    NotFeasible,
    Unknown(u16),
}

/// Latch status as the device reports it.
#[derive(Debug, Clone, Copy, PartialEq, Eq, Structural)]
pub enum LatchStatus {
    Closed,
    Opened,
    Error(HardwareError),
    Unknown(u16),
}

/// Device mode as the device reports it.
#[derive(Debug, Clone, Copy, PartialEq, Eq, Structural)]
pub enum DeviceMode {
    Tablet,
    Laptop,
    Studio,
    Unknown(u16),
}

/// Reason that the device gives when it cancels a detachment.
#[derive(Debug, Clone, Copy, PartialEq, Eq, Structural)]
pub enum DetachError {
    Runtime(RuntimeError),
    Hardware(HardwareError),
    Unknown(u16),
}

impl ConnectionState {
    /// The state that a status code stands for.
    pub open spec fn of_code(code: u16) -> ConnectionState {
        if code == 0x0000 {
            ConnectionState::Disconnected
        } else if code == 0x0001 {
            ConnectionState::Connected
        } else if code == 0x1001 {
            ConnectionState::NotFeasible
        } else {
            ConnectionState::Unknown(code)
        }
    }

    /// The state that the engine tracks, where the report is one it knows.
    pub open spec fn known(self) -> Option<BaseState> {
        match self {
            ConnectionState::Disconnected => Some(BaseState::Detached),
            ConnectionState::Connected => Some(BaseState::Attached),
            ConnectionState::NotFeasible => Some(BaseState::NotFeasible),
            ConnectionState::Unknown(_) => None,
        }
    }

    #[verifier::when_used_as_spec(known)]
    pub fn to_base_state(self) -> (state: Option<BaseState>)
        ensures
            state == self.known(),
    {
        match self {
            ConnectionState::Disconnected => Some(BaseState::Detached),
            ConnectionState::Connected => Some(BaseState::Attached),
            ConnectionState::NotFeasible => Some(BaseState::NotFeasible),
            ConnectionState::Unknown(_) => None,
        }
    }
}

impl From<u16> for ConnectionState {
    fn from(code: u16) -> (state: ConnectionState) {
        if code == 0x0000 {
            ConnectionState::Disconnected
        } else if code == 0x0001 {
            ConnectionState::Connected
        } else if code == 0x1001 {
            ConnectionState::NotFeasible
        } else {
            ConnectionState::Unknown(code)
        }
    }
}

impl FromSpecImpl<u16> for ConnectionState {
    open spec fn obeys_from_spec() -> bool {
        true
    }

    open spec fn from_spec(code: u16) -> ConnectionState {
        ConnectionState::of_code(code)
    }
}

impl HardwareError {
    /// The error that a status code names, if it names one.
    pub open spec fn of_code(code: u16) -> Option<HardwareError> {
        if code == 0x2001 {
            Some(HardwareError::FailedToOpen)
        } else if code == 0x2002 {
            Some(HardwareError::FailedToRemainOpen)
        } else if code == 0x2003 {
            Some(HardwareError::FailedToClose)
        } else {
            None
        }
    }

    pub fn from_code(code: u16) -> (error: Option<HardwareError>)
        ensures
            error == HardwareError::of_code(code),
    {
        if code == 0x2001 {
            Some(HardwareError::FailedToOpen)
        } else if code == 0x2002 {
            Some(HardwareError::FailedToRemainOpen)
        } else if code == 0x2003 {
            Some(HardwareError::FailedToClose)
        } else {
            None
        }
    }
}

impl LatchStatus {
    /// The status that a status code stands for.
    pub open spec fn of_code(code: u16) -> LatchStatus {
        if code == 0x0000 {
            LatchStatus::Closed
        } else if code == 0x0001 {
            LatchStatus::Opened
        } else {
            match HardwareError::of_code(code) {
                Some(error) => LatchStatus::Error(error),
                None => LatchStatus::Unknown(code),
            }
        }
    }

    /// The status as it is published. A code that the device is not known to
    /// report is passed on as a hardware error that carries the code.
    pub open spec fn published(self) -> crate::types::LatchStatus {
        match self {
            LatchStatus::Closed => crate::types::LatchStatus::Closed,
            LatchStatus::Opened => crate::types::LatchStatus::Opened,
            LatchStatus::Error(error) => crate::types::LatchStatus::Error(error),
            LatchStatus::Unknown(code) => crate::types::LatchStatus::Error(
                HardwareError::Unknown(code),
            ),
        }
    }

    #[verifier::when_used_as_spec(published)]
    pub fn to_status(self) -> (status: crate::types::LatchStatus)
        ensures
            status == self.published(),
    {
        match self {
            LatchStatus::Closed => crate::types::LatchStatus::Closed,
            LatchStatus::Opened => crate::types::LatchStatus::Opened,
            LatchStatus::Error(error) => crate::types::LatchStatus::Error(error),
            LatchStatus::Unknown(code) => crate::types::LatchStatus::Error(
                HardwareError::Unknown(code),
            ),
        }
    }
}

impl From<u16> for LatchStatus {
    fn from(code: u16) -> (status: LatchStatus) {
        if code == 0x0000 {
            LatchStatus::Closed
        } else if code == 0x0001 {
            LatchStatus::Opened
        } else {
            match HardwareError::from_code(code) {
                Some(error) => LatchStatus::Error(error),
                None => LatchStatus::Unknown(code),
            }
        }
    }
}

impl FromSpecImpl<u16> for LatchStatus {
    open spec fn obeys_from_spec() -> bool {
        true
    }

    open spec fn from_spec(code: u16) -> LatchStatus {
        LatchStatus::of_code(code)
    }
}

impl DeviceMode {
    /// The mode that a status code stands for.
    pub open spec fn of_code(code: u16) -> DeviceMode {
        if code == 0 {
            DeviceMode::Tablet
        } else if code == 1 {
            DeviceMode::Laptop
        } else if code == 2 {
            DeviceMode::Studio
        } else {
            DeviceMode::Unknown(code)
        }
    }

    /// The mode that is published, where the report is one of the three.
    pub open spec fn known(self) -> Option<crate::types::DeviceMode> {
        match self {
            DeviceMode::Tablet => Some(crate::types::DeviceMode::Tablet),
            DeviceMode::Laptop => Some(crate::types::DeviceMode::Laptop),
            DeviceMode::Studio => Some(crate::types::DeviceMode::Studio),
            DeviceMode::Unknown(_) => None,
        }
    }

    #[verifier::when_used_as_spec(known)]
    pub fn to_mode(self) -> (mode: Option<crate::types::DeviceMode>)
        ensures
            mode == self.known(),
    {
        match self {
            DeviceMode::Tablet => Some(crate::types::DeviceMode::Tablet),
            DeviceMode::Laptop => Some(crate::types::DeviceMode::Laptop),
            DeviceMode::Studio => Some(crate::types::DeviceMode::Studio),
            DeviceMode::Unknown(_) => None,
        }
    }

    /// Name of the mode for the log: that of the published mode, or
    /// `<unknown>`.
    pub open spec fn name(self) -> Seq<char> {
        match self.known() {
            Some(mode) => mode.name(),
            None => "<unknown>"@,
        }
    }

    pub fn as_str(self) -> (s: &'static str)
        ensures
            s@ == self.name(),
    {
        match self {
            DeviceMode::Tablet => "tablet",
            DeviceMode::Laptop => "laptop",
            DeviceMode::Studio => "studio",
            DeviceMode::Unknown(_) => "<unknown>",
        }
    }
}

impl From<u16> for DeviceMode {
    fn from(code: u16) -> (mode: DeviceMode) {
        if code == 0 {
            DeviceMode::Tablet
        } else if code == 1 {
            DeviceMode::Laptop
        } else if code == 2 {
            DeviceMode::Studio
        } else {
            DeviceMode::Unknown(code)
        }
    }
}

impl FromSpecImpl<u16> for DeviceMode {
    open spec fn obeys_from_spec() -> bool {
        true
    }

    open spec fn from_spec(code: u16) -> DeviceMode {
        DeviceMode::of_code(code)
    }
}

impl DetachError {
    /// The reason that a status code stands for.
    pub open spec fn of_code(code: u16) -> DetachError {
        if code == 0x1001 {
            DetachError::Runtime(RuntimeError::NotFeasible)
        } else if code == 0x1002 {
            DetachError::Runtime(RuntimeError::Timeout)
        } else {
            match HardwareError::of_code(code) {
                Some(error) => DetachError::Hardware(error),
                None => DetachError::Unknown(code),
            }
        }
    }

    /// The reason as it is handed on to the adapters.
    pub open spec fn reason(self) -> CancelReason {
        match self {
            DetachError::Runtime(error) => CancelReason::Runtime(error),
            DetachError::Hardware(error) => CancelReason::Hardware(error),
            DetachError::Unknown(code) => CancelReason::Unknown(code),
        }
    }
}

impl From<u16> for DetachError {
    fn from(code: u16) -> (error: DetachError) {
        if code == 0x1001 {
            DetachError::Runtime(RuntimeError::NotFeasible)
        } else if code == 0x1002 {
            DetachError::Runtime(RuntimeError::Timeout)
        } else {
            match HardwareError::from_code(code) {
                Some(error) => DetachError::Hardware(error),
                None => DetachError::Unknown(code),
            }
        }
    }
}

impl FromSpecImpl<u16> for DetachError {
    open spec fn obeys_from_spec() -> bool {
        true
    }

    open spec fn from_spec(code: u16) -> DetachError {
        DetachError::of_code(code)
    }
}

impl From<DetachError> for CancelReason {
    fn from(error: DetachError) -> (reason: CancelReason) {
        match error {
            DetachError::Runtime(error) => CancelReason::Runtime(error),
            DetachError::Hardware(error) => CancelReason::Hardware(error),
            DetachError::Unknown(code) => CancelReason::Unknown(code),
        }
    }
}

impl FromSpecImpl<DetachError> for CancelReason {
    open spec fn obeys_from_spec() -> bool {
        true
    }

    open spec fn from_spec(error: DetachError) -> CancelReason {
        error.reason()
    }
}

/// What the engine reacts to: the reports of the device, and the signals that
/// handler tasks send back when they are done.
#[derive(Debug, PartialEq, Eq)]
pub enum Event {
    Request,
    DetachConfirm,
    DetachCancel,
    DetachTimeout,
    AttachComplete,
    AttachTimeout,
    CancelComplete,
    CancelTimeout,
    Cancel { reason: DetachError },
    BaseConnection { state: ConnectionState, device_type: DeviceType, id: u8 },
    LatchStatus { status: LatchStatus },
    DeviceMode { mode: DeviceMode },
    Unknown { code: u16, data: Vec<u8> },
}

impl Event {
    /// Whether the event comes from a handler task and not from the device.
    pub open spec fn is_internal(self) -> bool {
        match self {
            Event::DetachConfirm
            | Event::DetachCancel
            | Event::DetachTimeout
            | Event::AttachComplete
            | Event::AttachTimeout
            | Event::CancelComplete
            | Event::CancelTimeout => true,
            _ => false,
        }
    }

    /// Whether `self` is what the record with this code and payload says.
    /// Each code has its payload length; a record with another length, or
    /// with another code, is kept as it came.
    pub open spec fn decodes(self, code: u16, data: Seq<u8>) -> bool {
        if code == 1 && data.len() == 0 {
            self == Event::Request
        } else if code == 2 && data.len() == 2 {
            self == (Event::Cancel { reason: DetachError::of_code(u16_le(data[0], data[1])) })
        } else if code == 3 && data.len() == 4 {
            self == (Event::BaseConnection {
                state: ConnectionState::of_code(u16_le(data[0], data[1])),
                device_type: base_id_type(u16_le(data[2], data[3])),
                id: base_id_number(u16_le(data[2], data[3])),
            })
        } else if code == 4 && data.len() == 2 {
            self == (Event::LatchStatus { status: LatchStatus::of_code(u16_le(data[0], data[1])) })
        } else if code == 5 && data.len() == 2 {
            self == (Event::DeviceMode { mode: DeviceMode::of_code(u16_le(data[0], data[1])) })
        } else {
            self matches Event::Unknown { code: c, data: d } && c == code && d@ == data
        }
    }
}

impl Event {
    /// Interprets a record of the device.
    pub fn decode(raw: RawEvent) -> (event: Event)
        ensures
            event.decodes(raw.code, raw.data@),
            !event.is_internal(),
    {
        let data = raw.payload();
        if raw.code == 1 && data.len() == 0 {
            Event::Request
        } else if raw.code == 2 && data.len() == 2 {
            Event::Cancel { reason: DetachError::from(read_u16_le(data[0], data[1])) }
        } else if raw.code == 3 && data.len() == 4 {
            let state = ConnectionState::from(read_u16_le(data[0], data[1]));
            let (device_type, id) = split_base_id(read_u16_le(data[2], data[3]));
            Event::BaseConnection { state, device_type, id }
        } else if raw.code == 4 && data.len() == 2 {
            Event::LatchStatus { status: LatchStatus::from(read_u16_le(data[0], data[1])) }
        } else if raw.code == 5 && data.len() == 2 {
            Event::DeviceMode { mode: DeviceMode::from(read_u16_le(data[0], data[1])) }
        } else {
            Event::Unknown { code: raw.code, data: slice_to_vec(data) }
        }
    }
}

} // verus!
