//! The data model shared by the device gateway, the state engine and the bus
//! publisher.

use vstd::prelude::*;
use vstd::std_specs::cmp::PartialEqSpecImpl;
use vstd::std_specs::convert::FromSpecImpl;

verus! {

/// Connection state of the base, as the engine tracks it.
#[derive(Debug, Clone, Copy, PartialEq, Eq, Structural)]
pub enum BaseState {
    Detached,
    Attached,
    /// A base is present but the controller refuses to release it.
    NotFeasible,
}

/// Kind of the bus that connects the base.
#[derive(Debug, Clone, Copy, PartialEq, Eq, Structural)]
pub enum DeviceType {
    Hid,
    Ssh,
    Unknown(u8),
}

/// What the device reports about the base.
#[derive(Debug, Clone, Copy, Eq)]
pub struct BaseInfo {
    pub state: BaseState,
    pub device_type: DeviceType,
    pub id: u8,
}

/// Operation mode of the device.
#[derive(Debug, Clone, Copy, Eq)]
pub enum DeviceMode {
    Tablet,
    Laptop,
    Studio,
}

/// Position of the latch, with hardware errors collapsed.
#[derive(Debug, Clone, Copy, PartialEq, Eq, Structural)]
pub enum LatchState {
    Closed,
    Opened,
}

/// Failure of the latch mechanism.
#[derive(Debug, Clone, Copy, PartialEq, Eq, Structural)]
pub enum HardwareError {
    FailedToOpen,
    FailedToRemainOpen,
    FailedToClose,
    Unknown(u16),
}

/// Status of the latch, as it is published.
#[derive(Debug, Clone, Copy, Eq)]
pub enum LatchStatus {
    Closed,
    Opened,
    Error(HardwareError),
}

/// Reason for which the controller or the engine refuses a detachment.
#[derive(Debug, Clone, Copy, PartialEq, Eq, Structural)]
pub enum RuntimeError {
    NotAttached,
    NotFeasible,
    Timeout,
    Unknown(u8),
}

/// Why a detachment was refused or canceled.
#[derive(Debug, Clone, Copy, PartialEq, Eq, Structural)]
pub enum CancelReason {
    /// The user, or a higher layer, asked for it, or the user did not act.
    UserRequest,
    /// A handler script ran out of time.
    HandlerTimeout,
    /// The base was not removed in time.
    DisconnectTimeout,
    Runtime(RuntimeError),
    Hardware(HardwareError),
    Unknown(u16),
}

impl PartialEq for BaseInfo {
    fn eq(&self, other: &BaseInfo) -> (same: bool) {
        self.state == other.state && self.device_type == other.device_type && self.id == other.id
    }
}

impl PartialEqSpecImpl for BaseInfo {
    open spec fn obeys_eq_spec() -> bool {
        true
    }

    open spec fn eq_spec(&self, other: &BaseInfo) -> bool {
        *self == *other
    }
}

impl PartialEq for DeviceMode {
    fn eq(&self, other: &DeviceMode) -> (same: bool) {
        match (*self, *other) {
            (DeviceMode::Tablet, DeviceMode::Tablet) => true,
            (DeviceMode::Laptop, DeviceMode::Laptop) => true,
            (DeviceMode::Studio, DeviceMode::Studio) => true,
            _ => false,
        }
    }
}

impl PartialEqSpecImpl for DeviceMode {
    open spec fn obeys_eq_spec() -> bool {
        true
    }

    open spec fn eq_spec(&self, other: &DeviceMode) -> bool {
        *self == *other
    }
}

impl PartialEq for LatchStatus {
    fn eq(&self, other: &LatchStatus) -> (same: bool) {
        match (*self, *other) {
            (LatchStatus::Closed, LatchStatus::Closed) => true,
            (LatchStatus::Opened, LatchStatus::Opened) => true,
            (LatchStatus::Error(a), LatchStatus::Error(b)) => a == b,
            _ => false,
        }
    }
}

impl PartialEqSpecImpl for LatchStatus {
    open spec fn obeys_eq_spec() -> bool {
        true
    }

    open spec fn eq_spec(&self, other: &LatchStatus) -> bool {
        *self == *other
    }
}

impl DeviceMode {
    /// The name of the mode: `tablet`, `laptop` or `studio`.
    pub open spec fn name(self) -> Seq<char> {
        match self {
            DeviceMode::Tablet => "tablet"@,
            DeviceMode::Laptop => "laptop"@,
            DeviceMode::Studio => "studio"@,
        }
    }

    pub fn as_str(self) -> (s: &'static str)
        ensures
            s@ == self.name(),
    {
        match self {
            DeviceMode::Tablet => "tablet",
            DeviceMode::Laptop => "laptop",
            DeviceMode::Studio => "studio",
        }
    }
}

impl LatchStatus {
    /// The latch position that a status stands for once errors are resolved:
    /// a latch that failed to open or to stay open is closed, one that failed
    /// to close is open, and an unknown error says nothing.
    pub open spec fn inferred_state(self) -> Option<LatchState> {
        match self {
            LatchStatus::Closed => Some(LatchState::Closed),
            LatchStatus::Opened => Some(LatchState::Opened),
            LatchStatus::Error(HardwareError::FailedToOpen) => Some(LatchState::Closed),
            LatchStatus::Error(HardwareError::FailedToRemainOpen) => Some(LatchState::Closed),
            LatchStatus::Error(HardwareError::FailedToClose) => Some(LatchState::Opened),
            LatchStatus::Error(HardwareError::Unknown(_)) => None,
        }
    }

    /// Resolves a status to a latch position, see [`Self::inferred_state`].
    pub fn infer_state(self) -> (state: Option<LatchState>)
        ensures
            state == self.inferred_state(),
    {
        match self {
            LatchStatus::Closed => Some(LatchState::Closed),
            LatchStatus::Opened => Some(LatchState::Opened),
            LatchStatus::Error(HardwareError::FailedToOpen) => Some(LatchState::Closed),
            LatchStatus::Error(HardwareError::FailedToRemainOpen) => Some(LatchState::Closed),
            LatchStatus::Error(HardwareError::FailedToClose) => Some(LatchState::Opened),
            LatchStatus::Error(HardwareError::Unknown(_)) => None,
        }
    }
}

impl From<LatchState> for LatchStatus {
    fn from(state: LatchState) -> (status: LatchStatus) {
        match state {
            LatchState::Closed => LatchStatus::Closed,
            LatchState::Opened => LatchStatus::Opened,
        }
    }
}

impl FromSpecImpl<LatchState> for LatchStatus {
    open spec fn obeys_from_spec() -> bool {
        true
    }

    open spec fn from_spec(state: LatchState) -> LatchStatus {
        match state {
            LatchState::Closed => LatchStatus::Closed,
            LatchState::Opened => LatchStatus::Opened,
        }
    }
}

impl BaseState {
    /// The reason given to a request that arrives while the base is in this
    /// state; none while it is attached, where a request is in order.
    pub open spec fn refusal(self) -> Option<RuntimeError> {
        match self {
            BaseState::Attached => None,
            BaseState::Detached => Some(RuntimeError::NotAttached),
            BaseState::NotFeasible => Some(RuntimeError::NotFeasible),
        }
    }

    pub fn refusal_reason(self) -> (reason: Option<RuntimeError>)
        ensures
            reason == self.refusal(),
    {
        match self {
            BaseState::Attached => None,
            BaseState::Detached => Some(RuntimeError::NotAttached),
            BaseState::NotFeasible => Some(RuntimeError::NotFeasible),
        }
    }
}

} // verus!
