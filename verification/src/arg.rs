//! How values are written on the bus, and how they are read back.

use vstd::prelude::*;
use vstd::string::StringExecFns;
use crate::error::{Error, ErrorKind, ErrorStr};
use crate::text::{
    after_prefix, decimal, has_prefix, lemma_decimal_digits, lemma_decimal_round_trip,
    lemma_prefix_differs, lemma_prefix_of_concat, parse_decimal, parsed_decimal, push_decimal,
    same_text, strip_prefix,
};
use crate::types::{
    BaseInfo, BaseState, CancelReason, DeviceMode, DeviceType, HardwareError, LatchStatus,
    RuntimeError,
};

verus! {

/// A value that has a form on the bus.
pub trait DbusArg {
    /// The type of that form.
    type Arg;

    /// Whether `arg` is the form of `self`.
    spec fn encodes(&self, arg: Self::Arg) -> bool;

    fn as_arg(&self) -> (arg: Self::Arg)
        ensures
            self.encodes(arg),
    ;
}

fn protocol_error(message: &'static str) -> (error: Error)
    ensures
        error.kind() == ErrorKind::DBusService,
{
    Error::with(ErrorStr::from(message), ErrorKind::DBusService)
}

impl HardwareError {
    /// What follows `error:hardware` in the written form.
    pub open spec fn encoded_tail(self) -> Seq<char> {
        match self {
            HardwareError::FailedToOpen => ":failed-to-open"@,
            HardwareError::FailedToRemainOpen => ":failed-to-remain-open"@,
            HardwareError::FailedToClose => ":failed-to-close"@,
            HardwareError::Unknown(code) => ":unknown:"@ + decimal(code as nat),
        }
    }

    /// The written form: `error:hardware:failed-to-open`,
    /// `error:hardware:failed-to-remain-open`, `error:hardware:failed-to-close`
    /// or `error:hardware:unknown:` and the code in decimal.
    pub open spec fn encoded(self) -> Seq<char> {
        "error:hardware"@ + self.encoded_tail()
    }

    /// The error that a tail stands for, see [`Self::encoded_tail`].
    pub open spec fn parsed_tail(tail: Seq<char>) -> Option<HardwareError> {
        if tail == ":failed-to-open"@ {
            Some(HardwareError::FailedToOpen)
        } else if tail == ":failed-to-remain-open"@ {
            Some(HardwareError::FailedToRemainOpen)
        } else if tail == ":failed-to-close"@ {
            Some(HardwareError::FailedToClose)
        } else if has_prefix(tail, ":unknown:"@) {
            match parsed_decimal(after_prefix(tail, ":unknown:"@), u16::MAX as nat) {
                Some(code) => Some(HardwareError::Unknown(code as u16)),
                None => None,
            }
        } else {
            None
        }
    }

    /// The error that a text stands for, if it stands for one.
    pub open spec fn parsed(text: Seq<char>) -> Option<HardwareError> {
        if has_prefix(text, "error:hardware"@) {
            HardwareError::parsed_tail(after_prefix(text, "error:hardware"@))
        } else {
            None
        }
    }

    pub fn as_arg(&self) -> (arg: String)
        ensures
            arg@ == self.encoded(),
    {
        let mut arg = String::from_str("error:hardware");
        match self {
            HardwareError::FailedToOpen => arg.append(":failed-to-open"),
            HardwareError::FailedToRemainOpen => arg.append(":failed-to-remain-open"),
            HardwareError::FailedToClose => arg.append(":failed-to-close"),
            HardwareError::Unknown(code) => {
                arg.append(":unknown:");
                push_decimal(&mut arg, *code);
            },
        }
        arg
    }

    fn from_tail(tail: &str) -> (error: Option<HardwareError>)
        ensures
            error == HardwareError::parsed_tail(tail@),
    {
        if same_text(tail, ":failed-to-open") {
            Some(HardwareError::FailedToOpen)
        } else if same_text(tail, ":failed-to-remain-open") {
            Some(HardwareError::FailedToRemainOpen)
        } else if same_text(tail, ":failed-to-close") {
            Some(HardwareError::FailedToClose)
        } else {
            match strip_prefix(tail, ":unknown:") {
                Some(number) => match parse_decimal(number, u16::MAX) {
                    Some(code) => Some(HardwareError::Unknown(code)),
                    None => None,
                },
                None => None,
            }
        }
    }

    /// Reads an error from its written form.
    pub fn from_str(text: &str) -> (result: Result<HardwareError, Error>)
        ensures
            match result {
                Ok(error) => HardwareError::parsed(text@) == Some(error),
                Err(error) => HardwareError::parsed(text@) is None && error.kind()
                    == ErrorKind::DBusService,
            },
    {
        match strip_prefix(text, "error:hardware") {
            Some(tail) => match HardwareError::from_tail(tail) {
                Some(error) => Ok(error),
                None => Err(protocol_error("Unknown hardware error value")),
            },
            None => Err(protocol_error("Unknown hardware error value")),
        }
    }
}

impl RuntimeError {
    /// What follows `error:runtime` in the written form.
    pub open spec fn encoded_tail(self) -> Seq<char> {
        match self {
            RuntimeError::NotAttached => ":not-attached"@,
            RuntimeError::NotFeasible => ":not-feasible"@,
            RuntimeError::Timeout => ":timeout"@,
            RuntimeError::Unknown(code) => ":unknown:"@ + decimal(code as nat),
        }
    }

    /// The written form: `error:runtime:not-attached`,
    /// `error:runtime:not-feasible`, `error:runtime:timeout` or
    /// `error:runtime:unknown:` and the code in decimal.
    pub open spec fn encoded(self) -> Seq<char> {
        "error:runtime"@ + self.encoded_tail()
    }

    /// The error that a tail stands for, see [`Self::encoded_tail`].
    pub open spec fn parsed_tail(tail: Seq<char>) -> Option<RuntimeError> {
        if tail == ":not-attached"@ {
            Some(RuntimeError::NotAttached)
        } else if tail == ":not-feasible"@ {
            Some(RuntimeError::NotFeasible)
        } else if tail == ":timeout"@ {
            Some(RuntimeError::Timeout)
        } else if has_prefix(tail, ":unknown:"@) {
            match parsed_decimal(after_prefix(tail, ":unknown:"@), u8::MAX as nat) {
                Some(code) => Some(RuntimeError::Unknown(code as u8)),
                None => None,
            }
        } else {
            None
        }
    }

    /// The error that a text stands for, if it stands for one.
    pub open spec fn parsed(text: Seq<char>) -> Option<RuntimeError> {
        if has_prefix(text, "error:runtime"@) {
            RuntimeError::parsed_tail(after_prefix(text, "error:runtime"@))
        } else {
            None
        }
    }

    pub fn as_arg(&self) -> (arg: String)
        ensures
            arg@ == self.encoded(),
    {
        let mut arg = String::from_str("error:runtime");
        match self {
            RuntimeError::NotAttached => arg.append(":not-attached"),
            RuntimeError::NotFeasible => arg.append(":not-feasible"),
            RuntimeError::Timeout => arg.append(":timeout"),
            RuntimeError::Unknown(code) => {
                arg.append(":unknown:");
                push_decimal(&mut arg, *code as u16);
            },
        }
        arg
    }

    fn from_tail(tail: &str) -> (error: Option<RuntimeError>)
        ensures
            error == RuntimeError::parsed_tail(tail@),
    {
        if same_text(tail, ":not-attached") {
            Some(RuntimeError::NotAttached)
        } else if same_text(tail, ":not-feasible") {
            Some(RuntimeError::NotFeasible)
        } else if same_text(tail, ":timeout") {
            Some(RuntimeError::Timeout)
        } else {
            match strip_prefix(tail, ":unknown:") {
                Some(number) => match parse_decimal(number, 255) {
                    Some(code) => Some(RuntimeError::Unknown(code as u8)),
                    None => None,
                },
                None => None,
            }
        }
    }

    /// Reads an error from its written form.
    pub fn from_str(text: &str) -> (result: Result<RuntimeError, Error>)
        ensures
            match result {
                Ok(error) => RuntimeError::parsed(text@) == Some(error),
                Err(error) => RuntimeError::parsed(text@) is None && error.kind()
                    == ErrorKind::DBusService,
            },
    {
        match strip_prefix(text, "error:runtime") {
            Some(tail) => match RuntimeError::from_tail(tail) {
                Some(error) => Ok(error),
                None => Err(protocol_error("Unknown runtime error value")),
            },
            None => Err(protocol_error("Unknown runtime error value")),
        }
    }
}

impl CancelReason {
    /// The written form: `request`, `timeout:handler`, `timeout:disconnect`,
    /// the form of the runtime or hardware error, or `unknown:` and the code
    /// in decimal.
    pub open spec fn encoded(self) -> Seq<char> {
        match self {
            CancelReason::UserRequest => "request"@,
            CancelReason::HandlerTimeout => "timeout:handler"@,
            CancelReason::DisconnectTimeout => "timeout:disconnect"@,
            CancelReason::Runtime(error) => error.encoded(),
            CancelReason::Hardware(error) => error.encoded(),
            CancelReason::Unknown(code) => "unknown:"@ + decimal(code as nat),
        }
    }

    /// The reason that a text stands for, if it stands for one.
    pub open spec fn parsed(text: Seq<char>) -> Option<CancelReason> {
        if text == "request"@ {
            Some(CancelReason::UserRequest)
        } else if text == "timeout:handler"@ {
            Some(CancelReason::HandlerTimeout)
        } else if text == "timeout:disconnect"@ {
            Some(CancelReason::DisconnectTimeout)
        } else if has_prefix(text, "error:runtime"@) {
            match RuntimeError::parsed(text) {
                Some(error) => Some(CancelReason::Runtime(error)),
                None => None,
            }
        } else if has_prefix(text, "error:hardware"@) {
            match HardwareError::parsed(text) {
                Some(error) => Some(CancelReason::Hardware(error)),
                None => None,
            }
        } else if has_prefix(text, "unknown:"@) {
            match parsed_decimal(after_prefix(text, "unknown:"@), u16::MAX as nat) {
                Some(code) => Some(CancelReason::Unknown(code as u16)),
                None => None,
            }
        } else {
            None
        }
    }

    /// Reads a reason from its written form.
    pub fn from_str(text: &str) -> (result: Result<CancelReason, Error>)
        ensures
            match result {
                Ok(reason) => CancelReason::parsed(text@) == Some(reason),
                Err(error) => CancelReason::parsed(text@) is None && error.kind()
                    == ErrorKind::DBusService,
            },
    {
        if same_text(text, "request") {
            return Ok(CancelReason::UserRequest);
        }
        if same_text(text, "timeout:handler") {
            return Ok(CancelReason::HandlerTimeout);
        }
        if same_text(text, "timeout:disconnect") {
            return Ok(CancelReason::DisconnectTimeout);
        }
        if strip_prefix(text, "error:runtime").is_some() {
            return match RuntimeError::from_str(text) {
                Ok(error) => Ok(CancelReason::Runtime(error)),
                Err(error) => Err(error),
            };
        }
        if strip_prefix(text, "error:hardware").is_some() {
            return match HardwareError::from_str(text) {
                Ok(error) => Ok(CancelReason::Hardware(error)),
                Err(error) => Err(error),
            };
        }
        match strip_prefix(text, "unknown:") {
            Some(number) => match parse_decimal(number, u16::MAX) {
                Some(code) => Ok(CancelReason::Unknown(code)),
                None => Err(protocol_error("Failed to parse unknown cancel reason")),
            },
            None => Err(protocol_error("Unknown cancel reason")),
        }
    }
}

impl DbusArg for CancelReason {
    type Arg = String;

    open spec fn encodes(&self, arg: String) -> bool {
        arg@ == self.encoded()
    }

    fn as_arg(&self) -> (arg: String) {
        match self {
            CancelReason::UserRequest => String::from_str("request"),
            CancelReason::HandlerTimeout => String::from_str("timeout:handler"),
            CancelReason::DisconnectTimeout => String::from_str("timeout:disconnect"),
            CancelReason::Runtime(error) => error.as_arg(),
            CancelReason::Hardware(error) => error.as_arg(),
            CancelReason::Unknown(code) => {
                let mut arg = String::from_str("unknown:");
                push_decimal(&mut arg, *code);
                arg
            },
        }
    }
}

impl DbusArg for DeviceMode {
    type Arg = String;

    open spec fn encodes(&self, arg: String) -> bool {
        arg@ == self.name()
    }

    fn as_arg(&self) -> (arg: String) {
        String::from_str(self.as_str())
    }
}

impl LatchStatus {
    /// The written form: `closed`, `opened`, or the form of the error.
    pub open spec fn encoded(self) -> Seq<char> {
        match self {
            LatchStatus::Closed => "closed"@,
            LatchStatus::Opened => "opened"@,
            LatchStatus::Error(error) => error.encoded(),
        }
    }
}

impl DbusArg for LatchStatus {
    type Arg = String;

    open spec fn encodes(&self, arg: String) -> bool {
        arg@ == self.encoded()
    }

    fn as_arg(&self) -> (arg: String) {
        match self {
            LatchStatus::Closed => String::from_str("closed"),
            LatchStatus::Opened => String::from_str("opened"),
            LatchStatus::Error(error) => error.as_arg(),
        }
    }
}

impl BaseState {
    /// The written form: `detached`, `attached` or `not-feasible`.
    pub open spec fn encoded(self) -> Seq<char> {
        match self {
            BaseState::Detached => "detached"@,
            BaseState::Attached => "attached"@,
            BaseState::NotFeasible => "not-feasible"@,
        }
    }
}

impl DbusArg for BaseState {
    type Arg = String;

    open spec fn encodes(&self, arg: String) -> bool {
        arg@ == self.encoded()
    }

    fn as_arg(&self) -> (arg: String) {
        match self {
            BaseState::Detached => String::from_str("detached"),
            BaseState::Attached => String::from_str("attached"),
            BaseState::NotFeasible => String::from_str("not-feasible"),
        }
    }
}

impl DeviceType {
    /// The written form: `hid`, `ssh`, or `unknown:` and the number in
    /// decimal.
    pub open spec fn encoded(self) -> Seq<char> {
        match self {
            DeviceType::Hid => "hid"@,
            DeviceType::Ssh => "ssh"@,
            DeviceType::Unknown(code) => "unknown:"@ + decimal(code as nat),
        }
    }
}

impl DbusArg for DeviceType {
    type Arg = String;

    open spec fn encodes(&self, arg: String) -> bool {
        arg@ == self.encoded()
    }

    fn as_arg(&self) -> (arg: String) {
        match self {
            DeviceType::Hid => String::from_str("hid"),
            DeviceType::Ssh => String::from_str("ssh"),
            DeviceType::Unknown(code) => {
                let mut arg = String::from_str("unknown:");
                push_decimal(&mut arg, *code as u16);
                arg
            },
        }
    }
}

impl DbusArg for BaseInfo {
    type Arg = (String, String, u8);

    open spec fn encodes(&self, arg: (String, String, u8)) -> bool {
        &&& arg.0@ == self.state.encoded()
        &&& arg.1@ == self.device_type.encoded()
        &&& arg.2 == self.id
    }

    fn as_arg(&self) -> (arg: (String, String, u8)) {
        (self.state.as_arg(), self.device_type.as_arg(), self.id)
    }
}

/// A hardware error that is written and read back is the same error.
pub proof fn lemma_hardware_error_round_trip(error: HardwareError)
    ensures
        HardwareError::parsed(error.encoded()) == Some(error),
{
    reveal_strlit(":failed-to-open");
    reveal_strlit(":failed-to-remain-open");
    reveal_strlit(":failed-to-close");
    reveal_strlit(":unknown:");
    let tail = error.encoded_tail();
    lemma_prefix_of_concat("error:hardware"@, tail);
    match error {
        HardwareError::Unknown(code) => {
            let number = decimal(code as nat);
            lemma_decimal_digits(code as nat);
            lemma_prefix_differs(tail, ":failed-to-open"@, 1);
            lemma_prefix_differs(tail, ":failed-to-remain-open"@, 1);
            lemma_prefix_differs(tail, ":failed-to-close"@, 1);
            lemma_prefix_of_concat(":unknown:"@, number);
            lemma_decimal_round_trip(code as nat, u16::MAX as nat);
        },
        _ => {},
    }
}

/// A runtime error that is written and read back is the same error.
pub proof fn lemma_runtime_error_round_trip(error: RuntimeError)
    ensures
        RuntimeError::parsed(error.encoded()) == Some(error),
{
    reveal_strlit(":not-attached");
    reveal_strlit(":not-feasible");
    reveal_strlit(":timeout");
    reveal_strlit(":unknown:");
    let tail = error.encoded_tail();
    lemma_prefix_of_concat("error:runtime"@, tail);
    match error {
        RuntimeError::Unknown(code) => {
            let number = decimal(code as nat);
            lemma_decimal_digits(code as nat);
            lemma_prefix_differs(tail, ":not-attached"@, 1);
            lemma_prefix_differs(tail, ":not-feasible"@, 1);
            lemma_prefix_differs(tail, ":timeout"@, 1);
            lemma_prefix_of_concat(":unknown:"@, number);
            lemma_decimal_round_trip(code as nat, u8::MAX as nat);
        },
        RuntimeError::NotFeasible => {
            lemma_prefix_differs(tail, ":not-attached"@, 5);
        },
        _ => {},
    }
}

/// A reason that is written and read back is the same reason; where it
/// carries a code that is not known, the code comes back unchanged.
pub proof fn lemma_cancel_reason_round_trip(reason: CancelReason)
    ensures
        CancelReason::parsed(reason.encoded()) == Some(reason),
{
    reveal_strlit("request");
    reveal_strlit("timeout:handler");
    reveal_strlit("timeout:disconnect");
    reveal_strlit("error:runtime");
    reveal_strlit("error:hardware");
    reveal_strlit("unknown:");
    let text = reason.encoded();
    match reason {
        CancelReason::Runtime(error) => {
            lemma_runtime_error_round_trip(error);
            lemma_prefix_of_concat("error:runtime"@, error.encoded_tail());
            lemma_prefix_differs(text, "request"@, 0);
            lemma_prefix_differs(text, "timeout:handler"@, 0);
            lemma_prefix_differs(text, "timeout:disconnect"@, 0);
        },
        CancelReason::Hardware(error) => {
            lemma_hardware_error_round_trip(error);
            lemma_prefix_of_concat("error:hardware"@, error.encoded_tail());
            lemma_prefix_differs(text, "request"@, 0);
            lemma_prefix_differs(text, "timeout:handler"@, 0);
            lemma_prefix_differs(text, "timeout:disconnect"@, 0);
            lemma_prefix_differs(text, "error:runtime"@, 6);
        },
        CancelReason::Unknown(code) => {
            let number = decimal(code as nat);
            lemma_decimal_digits(code as nat);
            lemma_prefix_of_concat("unknown:"@, number);
            lemma_decimal_round_trip(code as nat, u16::MAX as nat);
            lemma_prefix_differs(text, "request"@, 0);
            lemma_prefix_differs(text, "timeout:handler"@, 0);
            lemma_prefix_differs(text, "timeout:disconnect"@, 0);
            lemma_prefix_differs(text, "error:runtime"@, 0);
            lemma_prefix_differs(text, "error:hardware"@, 0);
        },
        _ => {},
    }
}

} // verus!
