//! Errors of the daemons, by kind.

use vstd::prelude::*;
use vstd::std_specs::convert::{FromSpec, FromSpecImpl};
use vstd::string::StringExecFns;

verus! {

/// What failed. Every kind is fatal to the daemon: a configuration error
/// before it has done anything, the others while it runs.
#[derive(Debug, Clone, Copy, PartialEq, Eq, Structural)]
pub enum ErrorKind {
    Config,
    DeviceAccess,
    DeviceIo,
    Process,
    DBusService,
    Runtime,
}

impl ErrorKind {
    /// What the kind is called in a report.
    pub open spec fn description(self) -> Seq<char> {
        match self {
            ErrorKind::Config => "Invalid configuration"@,
            ErrorKind::DeviceAccess => "Device access failure"@,
            ErrorKind::DeviceIo => "Device I/O failure"@,
            ErrorKind::Process => "Failed to run external process"@,
            ErrorKind::DBusService => "DBus service failure"@,
            ErrorKind::Runtime => "Runtime failure"@,
        }
    }

    pub fn as_str(self) -> (s: &'static str)
        ensures
            s@ == self.description(),
    {
        match self {
            ErrorKind::Config => "Invalid configuration",
            ErrorKind::DeviceAccess => "Device access failure",
            ErrorKind::DeviceIo => "Device I/O failure",
            ErrorKind::Process => "Failed to run external process",
            ErrorKind::DBusService => "DBus service failure",
            ErrorKind::Runtime => "Runtime failure",
        }
    }
}

/// A fixed message that serves as the cause of an error.
#[derive(Debug, Clone, Copy)]
pub struct ErrorStr {
    pub message: &'static str,
}

impl From<&'static str> for ErrorStr {
    fn from(message: &'static str) -> (cause: ErrorStr) {
        ErrorStr { message }
    }
}

impl FromSpecImpl<&'static str> for ErrorStr {
    open spec fn obeys_from_spec() -> bool {
        true
    }

    open spec fn from_spec(message: &'static str) -> ErrorStr {
        ErrorStr { message }
    }
}

/// An error: its kind, and the message of what caused it.
#[derive(Debug, Clone, Copy)]
pub struct Error {
    kind: ErrorKind,
    cause: Option<ErrorStr>,
}

impl Error {
    pub closed spec fn spec_kind(&self) -> ErrorKind {
        self.kind
    }

    pub closed spec fn spec_cause(&self) -> Option<ErrorStr> {
        self.cause
    }

    /// An error of the given kind, caused by `cause`.
    pub fn with(cause: ErrorStr, context: ErrorKind) -> (error: Error)
        ensures
            error.spec_kind() == context,
            error.spec_cause() == Some(cause),
    {
        Error { kind: context, cause: Some(cause) }
    }

    #[verifier::when_used_as_spec(spec_kind)]
    pub fn kind(&self) -> (kind: ErrorKind)
        ensures
            kind == self.spec_kind(),
    {
        self.kind
    }

    #[verifier::when_used_as_spec(spec_cause)]
    pub fn cause(&self) -> (cause: Option<ErrorStr>)
        ensures
            cause == self.spec_cause(),
    {
        self.cause
    }

    /// What is printed when the error ends the program: what the kind is
    /// called and a full stop, then, on a line of its own and indented, the
    /// cause and a full stop.
    pub open spec fn report_text(&self) -> Seq<char> {
        let head = self.spec_kind().description() + "."@;
        match self.spec_cause() {
            Some(cause) => head + "\n       "@ + cause.message@ + "."@,
            None => head,
        }
    }

    pub fn report(&self) -> (text: String)
        ensures
            text@ == self.report_text(),
    {
        let mut text = String::from_str(self.kind.as_str());
        text.append(".");
        match self.cause {
            Some(cause) => {
                text.append("\n       ");
                text.append(cause.message);
                text.append(".");
            },
            None => {},
        }
        text
    }
}

impl From<ErrorKind> for Error {
    fn from(kind: ErrorKind) -> (error: Error) {
        Error { kind, cause: None }
    }
}

impl FromSpecImpl<ErrorKind> for Error {
    open spec fn obeys_from_spec() -> bool {
        true
    }

    closed spec fn from_spec(kind: ErrorKind) -> Error {
        Error { kind, cause: None }
    }
}

/// An error holds what it was made from.
pub proof fn lemma_error_from_kind(kind: ErrorKind)
    ensures
        <Error as FromSpec<ErrorKind>>::from_spec(kind).spec_kind() == kind,
        <Error as FromSpec<ErrorKind>>::from_spec(kind).spec_cause() is None,
{
}

} // verus!
