//! The lifecycle signal of the bus interface: what the system daemon emits
//! and the user daemon reads.

use vstd::prelude::*;
use crate::arg::DbusArg;
use crate::error::{Error, ErrorKind, ErrorStr};
use crate::text::{lemma_prefix_differs, same_text};
use crate::types::CancelReason;
use crate::arg::lemma_cancel_reason_round_trip;

verus! {

/// Object path of the service.
pub const PATH: &'static str = "/org/surface/dtx";

/// Name of the interface, and the bus name of the service.
pub const INTERFACE: &'static str = "org.surface.dtx";

/// Name of the lifecycle signal.
pub const MEMBER: &'static str = "Event";

/// A lifecycle transition, as it is signalled.
#[derive(Debug, Clone, Copy, PartialEq, Eq, Structural)]
pub enum Event {
    DetachmentInhibited { reason: CancelReason },
    DetachmentStart,
    DetachmentReady,
    DetachmentComplete,
    DetachmentTimeout,
    DetachmentCancel { reason: CancelReason },
    DetachmentCancelStart { reason: CancelReason },
    DetachmentCancelComplete,
    DetachmentCancelTimeout,
    DetachmentUnexpected,
    AttachmentStart,
    AttachmentComplete,
    AttachmentTimeout,
}

/// What a bus message holds, as far as the user daemon reads it.
#[derive(Debug, Clone, PartialEq, Eq)]
pub struct Message {
    /// Whether the message is a signal.
    pub signal: bool,
    pub path: Option<String>,
    pub interface: Option<String>,
    pub member: Option<String>,
    /// The first argument, where the body is a string and a dictionary.
    pub ty: Option<String>,
    /// The entry `reason` of the dictionary, where it is there and a string.
    pub reason: Option<String>,
}

/// The text that an optional string holds.
pub open spec fn text_of(value: Option<String>) -> Option<Seq<char>> {
    match value {
        Some(text) => Some(text@),
        None => None,
    }
}

impl Event {
    /// The type under which the transition is signalled.
    pub open spec fn name(self) -> Seq<char> {
        match self {
            Event::DetachmentInhibited { .. } => "detachment:inhibited"@,
            Event::DetachmentStart => "detachment:start"@,
            Event::DetachmentReady => "detachment:ready"@,
            Event::DetachmentComplete => "detachment:complete"@,
            Event::DetachmentTimeout => "detachment:timeout"@,
            Event::DetachmentCancel { .. } => "detachment:cancel"@,
            Event::DetachmentCancelStart { .. } => "detachment:cancel:start"@,
            Event::DetachmentCancelComplete => "detachment:cancel:complete"@,
            Event::DetachmentCancelTimeout => "detachment:cancel:timeout"@,
            Event::DetachmentUnexpected => "detachment:unexpected"@,
            Event::AttachmentStart => "attachment:start"@,
            Event::AttachmentComplete => "attachment:complete"@,
            Event::AttachmentTimeout => "attachment:timeout"@,
        }
    }

    /// The reason that goes with the signal, for the types that carry one.
    pub open spec fn spec_reason(&self) -> Option<CancelReason> {
        match *self {
            Event::DetachmentInhibited { reason } => Some(reason),
            Event::DetachmentCancel { reason } => Some(reason),
            Event::DetachmentCancelStart { reason } => Some(reason),
            _ => None,
        }
    }

    /// The values that go with the signal: the written reason under
    /// `reason`, or nothing.
    pub open spec fn values(self) -> Option<Seq<char>> {
        match self.spec_reason() {
            Some(reason) => Some(reason.encoded()),
            None => None,
        }
    }

    pub fn ty(&self) -> (name: &'static str)
        ensures
            name@ == self.name(),
    {
        match self {
            Event::DetachmentInhibited { .. } => "detachment:inhibited",
            Event::DetachmentStart => "detachment:start",
            Event::DetachmentReady => "detachment:ready",
            Event::DetachmentComplete => "detachment:complete",
            Event::DetachmentTimeout => "detachment:timeout",
            Event::DetachmentCancel { .. } => "detachment:cancel",
            Event::DetachmentCancelStart { .. } => "detachment:cancel:start",
            Event::DetachmentCancelComplete => "detachment:cancel:complete",
            Event::DetachmentCancelTimeout => "detachment:cancel:timeout",
            Event::DetachmentUnexpected => "detachment:unexpected",
            Event::AttachmentStart => "attachment:start",
            Event::AttachmentComplete => "attachment:complete",
            Event::AttachmentTimeout => "attachment:timeout",
        }
    }

    #[verifier::when_used_as_spec(spec_reason)]
    pub fn reason(&self) -> (reason: Option<CancelReason>)
        ensures
            reason == self.spec_reason(),
    {
        match self {
            Event::DetachmentInhibited { reason } => Some(*reason),
            Event::DetachmentCancel { reason } => Some(*reason),
            Event::DetachmentCancelStart { reason } => Some(*reason),
            _ => None,
        }
    }

    /// The written reason that goes with the signal, if it carries one.
    pub fn reason_arg(&self) -> (arg: Option<String>)
        ensures
            text_of(arg) == self.values(),
    {
        match self.reason() {
            Some(reason) => Some(reason.as_arg()),
            None => None,
        }
    }

    /// The transition that a signal of type `ty` stands for. The types that
    /// carry a reason need one that can be read; the others take none into
    /// account.
    pub open spec fn of_parts(ty: Seq<char>, reason: Option<Seq<char>>) -> Option<Event> {
        let reason = match reason {
            Some(text) => CancelReason::parsed(text),
            None => None,
        };
        if ty == "detachment:inhibited"@ {
            match reason {
                Some(reason) => Some(Event::DetachmentInhibited { reason }),
                None => None,
            }
        } else if ty == "detachment:start"@ {
            Some(Event::DetachmentStart)
        } else if ty == "detachment:ready"@ {
            Some(Event::DetachmentReady)
        } else if ty == "detachment:complete"@ {
            Some(Event::DetachmentComplete)
        } else if ty == "detachment:timeout"@ {
            Some(Event::DetachmentTimeout)
        } else if ty == "detachment:cancel"@ {
            match reason {
                Some(reason) => Some(Event::DetachmentCancel { reason }),
                None => None,
            }
        } else if ty == "detachment:cancel:start"@ {
            match reason {
                Some(reason) => Some(Event::DetachmentCancelStart { reason }),
                None => None,
            }
        } else if ty == "detachment:cancel:complete"@ {
            Some(Event::DetachmentCancelComplete)
        } else if ty == "detachment:cancel:timeout"@ {
            Some(Event::DetachmentCancelTimeout)
        } else if ty == "detachment:unexpected"@ {
            Some(Event::DetachmentUnexpected)
        } else if ty == "attachment:start"@ {
            Some(Event::AttachmentStart)
        } else if ty == "attachment:complete"@ {
            Some(Event::AttachmentComplete)
        } else if ty == "attachment:timeout"@ {
            Some(Event::AttachmentTimeout)
        } else {
            None
        }
    }

    /// Whether a message is the lifecycle signal of the service.
    pub open spec fn matches_message(msg: Message) -> bool {
        &&& msg.signal
        &&& text_of(msg.path) == Some(PATH@)
        &&& text_of(msg.interface) == Some(INTERFACE@)
        &&& text_of(msg.member) == Some(MEMBER@)
    }

    /// The transition that the body of a message stands for.
    pub open spec fn of_message(msg: Message) -> Option<Event> {
        match msg.ty {
            Some(ty) => Event::of_parts(ty@, text_of(msg.reason)),
            None => None,
        }
    }

    pub fn match_message(msg: &Message) -> (matches: bool)
        ensures
            matches == Event::matches_message(*msg),
    {
        msg.signal && is_text(&msg.path, PATH) && is_text(&msg.interface, INTERFACE) && is_text(
            &msg.member,
            MEMBER,
        )
    }

    /// Reads the transition from the body of a message.
    pub fn from_message(msg: &Message) -> (result: Result<Event, Error>)
        ensures
            match result {
                Ok(event) => Event::of_message(*msg) == Some(event),
                Err(error) => Event::of_message(*msg) is None && error.kind()
                    == ErrorKind::DBusService,
            },
    {
        let ty = match &msg.ty {
            Some(ty) => ty.as_str(),
            None => {
                return Err(Error::with(ErrorStr::from("Protocol error"), ErrorKind::DBusService));
            },
        };
        if same_text(ty, "detachment:inhibited") {
            match read_reason(&msg.reason) {
                Ok(reason) => Ok(Event::DetachmentInhibited { reason }),
                Err(error) => Err(error),
            }
        } else if same_text(ty, "detachment:start") {
            Ok(Event::DetachmentStart)
        } else if same_text(ty, "detachment:ready") {
            Ok(Event::DetachmentReady)
        } else if same_text(ty, "detachment:complete") {
            Ok(Event::DetachmentComplete)
        } else if same_text(ty, "detachment:timeout") {
            Ok(Event::DetachmentTimeout)
        } else if same_text(ty, "detachment:cancel") {
            match read_reason(&msg.reason) {
                Ok(reason) => Ok(Event::DetachmentCancel { reason }),
                Err(error) => Err(error),
            }
        } else if same_text(ty, "detachment:cancel:start") {
            match read_reason(&msg.reason) {
                Ok(reason) => Ok(Event::DetachmentCancelStart { reason }),
                Err(error) => Err(error),
            }
        } else if same_text(ty, "detachment:cancel:complete") {
            Ok(Event::DetachmentCancelComplete)
        } else if same_text(ty, "detachment:cancel:timeout") {
            Ok(Event::DetachmentCancelTimeout)
        } else if same_text(ty, "detachment:unexpected") {
            Ok(Event::DetachmentUnexpected)
        } else if same_text(ty, "attachment:start") {
            Ok(Event::AttachmentStart)
        } else if same_text(ty, "attachment:complete") {
            Ok(Event::AttachmentComplete)
        } else if same_text(ty, "attachment:timeout") {
            Ok(Event::AttachmentTimeout)
        } else {
            Err(Error::with(ErrorStr::from("Unsupported event type"), ErrorKind::DBusService))
        }
    }

    /// Reads the transition from a message, where the message is the
    /// lifecycle signal; any other message is passed over.
    pub fn try_from_message(msg: &Message) -> (result: Result<Option<Event>, Error>)
        ensures
            match result {
                Ok(None) => !Event::matches_message(*msg),
                Ok(Some(event)) => Event::matches_message(*msg) && Event::of_message(*msg) == Some(
                    event,
                ),
                Err(error) => Event::matches_message(*msg) && Event::of_message(*msg) is None
                    && error.kind() == ErrorKind::DBusService,
            },
    {
        if Event::match_message(msg) {
            match Event::from_message(msg) {
                Ok(event) => Ok(Some(event)),
                Err(error) => Err(error),
            }
        } else {
            Ok(None)
        }
    }
}

fn is_text(value: &Option<String>, text: &str) -> (same: bool)
    ensures
        same == (text_of(*value) == Some(text@)),
{
    match value {
        Some(value) => same_text(value.as_str(), text),
        None => false,
    }
}

fn read_reason(value: &Option<String>) -> (result: Result<CancelReason, Error>)
    ensures
        match result {
            Ok(reason) => text_of(*value) matches Some(text) && CancelReason::parsed(text) == Some(
                reason,
            ),
            Err(error) => {
                &&& text_of(*value) matches Some(text) ==> CancelReason::parsed(text) is None
                &&& error.kind() == ErrorKind::DBusService
            },
        },
{
    match value {
        Some(text) => CancelReason::from_str(text.as_str()),
        None => Err(Error::with(ErrorStr::from("Missing argument: reason"), ErrorKind::DBusService)),
    }
}

/// A transition that is signalled and read back is the same transition.
pub proof fn lemma_event_round_trip(event: Event)
    ensures
        Event::of_parts(event.name(), event.values()) == Some(event),
{
    reveal_strlit("detachment:inhibited");
    reveal_strlit("detachment:start");
    reveal_strlit("detachment:ready");
    reveal_strlit("detachment:complete");
    reveal_strlit("detachment:timeout");
    reveal_strlit("detachment:cancel");
    reveal_strlit("detachment:cancel:start");
    reveal_strlit("detachment:cancel:complete");
    reveal_strlit("detachment:cancel:timeout");
    reveal_strlit("detachment:unexpected");
    reveal_strlit("attachment:start");
    reveal_strlit("attachment:complete");
    reveal_strlit("attachment:timeout");
    match event.spec_reason() {
        Some(reason) => lemma_cancel_reason_round_trip(reason),
        None => {},
    }
    match event {
        Event::DetachmentInhibited { .. } => {},
        Event::DetachmentStart => {
            lemma_prefix_differs("detachment:start"@, "detachment:inhibited"@, 11);
        },
        Event::DetachmentReady => {
            lemma_prefix_differs("detachment:ready"@, "detachment:inhibited"@, 11);
            lemma_prefix_differs("detachment:ready"@, "detachment:start"@, 11);
        },
        Event::DetachmentComplete => {
            lemma_prefix_differs("detachment:complete"@, "detachment:inhibited"@, 11);
            lemma_prefix_differs("detachment:complete"@, "detachment:start"@, 11);
            lemma_prefix_differs("detachment:complete"@, "detachment:ready"@, 11);
        },
        Event::DetachmentTimeout => {
            lemma_prefix_differs("detachment:timeout"@, "detachment:inhibited"@, 11);
            lemma_prefix_differs("detachment:timeout"@, "detachment:start"@, 11);
            lemma_prefix_differs("detachment:timeout"@, "detachment:ready"@, 11);
            lemma_prefix_differs("detachment:timeout"@, "detachment:complete"@, 11);
        },
        Event::DetachmentCancel { .. } => {
            lemma_prefix_differs("detachment:cancel"@, "detachment:inhibited"@, 11);
            lemma_prefix_differs("detachment:cancel"@, "detachment:start"@, 11);
            lemma_prefix_differs("detachment:cancel"@, "detachment:ready"@, 11);
            lemma_prefix_differs("detachment:cancel"@, "detachment:complete"@, 12);
            lemma_prefix_differs("detachment:cancel"@, "detachment:timeout"@, 11);
        },
        Event::DetachmentCancelStart { .. } => {
            lemma_prefix_differs("detachment:cancel:start"@, "detachment:inhibited"@, 11);
            lemma_prefix_differs("detachment:cancel:start"@, "detachment:start"@, 11);
            lemma_prefix_differs("detachment:cancel:start"@, "detachment:ready"@, 11);
            lemma_prefix_differs("detachment:cancel:start"@, "detachment:complete"@, 12);
            lemma_prefix_differs("detachment:cancel:start"@, "detachment:timeout"@, 11);
        },
        Event::DetachmentCancelComplete => {
            lemma_prefix_differs("detachment:cancel:complete"@, "detachment:inhibited"@, 11);
            lemma_prefix_differs("detachment:cancel:complete"@, "detachment:start"@, 11);
            lemma_prefix_differs("detachment:cancel:complete"@, "detachment:ready"@, 11);
            lemma_prefix_differs("detachment:cancel:complete"@, "detachment:complete"@, 12);
            lemma_prefix_differs("detachment:cancel:complete"@, "detachment:timeout"@, 11);
            lemma_prefix_differs("detachment:cancel:complete"@, "detachment:cancel:start"@, 18);
        },
        Event::DetachmentCancelTimeout => {
            lemma_prefix_differs("detachment:cancel:timeout"@, "detachment:inhibited"@, 11);
            lemma_prefix_differs("detachment:cancel:timeout"@, "detachment:start"@, 11);
            lemma_prefix_differs("detachment:cancel:timeout"@, "detachment:ready"@, 11);
            lemma_prefix_differs("detachment:cancel:timeout"@, "detachment:complete"@, 12);
            lemma_prefix_differs("detachment:cancel:timeout"@, "detachment:timeout"@, 11);
            lemma_prefix_differs("detachment:cancel:timeout"@, "detachment:cancel:start"@, 18);
            lemma_prefix_differs("detachment:cancel:timeout"@, "detachment:cancel:complete"@, 18);
        },
        Event::DetachmentUnexpected => {
            lemma_prefix_differs("detachment:unexpected"@, "detachment:inhibited"@, 11);
            lemma_prefix_differs("detachment:unexpected"@, "detachment:start"@, 11);
            lemma_prefix_differs("detachment:unexpected"@, "detachment:ready"@, 11);
            lemma_prefix_differs("detachment:unexpected"@, "detachment:complete"@, 11);
            lemma_prefix_differs("detachment:unexpected"@, "detachment:timeout"@, 11);
            lemma_prefix_differs("detachment:unexpected"@, "detachment:cancel"@, 11);
            lemma_prefix_differs("detachment:unexpected"@, "detachment:cancel:start"@, 11);
            lemma_prefix_differs("detachment:unexpected"@, "detachment:cancel:complete"@, 11);
            lemma_prefix_differs("detachment:unexpected"@, "detachment:cancel:timeout"@, 11);
        },
        Event::AttachmentStart => {
            lemma_prefix_differs("attachment:start"@, "detachment:inhibited"@, 0);
            lemma_prefix_differs("attachment:start"@, "detachment:start"@, 0);
            lemma_prefix_differs("attachment:start"@, "detachment:ready"@, 0);
            lemma_prefix_differs("attachment:start"@, "detachment:complete"@, 0);
            lemma_prefix_differs("attachment:start"@, "detachment:timeout"@, 0);
            lemma_prefix_differs("attachment:start"@, "detachment:cancel"@, 0);
            lemma_prefix_differs("attachment:start"@, "detachment:cancel:start"@, 0);
            lemma_prefix_differs("attachment:start"@, "detachment:cancel:complete"@, 0);
            lemma_prefix_differs("attachment:start"@, "detachment:cancel:timeout"@, 0);
            lemma_prefix_differs("attachment:start"@, "detachment:unexpected"@, 0);
        },
        Event::AttachmentComplete => {
            lemma_prefix_differs("attachment:complete"@, "detachment:inhibited"@, 0);
            lemma_prefix_differs("attachment:complete"@, "detachment:start"@, 0);
            lemma_prefix_differs("attachment:complete"@, "detachment:ready"@, 0);
            lemma_prefix_differs("attachment:complete"@, "detachment:complete"@, 0);
            lemma_prefix_differs("attachment:complete"@, "detachment:timeout"@, 0);
            lemma_prefix_differs("attachment:complete"@, "detachment:cancel"@, 0);
            lemma_prefix_differs("attachment:complete"@, "detachment:cancel:start"@, 0);
            lemma_prefix_differs("attachment:complete"@, "detachment:cancel:complete"@, 0);
            lemma_prefix_differs("attachment:complete"@, "detachment:cancel:timeout"@, 0);
            lemma_prefix_differs("attachment:complete"@, "detachment:unexpected"@, 0);
            lemma_prefix_differs("attachment:complete"@, "attachment:start"@, 11);
        },
        Event::AttachmentTimeout => {
            lemma_prefix_differs("attachment:timeout"@, "detachment:inhibited"@, 0);
            lemma_prefix_differs("attachment:timeout"@, "detachment:start"@, 0);
            lemma_prefix_differs("attachment:timeout"@, "detachment:ready"@, 0);
            lemma_prefix_differs("attachment:timeout"@, "detachment:complete"@, 0);
            lemma_prefix_differs("attachment:timeout"@, "detachment:timeout"@, 0);
            lemma_prefix_differs("attachment:timeout"@, "detachment:cancel"@, 0);
            lemma_prefix_differs("attachment:timeout"@, "detachment:cancel:start"@, 0);
            lemma_prefix_differs("attachment:timeout"@, "detachment:cancel:complete"@, 0);
            lemma_prefix_differs("attachment:timeout"@, "detachment:cancel:timeout"@, 0);
            lemma_prefix_differs("attachment:timeout"@, "detachment:unexpected"@, 0);
            lemma_prefix_differs("attachment:timeout"@, "attachment:start"@, 11);
            lemma_prefix_differs("attachment:timeout"@, "attachment:complete"@, 11);
        },
    }
}

} // verus!
