//! The user daemon: which notifications the lifecycle signals of the system
//! daemon lead to.
//!
//! The daemon decides from the signal and from what it has displayed so far.
//! It asks for notifications to be shown and closed; whoever holds the
//! connection to the session bus does that, and reports the handle of a
//! notification that the daemon wants to close later.

use vstd::prelude::*;
use vstd::string::StringExecFns;
use crate::notify::{
    hinted, Hint, HintView, Notification, NotificationHandle, NotificationView, Timeout,
};
use crate::signal::Event;
use crate::text::{decimal, push_decimal};
use crate::types::{CancelReason, HardwareError, RuntimeError};

verus! {

/// Name under which the daemon notifies.
pub const APP_NAME: &'static str = "Surface DTX";

/// What the daemon tells the user.
#[derive(Debug, Clone, Copy, PartialEq, Eq, Structural)]
pub enum Notice {
    /// The latch is open: the clipboard can be taken off.
    DetachReady,
    /// A detachment was canceled, for a reason that the user should know.
    Canceled(CancelReason),
    /// The abort handler ran out of time.
    CancelTimeout,
    /// The base went away without a detachment.
    Unexpected,
    /// The base is attached and usable.
    AttachComplete,
    /// The attachment handler ran out of time.
    AttachTimeout,
}

/// What the daemon wants done on the session bus.
#[derive(Debug, Clone, Copy, PartialEq, Eq, Structural)]
pub enum Request {
    /// Close the notification with this handle.
    Close(NotificationHandle),
    /// Show a notification; where `keep` is set, report its handle with
    /// [`Core::displayed`].
    Show { notice: Notice, keep: bool },
}

impl CancelReason {
    /// Whether the user is told of a cancellation for this reason. One that
    /// the user asked for needs no word, nor one for want of a base.
    pub open spec fn is_notified(self) -> bool {
        match self {
            CancelReason::UserRequest => false,
            CancelReason::DisconnectTimeout => false,
            CancelReason::Runtime(RuntimeError::NotAttached) => false,
            _ => true,
        }
    }

    #[verifier::when_used_as_spec(is_notified)]
    pub fn notified(self) -> (notified: bool)
        ensures
            notified == self.is_notified(),
    {
        match self {
            CancelReason::UserRequest => false,
            CancelReason::DisconnectTimeout => false,
            CancelReason::Runtime(RuntimeError::NotAttached) => false,
            _ => true,
        }
    }
}

impl Notice {
    /// Category of the notification.
    pub open spec fn category(self) -> Seq<char> {
        match self {
            Notice::DetachReady => "device.removed"@,
            Notice::Canceled(CancelReason::Runtime(RuntimeError::NotFeasible)) => "device"@,
            Notice::AttachComplete => "device.added"@,
            _ => "device.error"@,
        }
    }

    /// Headline of the notification.
    pub open spec fn summary(self) -> Seq<char> {
        match self {
            Notice::DetachReady => "Surface DTX: Clipboard can be detached"@,
            Notice::Canceled(CancelReason::Runtime(RuntimeError::NotFeasible)) => "Surface DTX: Detachment canceled"@,
            Notice::Canceled(CancelReason::Runtime(RuntimeError::Timeout)) => "Surface DTX: Detachment canceled"@,
            Notice::AttachComplete => "Surface DTX: Base attached"@,
            _ => "Surface DTX: Error"@,
        }
    }

    /// Text of the notification. An error that is not known is named by its
    /// code, in decimal. There is no text for a cancellation of which the
    /// user is not told.
    pub open spec fn body(self) -> Seq<char> {
        match self {
            Notice::DetachReady => "You can disconnect the clipboard now."@,
            Notice::Canceled(reason) => match reason {
                CancelReason::Runtime(RuntimeError::NotFeasible) => "Detachment canceled by the controller. Please make sure that the tablet battery is sufficently charged."@,
                CancelReason::Runtime(RuntimeError::Timeout) => "The detachment process has timed out while the base was locked. Please ensure that the detachment handler is set up correctly."@,
                CancelReason::Runtime(RuntimeError::Unknown(code)) => "Detachment canceled due to unknown runtime error ("@
                    + decimal(code as nat) + ")."@,
                CancelReason::Hardware(HardwareError::FailedToOpen) => "Hardware error: The controller failed to open the latch."@,
                CancelReason::Hardware(HardwareError::FailedToRemainOpen) => "Hardware error: The controller failed to keep the latch open."@,
                CancelReason::Hardware(HardwareError::FailedToClose) => "Hardware error: The controller failed to close the latch."@,
                CancelReason::Hardware(HardwareError::Unknown(code)) => "Detachment canceled due to unknown hardware error ("@
                    + decimal(code as nat) + ")."@,
                CancelReason::Unknown(code) => "Detachment canceled due to unknown error ("@
                    + decimal(code as nat) + ")."@,
                CancelReason::HandlerTimeout => "Detachment canceled due to handler timeout. This may lead to data loss! Please consult the logs for mode details."@,
                _ => Seq::empty(),
            },
            Notice::CancelTimeout => "The detachment cancellation handler has timed out. This may lead to data loss! Please consult the logs for more details."@,
            Notice::Unexpected => "Base disconnected unexpectedly. This may lead to data loss! Please consult the logs for more details."@,
            Notice::AttachComplete => "The base has been successfully attached and is now fully usable."@,
            Notice::AttachTimeout => "The attachment handler has timed out. Please consult the logs for more details."@,
        }
    }

    /// The hint that follows image and category: a notice that the base is
    /// attached is transient, every other one is urgent.
    pub open spec fn weight(self) -> (Seq<char>, HintView) {
        match self {
            Notice::AttachComplete => ("transient"@, HintView::Flag(true)),
            _ => ("urgency"@, HintView::Number(2)),
        }
    }

    /// Whether the notification stays until it is closed.
    pub open spec fn is_resident(self) -> bool {
        self == Notice::DetachReady
    }

    /// The notification for the notice.
    pub open spec fn shown(self) -> NotificationView {
        let blank = NotificationView::blank(APP_NAME@);
        let hints = hinted(
            hinted(
                hinted(Seq::empty(), "image-path"@, HintView::Text("input-tablet"@)),
                "category"@,
                HintView::Text(self.category()),
            ),
            self.weight().0,
            self.weight().1,
        );
        NotificationView {
            summary: self.summary(),
            body: self.body(),
            hints: if self.is_resident() {
                hinted(hints, "resident"@, HintView::Flag(true))
            } else {
                hints
            },
            expires: if self.is_resident() {
                Timeout::Never.spec_expires()
            } else {
                blank.expires
            },
            ..blank
        }
    }

    fn category_text(self) -> (text: &'static str)
        ensures
            text@ == self.category(),
    {
        match self {
            Notice::DetachReady => "device.removed",
            Notice::Canceled(CancelReason::Runtime(RuntimeError::NotFeasible)) => "device",
            Notice::AttachComplete => "device.added",
            _ => "device.error",
        }
    }

    fn summary_text(self) -> (text: &'static str)
        ensures
            text@ == self.summary(),
    {
        match self {
            Notice::DetachReady => "Surface DTX: Clipboard can be detached",
            Notice::Canceled(CancelReason::Runtime(RuntimeError::NotFeasible)) => "Surface DTX: Detachment canceled",
            Notice::Canceled(CancelReason::Runtime(RuntimeError::Timeout)) => "Surface DTX: Detachment canceled",
            Notice::AttachComplete => "Surface DTX: Base attached",
            _ => "Surface DTX: Error",
        }
    }

    fn numbered(before: &str, code: u16) -> (text: String)
        ensures
            text@ == before@ + decimal(code as nat) + ")."@,
    {
        let mut text = String::from_str(before);
        push_decimal(&mut text, code);
        text.append(").");
        text
    }

    fn body_text(self) -> (text: String)
        ensures
            text@ == self.body(),
    {
        match self {
            Notice::DetachReady => String::from_str("You can disconnect the clipboard now."),
            Notice::Canceled(reason) => match reason {
                CancelReason::Runtime(RuntimeError::NotFeasible) => String::from_str(
                    "Detachment canceled by the controller. Please make sure that the tablet battery is sufficently charged.",
                ),
                CancelReason::Runtime(RuntimeError::Timeout) => String::from_str(
                    "The detachment process has timed out while the base was locked. Please ensure that the detachment handler is set up correctly.",
                ),
                CancelReason::Runtime(RuntimeError::Unknown(code)) => Notice::numbered(
                    "Detachment canceled due to unknown runtime error (",
                    code as u16,
                ),
                CancelReason::Hardware(HardwareError::FailedToOpen) => String::from_str(
                    "Hardware error: The controller failed to open the latch.",
                ),
                CancelReason::Hardware(HardwareError::FailedToRemainOpen) => String::from_str(
                    "Hardware error: The controller failed to keep the latch open.",
                ),
                CancelReason::Hardware(HardwareError::FailedToClose) => String::from_str(
                    "Hardware error: The controller failed to close the latch.",
                ),
                CancelReason::Hardware(HardwareError::Unknown(code)) => Notice::numbered(
                    "Detachment canceled due to unknown hardware error (",
                    code,
                ),
                CancelReason::Unknown(code) => Notice::numbered(
                    "Detachment canceled due to unknown error (",
                    code,
                ),
                CancelReason::HandlerTimeout => String::from_str(
                    "Detachment canceled due to handler timeout. This may lead to data loss! Please consult the logs for mode details.",
                ),
                _ => String::new(),
            },
            Notice::CancelTimeout => String::from_str(
                "The detachment cancellation handler has timed out. This may lead to data loss! Please consult the logs for more details.",
            ),
            Notice::Unexpected => String::from_str(
                "Base disconnected unexpectedly. This may lead to data loss! Please consult the logs for more details.",
            ),
            Notice::AttachComplete => String::from_str(
                "The base has been successfully attached and is now fully usable.",
            ),
            Notice::AttachTimeout => String::from_str(
                "The attachment handler has timed out. Please consult the logs for more details.",
            ),
        }
    }

    /// Builds the notification for the notice.
    pub fn notification(self) -> (notif: Notification)
        ensures
            notif@ == self.shown(),
    {
        let body = self.body_text();
        let builder = Notification::create(APP_NAME).summary(self.summary_text()).body(
            body.as_str(),
        ).hint_s("image-path", "input-tablet").hint_s("category", self.category_text());
        let builder = match self {
            Notice::AttachComplete => builder.hint("transient", Hint::Flag(true)),
            _ => builder.hint("urgency", Hint::Number(2)),
        };
        match self {
            Notice::DetachReady => builder.hint("resident", Hint::Flag(true)).expires(
                Timeout::Never,
            ).build(),
            _ => builder.build(),
        }
    }
}

/// State of the user daemon.
#[derive(Debug, Clone, Copy, PartialEq, Eq, Structural)]
pub struct CoreState {
    /// The detachment under way was canceled: it will not become ready.
    pub canceled: bool,
    /// The notification that says that the clipboard can be taken off.
    pub notif: Option<NotificationHandle>,
}

/// What one signal leads to.
pub struct Outcome {
    pub state: CoreState,
    pub requests: Seq<Request>,
}

impl CoreState {
    pub open spec fn initial() -> CoreState {
        CoreState { canceled: false, notif: None }
    }

    /// The request to close the notification that was kept, if one was.
    pub open spec fn closing(self) -> Seq<Request> {
        match self.notif {
            Some(handle) => Seq::empty().push(Request::Close(handle)),
            None => Seq::empty(),
        }
    }

    /// What the signal `event` leads to in this state.
    ///
    /// A detachment that starts or completes takes away the notification
    /// that the clipboard can be taken off. That notification is shown
    /// when the detachment is ready, unless it was canceled before. A
    /// cancellation takes it away too, and tells the user why, where there
    /// is something to tell. The other notices are shown as they come.
    pub open spec fn step(self, event: Event) -> Outcome {
        match event {
            Event::DetachmentStart => Outcome {
                state: CoreState { canceled: false, ..self },
                requests: self.closing(),
            },
            Event::DetachmentReady => if self.canceled {
                Outcome { state: self, requests: Seq::empty() }
            } else {
                Outcome {
                    state: self,
                    requests: Seq::empty().push(
                        Request::Show { notice: Notice::DetachReady, keep: true },
                    ),
                }
            },
            Event::DetachmentComplete => Outcome { state: self, requests: self.closing() },
            Event::DetachmentCancel { reason } => Outcome {
                state: CoreState { canceled: true, ..self },
                requests: if reason.is_notified() {
                    self.closing().push(
                        Request::Show { notice: Notice::Canceled(reason), keep: false },
                    )
                } else {
                    self.closing()
                },
            },
            Event::DetachmentCancelTimeout => Outcome {
                state: self,
                requests: Seq::empty().push(
                    Request::Show { notice: Notice::CancelTimeout, keep: false },
                ),
            },
            Event::DetachmentUnexpected => Outcome {
                state: self,
                requests: Seq::empty().push(
                    Request::Show { notice: Notice::Unexpected, keep: false },
                ),
            },
            Event::AttachmentComplete => Outcome {
                state: self,
                requests: Seq::empty().push(
                    Request::Show { notice: Notice::AttachComplete, keep: false },
                ),
            },
            Event::AttachmentTimeout => Outcome {
                state: self,
                requests: Seq::empty().push(
                    Request::Show { notice: Notice::AttachTimeout, keep: false },
                ),
            },
            _ => Outcome { state: self, requests: Seq::empty() },
        }
    }
}

/// The user daemon.
#[derive(Debug)]
pub struct Core {
    state: CoreState,
}

impl View for Core {
    type V = CoreState;

    closed spec fn view(&self) -> CoreState {
        self.state
    }
}

impl Core {
    pub fn new() -> (core: Core)
        ensures
            core@ == CoreState::initial(),
    {
        Core { state: CoreState { canceled: false, notif: None } }
    }

    /// The state as it stands.
    pub fn state(&self) -> (state: CoreState)
        ensures
            state == self@,
    {
        self.state
    }

    /// Handles one signal of the system daemon.
    pub fn handle(&mut self, event: Event) -> (requests: Vec<Request>)
        ensures
            final(self)@ == old(self)@.step(event).state,
            requests@ == old(self)@.step(event).requests,
    {
        let mut requests = Vec::new();
        match event {
            Event::DetachmentStart => {
                self.close_current_notification(&mut requests);
                self.state.canceled = false;
            },
            Event::DetachmentReady => {
                if !self.state.canceled {
                    requests.push(Request::Show { notice: Notice::DetachReady, keep: true });
                }
            },
            Event::DetachmentComplete => {
                self.close_current_notification(&mut requests);
            },
            Event::DetachmentCancel { reason } => {
                self.close_current_notification(&mut requests);
                self.state.canceled = true;
                if reason.notified() {
                    requests.push(Request::Show { notice: Notice::Canceled(reason), keep: false });
                }
            },
            Event::DetachmentCancelTimeout => {
                requests.push(Request::Show { notice: Notice::CancelTimeout, keep: false });
            },
            Event::DetachmentUnexpected => {
                requests.push(Request::Show { notice: Notice::Unexpected, keep: false });
            },
            Event::AttachmentComplete => {
                requests.push(Request::Show { notice: Notice::AttachComplete, keep: false });
            },
            Event::AttachmentTimeout => {
                requests.push(Request::Show { notice: Notice::AttachTimeout, keep: false });
            },
            _ => {},
        }
        requests
    }

    /// Takes note of the handle of a notification that was shown to be
    /// kept.
    pub fn displayed(&mut self, handle: NotificationHandle)
        ensures
            final(self)@ == (CoreState { notif: Some(handle), ..old(self)@ }),
    {
        self.state.notif = Some(handle);
    }

    fn close_current_notification(&self, requests: &mut Vec<Request>)
        ensures
            final(requests)@ == old(requests)@ + self@.closing(),
    {
        match self.state.notif {
            Some(handle) => {
                requests.push(Request::Close(handle));
            },
            None => {},
        }
    }
}

} // verus!
