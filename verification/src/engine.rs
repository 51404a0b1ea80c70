//! The detachment state engine.
//!
//! The engine takes one event at a time. From its state and the event it
//! decides the next state and what is to be done: commands to the device and
//! calls to the adapters, in order. It does nothing else itself. Whoever runs
//! it performs the actions one after the other and stops at the first that
//! fails; such a failure is fatal to the daemon.
//!
//! Two events need a fresh reading of the latch before they can be decided.
//! [`Core::probe`] says so, and the reading is handed to [`Core::handle`]
//! together with the event.

use vstd::prelude::*;
use crate::device::Command;
use crate::error::{Error, ErrorKind, ErrorStr};
use crate::event::{ConnectionState, DetachError, Event};
use crate::types::{
    BaseInfo, BaseState, CancelReason, DeviceMode, DeviceType, LatchState, LatchStatus,
};

verus! {

/// Where the embedded controller stands in the handshake.
#[derive(Debug, Clone, Copy, PartialEq, Eq, Structural)]
pub enum EcState {
    /// Ready for a new request.
    Ready,
    /// A request is open: it waits to be confirmed or canceled.
    InProgress,
    /// The request was confirmed: the latch opens.
    Confirmed,
}

/// Which handler phase runs.
#[derive(Debug, Clone, Copy, PartialEq, Eq, Structural)]
pub enum RuntimeState {
    Ready,
    Detaching,
    Canceling,
    Attaching,
}

/// State of the engine.
#[derive(Debug, Clone, Copy, PartialEq, Eq, Structural)]
pub struct CoreState {
    /// Base connection, as last reported.
    pub base: BaseState,
    /// Latch position, as last reported.
    pub latch: LatchState,
    pub ec: EcState,
    pub rt: RuntimeState,
    /// The base came back while the latch was open: attachment is due as
    /// soon as the latch has closed.
    pub needs_attachment: bool,
}

/// A call to the adapters.
#[derive(Debug, Clone, Copy, PartialEq, Eq)]
pub enum Call {
    SetState { mode: DeviceMode, base: BaseInfo, latch: LatchState },
    RequestCanceled { reason: CancelReason },
    DetachmentStart,
    DetachmentComplete,
    DetachmentTimeout,
    DetachmentCancelStart { reason: CancelReason },
    DetachmentCancelComplete,
    DetachmentCancelTimeout,
    DetachmentUnexpected,
    AttachmentStart,
    AttachmentComplete,
    AttachmentTimeout,
    BaseState { info: BaseInfo },
    LatchStatus { status: LatchStatus },
    DeviceMode { mode: DeviceMode },
}

/// One thing that the engine wants done.
#[derive(Debug, Clone, Copy, PartialEq, Eq)]
pub enum Action {
    /// Send a command to the device.
    Issue(Command),
    /// Call the adapters.
    Call(Call),
}

/// The reading of the latch that an event needs before it can be decided.
#[derive(Debug, Clone, Copy, PartialEq, Eq, Structural)]
pub enum Probe {
    /// The event is decided from the state alone.
    NotNeeded,
    /// Read the latch status at once.
    Now,
    /// Wait, then read the latch status.
    After { millis: u64 },
}

/// How long the engine waits for the latch to open after a confirmation
/// before it takes a further press of the button for a cancellation.
pub const CONFIRM_SETTLE_MILLIS: u64 = 2000;

/// What one step of the engine yields.
pub struct Outcome {
    pub state: CoreState,
    pub actions: Seq<Action>,
}

impl LatchState {
    /// The status that is published for a latch position.
    pub open spec fn status(self) -> LatchStatus {
        match self {
            LatchState::Closed => LatchStatus::Closed,
            LatchState::Opened => LatchStatus::Opened,
        }
    }
}

impl CoreState {
    /// The state before anything is known: base attached, latch closed,
    /// nothing in progress.
    pub open spec fn initial() -> CoreState {
        CoreState {
            base: BaseState::Attached,
            latch: LatchState::Closed,
            ec: EcState::Ready,
            rt: RuntimeState::Ready,
            needs_attachment: false,
        }
    }

    /// The state after start-up, from what the device reports then. An open
    /// latch means that the controller is in the middle of a detachment.
    pub open spec fn started(self, base: BaseState, latch: LatchState) -> CoreState {
        CoreState {
            base,
            latch,
            ec: match latch {
                LatchState::Closed => EcState::Ready,
                LatchState::Opened => EcState::Confirmed,
            },
            rt: RuntimeState::Ready,
            needs_attachment: self.needs_attachment,
        }
    }

    /// Nothing changes and nothing is done.
    pub open spec fn stay(self) -> Outcome {
        Outcome { state: self, actions: Seq::empty() }
    }

    /// The reading that `event` needs in this state.
    pub open spec fn probe(self, event: Event) -> Probe {
        match event {
            Event::Request => if self.ec == EcState::Confirmed && self.latch == LatchState::Closed {
                Probe::After { millis: CONFIRM_SETTLE_MILLIS }
            } else {
                Probe::NotNeeded
            },
            Event::LatchStatus { status: crate::event::LatchStatus::Error(_) } => Probe::Now,
            _ => Probe::NotNeeded,
        }
    }

    /// The request in progress is canceled: the controller is ready again,
    /// and a running detachment handler gives way to the abort handler.
    pub open spec fn canceled(self, reason: CancelReason) -> Outcome {
        if self.rt == RuntimeState::Detaching {
            Outcome {
                state: CoreState { ec: EcState::Ready, rt: RuntimeState::Canceling, ..self },
                actions: Seq::empty().push(Action::Call(Call::DetachmentCancelStart { reason })),
            }
        } else {
            Outcome { state: CoreState { ec: EcState::Ready, ..self }, actions: Seq::empty() }
        }
    }

    /// The button was pressed. `reading` is the latch status read for
    /// [`Self::probe`], where that asked for one.
    ///
    /// While a request is in progress the press cancels it, but only at a
    /// point where the latch is known to be closed. Otherwise it opens a
    /// request, which is refused at once where no base can be detached or a
    /// handler still runs.
    pub open spec fn on_request(self, reading: Option<LatchStatus>) -> Outcome {
        if self.ec != EcState::Ready {
            if self.latch == LatchState::Opened {
                self.stay()
            } else if self.ec == EcState::Confirmed && reading != Some(LatchStatus::Closed) {
                self.stay()
            } else {
                self.canceled(CancelReason::UserRequest)
            }
        } else {
            let open = CoreState { ec: EcState::InProgress, ..self };
            match self.base.refusal() {
                Some(error) => Outcome {
                    state: open,
                    actions: Seq::empty().push(Action::Issue(Command::LatchCancel)).push(
                        Action::Call(Call::RequestCanceled { reason: CancelReason::Runtime(error) }),
                    ),
                },
                None => if self.rt != RuntimeState::Ready {
                    Outcome {
                        state: open,
                        actions: Seq::empty().push(Action::Issue(Command::LatchCancel)),
                    }
                } else {
                    Outcome {
                        state: CoreState { rt: RuntimeState::Detaching, ..open },
                        actions: Seq::empty().push(Action::Call(Call::DetachmentStart)),
                    }
                },
            }
        }
    }

    /// Whether a response of the detachment handler is still wanted.
    pub open spec fn awaits_handler(self) -> bool {
        self.ec == EcState::InProgress && self.rt == RuntimeState::Detaching
    }

    /// The detachment handler agrees.
    pub open spec fn on_detach_confirm(self) -> Outcome {
        if self.awaits_handler() {
            Outcome {
                state: CoreState { ec: EcState::Confirmed, ..self },
                actions: Seq::empty().push(Action::Issue(Command::LatchConfirm)),
            }
        } else {
            self.stay()
        }
    }

    /// The detachment handler objects.
    pub open spec fn on_detach_cancel(self) -> Outcome {
        if self.awaits_handler() {
            Outcome { state: self, actions: Seq::empty().push(Action::Issue(Command::LatchCancel)) }
        } else {
            self.stay()
        }
    }

    /// The detachment handler ran out of time.
    pub open spec fn on_detach_timeout(self) -> Outcome {
        if self.awaits_handler() {
            Outcome {
                state: self,
                actions: Seq::empty().push(Action::Issue(Command::LatchCancel)).push(
                    Action::Call(Call::DetachmentTimeout),
                ),
            }
        } else {
            self.stay()
        }
    }

    /// A handler phase is over, in the way that `call` reports.
    pub open spec fn finished(self, call: Call) -> Outcome {
        Outcome {
            state: CoreState { rt: RuntimeState::Ready, ..self },
            actions: Seq::empty().push(Action::Call(call)),
        }
    }

    /// The controller cancels.
    pub open spec fn on_cancel(self, reason: DetachError) -> Outcome {
        if self.ec == EcState::Ready {
            Outcome {
                state: self,
                actions: Seq::empty().push(
                    Action::Call(Call::RequestCanceled { reason: reason.reason() }),
                ),
            }
        } else {
            self.canceled(reason.reason())
        }
    }

    /// The base connection is reported. A report of a state that the engine
    /// does not know, or of the state it already has, is dropped.
    pub open spec fn on_base_state(self, state: ConnectionState, device_type: DeviceType, id: u8)
        -> Outcome {
        match state.known() {
            None => self.stay(),
            Some(new) => if new == self.base {
                self.stay()
            } else {
                let moved = CoreState { base: new, ..self };
                let told = Seq::empty().push(
                    Action::Call(Call::BaseState { info: BaseInfo { state: new, device_type, id } }),
                );
                if new == BaseState::Detached {
                    if self.latch == LatchState::Closed || self.ec == EcState::Ready {
                        Outcome {
                            state: moved,
                            actions: told.push(Action::Call(Call::DetachmentUnexpected)),
                        }
                    } else {
                        Outcome { state: moved, actions: told }
                    }
                } else if self.base == BaseState::Detached {
                    match self.latch {
                        LatchState::Closed => Outcome {
                            state: CoreState {
                                needs_attachment: false,
                                rt: RuntimeState::Attaching,
                                ..moved
                            },
                            actions: told.push(Action::Call(Call::AttachmentStart)),
                        },
                        LatchState::Opened => Outcome {
                            state: CoreState { needs_attachment: true, ..moved },
                            actions: told,
                        },
                    }
                } else {
                    Outcome { state: moved, actions: told }
                }
            },
        }
    }

    /// The latch has taken the position `new`, after `told` was decided.
    /// A closed latch ends the request in any case.
    pub open spec fn latch_moved(self, new: LatchState, told: Seq<Action>) -> Outcome {
        let settled = if new == LatchState::Closed {
            CoreState { ec: EcState::Ready, ..self }
        } else {
            self
        };
        if new == self.latch {
            Outcome { state: settled, actions: told }
        } else {
            let moved = CoreState { latch: new, ..settled };
            let told = told.push(Action::Call(Call::LatchStatus { status: new.status() }));
            if new == LatchState::Opened {
                Outcome { state: moved, actions: told }
            } else if self.base == BaseState::Detached {
                Outcome {
                    state: CoreState { rt: RuntimeState::Ready, ..moved },
                    actions: told.push(Action::Call(Call::DetachmentComplete)),
                }
            } else if !self.needs_attachment {
                if self.ec != EcState::Ready && self.rt == RuntimeState::Detaching {
                    Outcome {
                        state: CoreState { rt: RuntimeState::Canceling, ..moved },
                        actions: told.push(
                            Action::Call(
                                Call::DetachmentCancelStart { reason: CancelReason::UserRequest },
                            ),
                        ),
                    }
                } else {
                    Outcome { state: moved, actions: told }
                }
            } else {
                Outcome {
                    state: CoreState {
                        needs_attachment: false,
                        rt: RuntimeState::Attaching,
                        ..moved
                    },
                    actions: told.push(Action::Call(Call::DetachmentComplete)).push(
                        Action::Call(Call::AttachmentStart),
                    ),
                }
            }
        }
    }

    /// The latch status is reported. `reading` is the latch status read for
    /// [`Self::probe`], where that asked for one.
    ///
    /// An error is handed on as it came, and the latch position is taken
    /// from the reading. Where the reading does not tell it, that is all.
    pub open spec fn on_latch_status(
        self,
        status: crate::event::LatchStatus,
        reading: Option<LatchStatus>,
    ) -> Outcome {
        match status {
            crate::event::LatchStatus::Closed => self.latch_moved(LatchState::Closed, Seq::empty()),
            crate::event::LatchStatus::Opened => self.latch_moved(LatchState::Opened, Seq::empty()),
            crate::event::LatchStatus::Unknown(_) => self.stay(),
            crate::event::LatchStatus::Error(error) => {
                let told = Seq::empty().push(
                    Action::Call(Call::LatchStatus { status: LatchStatus::Error(error) }),
                );
                match reading {
                    Some(status) => match status.inferred_state() {
                        Some(new) => self.latch_moved(new, told),
                        None => Outcome { state: self, actions: told },
                    },
                    None => self.stay(),
                }
            },
        }
    }

    /// The device mode is reported.
    pub open spec fn on_device_mode(self, mode: crate::event::DeviceMode) -> Outcome {
        match mode.known() {
            Some(mode) => Outcome {
                state: self,
                actions: Seq::empty().push(Action::Call(Call::DeviceMode { mode })),
            },
            None => self.stay(),
        }
    }

    /// One step of the engine: the state after `event` and the actions it
    /// asks for, in the order in which they are due.
    pub open spec fn step(self, event: Event, reading: Option<LatchStatus>) -> Outcome {
        match event {
            Event::Request => self.on_request(reading),
            Event::DetachConfirm => self.on_detach_confirm(),
            Event::DetachCancel => self.on_detach_cancel(),
            Event::DetachTimeout => self.on_detach_timeout(),
            Event::AttachComplete => self.finished(Call::AttachmentComplete),
            Event::AttachTimeout => self.finished(Call::AttachmentTimeout),
            Event::CancelComplete => self.finished(Call::DetachmentCancelComplete),
            Event::CancelTimeout => self.finished(Call::DetachmentCancelTimeout),
            Event::Cancel { reason } => self.on_cancel(reason),
            Event::BaseConnection { state, device_type, id } => self.on_base_state(
                state,
                device_type,
                id,
            ),
            Event::LatchStatus { status } => self.on_latch_status(status, reading),
            Event::DeviceMode { mode } => self.on_device_mode(mode),
            Event::Unknown { .. } => self.stay(),
        }
    }

    /// Whether `reading` holds what `event` needs in this state.
    pub open spec fn supplied(self, event: Event, reading: Option<LatchStatus>) -> bool {
        self.probe(event) != Probe::NotNeeded ==> reading is Some
    }
}

/// Ticket of the detachment handler: what it sends back to the engine.
#[derive(Debug, Clone, Copy, PartialEq, Eq, Structural)]
pub struct DtHandle {}

/// Ticket of the abort handler.
#[derive(Debug, Clone, Copy, PartialEq, Eq, Structural)]
pub struct DtcHandle {}

/// Ticket of the attachment handler.
#[derive(Debug, Clone, Copy, PartialEq, Eq, Structural)]
pub struct AtHandle {}

impl DtHandle {
    /// The handler agrees to the detachment.
    pub fn confirm(&self) -> (event: Event)
        ensures
            event == Event::DetachConfirm,
    {
        Event::DetachConfirm
    }

    /// The handler objects to the detachment.
    pub fn cancel(&self) -> (event: Event)
        ensures
            event == Event::DetachCancel,
    {
        Event::DetachCancel
    }

    /// The handler ran out of time.
    pub fn timeout(&self) -> (event: Event)
        ensures
            event == Event::DetachTimeout,
    {
        Event::DetachTimeout
    }

    /// The command that keeps the controller waiting while the handler runs.
    pub fn heartbeat(&self) -> (command: Command)
        ensures
            command == Command::LatchHeartbeat,
    {
        Command::LatchHeartbeat
    }
}

impl DtcHandle {
    pub fn complete(&self) -> (event: Event)
        ensures
            event == Event::CancelComplete,
    {
        Event::CancelComplete
    }

    pub fn timeout(&self) -> (event: Event)
        ensures
            event == Event::CancelTimeout,
    {
        Event::CancelTimeout
    }
}

impl AtHandle {
    pub fn complete(&self) -> (event: Event)
        ensures
            event == Event::AttachComplete,
    {
        Event::AttachComplete
    }

    pub fn timeout(&self) -> (event: Event)
        ensures
            event == Event::AttachTimeout,
    {
        Event::AttachTimeout
    }
}

/// The engine.
#[derive(Debug)]
pub struct Core {
    state: CoreState,
}

impl View for Core {
    type V = CoreState;

    closed spec fn view(&self) -> CoreState {
        self.state
    }
}

impl Core {
    pub fn new() -> (core: Core)
        ensures
            core@ == CoreState::initial(),
    {
        Core {
            state: CoreState {
                base: BaseState::Attached,
                latch: LatchState::Closed,
                ec: EcState::Ready,
                rt: RuntimeState::Ready,
                needs_attachment: false,
            },
        }
    }

    /// The state as it stands.
    pub fn state(&self) -> (state: CoreState)
        ensures
            state == self@,
    {
        self.state
    }

    /// The commands of start-up, in their order: events are enabled before
    /// base, latch and device mode are read, so that no change between the
    /// reading and the first event is missed.
    pub fn startup() -> (commands: [Command; 4])
        ensures
            commands@ == seq![
                Command::EventsEnable,
                Command::GetBaseInfo,
                Command::GetLatchStatus,
                Command::GetDeviceMode,
            ],
    {
        [
            Command::EventsEnable,
            Command::GetBaseInfo,
            Command::GetLatchStatus,
            Command::GetDeviceMode,
        ]
    }

    /// Takes up what the device reports at start-up, once events are
    /// enabled, and tells the adapters. A latch in error is a failure; the
    /// engine then stays as it was.
    pub fn start(&mut self, mode: DeviceMode, base: BaseInfo, latch: LatchStatus) -> (result: Result<
        Vec<Action>,
        Error,
    >)
        ensures
            match latch {
                LatchStatus::Error(_) => {
                    &&& result matches Err(error)
                    &&& error.kind() == ErrorKind::DeviceIo
                    &&& final(self)@ == old(self)@
                },
                _ => {
                    &&& result matches Ok(actions)
                    &&& final(self)@ == old(self)@.started(base.state, latch.inferred_state().unwrap())
                    &&& actions@ == Seq::empty().push(
                        Action::Call(
                            Call::SetState { mode, base, latch: latch.inferred_state().unwrap() },
                        ),
                    )
                },
            },
    {
        let latch = match latch {
            LatchStatus::Closed => LatchState::Closed,
            LatchStatus::Opened => LatchState::Opened,
            LatchStatus::Error(_) => {
                return Err(Error::with(ErrorStr::from("DTX hardware error"), ErrorKind::DeviceIo));
            },
        };
        self.state.base = base.state;
        self.state.latch = latch;
        self.state.ec = match latch {
            LatchState::Closed => EcState::Ready,
            LatchState::Opened => EcState::Confirmed,
        };
        self.state.rt = RuntimeState::Ready;
        let mut actions = Vec::new();
        actions.push(Action::Call(Call::SetState { mode, base, latch }));
        Ok(actions)
    }

    /// The reading of the latch that `event` needs before it is handled.
    pub fn probe(&self, event: &Event) -> (probe: Probe)
        ensures
            probe == self@.probe(*event),
    {
        match event {
            Event::Request => {
                if self.state.ec == EcState::Confirmed && self.state.latch == LatchState::Closed {
                    Probe::After { millis: CONFIRM_SETTLE_MILLIS }
                } else {
                    Probe::NotNeeded
                }
            },
            Event::LatchStatus { status: crate::event::LatchStatus::Error(_) } => Probe::Now,
            _ => Probe::NotNeeded,
        }
    }

    /// Handles one event. `reading` is the latch status that was read as
    /// [`Self::probe`] asked; it is not looked at where none was asked for.
    ///
    /// Fails, and leaves the engine as it was, exactly where a reading is
    /// needed and there is none: the device could not be read.
    pub fn handle(&mut self, event: Event, reading: Option<LatchStatus>) -> (result: Result<
        Vec<Action>,
        Error,
    >)
        ensures
            match result {
                Ok(actions) => {
                    &&& old(self)@.supplied(event, reading)
                    &&& final(self)@ == old(self)@.step(event, reading).state
                    &&& actions@ == old(self)@.step(event, reading).actions
                },
                Err(error) => {
                    &&& !old(self)@.supplied(event, reading)
                    &&& error.kind() == ErrorKind::DeviceIo
                    &&& final(self)@ == old(self)@
                },
            },
    {
        if reading.is_none() {
            match self.probe(&event) {
                Probe::NotNeeded => {},
                _ => {
                    return Err(Error::with(ErrorStr::from("DTX device error"), ErrorKind::DeviceIo));
                },
            }
        }
        let mut actions = Vec::new();
        match event {
            Event::Request => self.on_request(reading, &mut actions),
            Event::DetachConfirm => self.on_detach_confirm(&mut actions),
            Event::DetachCancel => self.on_detach_cancel(&mut actions),
            Event::DetachTimeout => self.on_detach_timeout(&mut actions),
            Event::AttachComplete => self.finish(Call::AttachmentComplete, &mut actions),
            Event::AttachTimeout => self.finish(Call::AttachmentTimeout, &mut actions),
            Event::CancelComplete => self.finish(Call::DetachmentCancelComplete, &mut actions),
            Event::CancelTimeout => self.finish(Call::DetachmentCancelTimeout, &mut actions),
            Event::Cancel { reason } => self.on_cancel(reason, &mut actions),
            Event::BaseConnection { state, device_type, id } => self.on_base_state(
                state,
                device_type,
                id,
                &mut actions,
            ),
            Event::LatchStatus { status } => self.on_latch_status(status, reading, &mut actions),
            Event::DeviceMode { mode } => self.on_device_mode(mode, &mut actions),
            Event::Unknown { .. } => {},
        }
        Ok(actions)
    }

    fn cancel_detachment(&mut self, reason: CancelReason, actions: &mut Vec<Action>)
        ensures
            final(self)@ == old(self)@.canceled(reason).state,
            final(actions)@ == old(actions)@ + old(self)@.canceled(reason).actions,
    {
        self.state.ec = EcState::Ready;
        if self.state.rt == RuntimeState::Detaching {
            self.state.rt = RuntimeState::Canceling;
            actions.push(Action::Call(Call::DetachmentCancelStart { reason }));
        }
    }

    fn on_request(&mut self, reading: Option<LatchStatus>, actions: &mut Vec<Action>)
        requires
            old(self)@.supplied(Event::Request, reading),
        ensures
            final(self)@ == old(self)@.on_request(reading).state,
            final(actions)@ == old(actions)@ + old(self)@.on_request(reading).actions,
    {
        if self.state.ec != EcState::Ready {
            if self.state.latch == LatchState::Opened {
                return ;
            }
            if self.state.ec == EcState::Confirmed {
                match reading {
                    Some(LatchStatus::Closed) => {},
                    _ => {
                        return ;
                    },
                }
            }
            self.cancel_detachment(CancelReason::UserRequest, actions);
            return ;
        }
        self.state.ec = EcState::InProgress;
        match self.state.base.refusal_reason() {
            Some(error) => {
                actions.push(Action::Issue(Command::LatchCancel));
                actions.push(Action::Call(Call::RequestCanceled { reason: CancelReason::Runtime(error) }));
            },
            None => {
                if self.state.rt != RuntimeState::Ready {
                    actions.push(Action::Issue(Command::LatchCancel));
                } else {
                    self.state.rt = RuntimeState::Detaching;
                    actions.push(Action::Call(Call::DetachmentStart));
                }
            },
        }
    }

    fn on_detach_confirm(&mut self, actions: &mut Vec<Action>)
        ensures
            final(self)@ == old(self)@.on_detach_confirm().state,
            final(actions)@ == old(actions)@ + old(self)@.on_detach_confirm().actions,
    {
        if self.state.ec == EcState::InProgress && self.state.rt == RuntimeState::Detaching {
            self.state.ec = EcState::Confirmed;
            actions.push(Action::Issue(Command::LatchConfirm));
        }
    }

    fn on_detach_cancel(&mut self, actions: &mut Vec<Action>)
        ensures
            final(self)@ == old(self)@.on_detach_cancel().state,
            final(actions)@ == old(actions)@ + old(self)@.on_detach_cancel().actions,
    {
        if self.state.ec == EcState::InProgress && self.state.rt == RuntimeState::Detaching {
            actions.push(Action::Issue(Command::LatchCancel));
        }
    }

    fn on_detach_timeout(&mut self, actions: &mut Vec<Action>)
        ensures
            final(self)@ == old(self)@.on_detach_timeout().state,
            final(actions)@ == old(actions)@ + old(self)@.on_detach_timeout().actions,
    {
        if self.state.ec == EcState::InProgress && self.state.rt == RuntimeState::Detaching {
            actions.push(Action::Issue(Command::LatchCancel));
            actions.push(Action::Call(Call::DetachmentTimeout));
        }
    }

    fn finish(&mut self, call: Call, actions: &mut Vec<Action>)
        ensures
            final(self)@ == old(self)@.finished(call).state,
            final(actions)@ == old(actions)@ + old(self)@.finished(call).actions,
    {
        self.state.rt = RuntimeState::Ready;
        actions.push(Action::Call(call));
    }

    fn on_cancel(&mut self, reason: DetachError, actions: &mut Vec<Action>)
        ensures
            final(self)@ == old(self)@.on_cancel(reason).state,
            final(actions)@ == old(actions)@ + old(self)@.on_cancel(reason).actions,
    {
        let told = CancelReason::from(reason);
        if self.state.ec == EcState::Ready {
            actions.push(Action::Call(Call::RequestCanceled { reason: told }));
        } else {
            self.cancel_detachment(told, actions);
        }
    }

    fn on_base_state(
        &mut self,
        state: ConnectionState,
        device_type: DeviceType,
        id: u8,
        actions: &mut Vec<Action>,
    )
        ensures
            final(self)@ == old(self)@.on_base_state(state, device_type, id).state,
            final(actions)@ == old(actions)@ + old(self)@.on_base_state(
                state,
                device_type,
                id,
            ).actions,
    {
        let new = match state.to_base_state() {
            Some(new) => new,
            None => {
                return ;
            },
        };
        if new == self.state.base {
            return ;
        }
        let old_base = self.state.base;
        self.state.base = new;
        actions.push(Action::Call(Call::BaseState { info: BaseInfo { state: new, device_type, id } }));
        if new == BaseState::Detached {
            if self.state.latch == LatchState::Closed || self.state.ec == EcState::Ready {
                actions.push(Action::Call(Call::DetachmentUnexpected));
            }
        } else if old_base == BaseState::Detached {
            match self.state.latch {
                LatchState::Closed => {
                    self.state.needs_attachment = false;
                    self.state.rt = RuntimeState::Attaching;
                    actions.push(Action::Call(Call::AttachmentStart));
                },
                LatchState::Opened => {
                    self.state.needs_attachment = true;
                },
            }
        }
    }

    fn move_latch(&mut self, new: LatchState, actions: &mut Vec<Action>, Ghost(told): Ghost<
        Seq<Action>,
    >, Ghost(before): Ghost<Seq<Action>>)
        requires
            old(actions)@ == before + told,
        ensures
            final(self)@ == old(self)@.latch_moved(new, told).state,
            final(actions)@ == before + old(self)@.latch_moved(new, told).actions,
    {
        let ec = self.state.ec;
        if new == LatchState::Closed {
            self.state.ec = EcState::Ready;
        }
        if new == self.state.latch {
            return ;
        }
        self.state.latch = new;
        actions.push(Action::Call(Call::LatchStatus { status: LatchStatus::from(new) }));
        if new == LatchState::Opened {
            return ;
        }
        if self.state.base == BaseState::Detached {
            self.state.rt = RuntimeState::Ready;
            actions.push(Action::Call(Call::DetachmentComplete));
        } else if !self.state.needs_attachment {
            if ec != EcState::Ready && self.state.rt == RuntimeState::Detaching {
                self.state.rt = RuntimeState::Canceling;
                actions.push(
                    Action::Call(Call::DetachmentCancelStart { reason: CancelReason::UserRequest }),
                );
            }
        } else {
            self.state.rt = RuntimeState::Ready;
            actions.push(Action::Call(Call::DetachmentComplete));
            self.state.needs_attachment = false;
            self.state.rt = RuntimeState::Attaching;
            actions.push(Action::Call(Call::AttachmentStart));
        }
    }

    fn on_latch_status(
        &mut self,
        status: crate::event::LatchStatus,
        reading: Option<LatchStatus>,
        actions: &mut Vec<Action>,
    )
        requires
            old(self)@.supplied(Event::LatchStatus { status }, reading),
        ensures
            final(self)@ == old(self)@.on_latch_status(status, reading).state,
            final(actions)@ == old(actions)@ + old(self)@.on_latch_status(status, reading).actions,
    {
        let ghost before = actions@;
        match status {
            crate::event::LatchStatus::Closed => {
                self.move_latch(LatchState::Closed, actions, Ghost(Seq::empty()), Ghost(before));
            },
            crate::event::LatchStatus::Opened => {
                self.move_latch(LatchState::Opened, actions, Ghost(Seq::empty()), Ghost(before));
            },
            crate::event::LatchStatus::Unknown(_) => {},
            crate::event::LatchStatus::Error(error) => {
                let forwarded = Action::Call(Call::LatchStatus { status: LatchStatus::Error(error) });
                let ghost told = Seq::empty().push(forwarded);
                actions.push(forwarded);
                assert(actions@ =~= before + told);
                match reading {
                    Some(status) => match status.infer_state() {
                        Some(new) => {
                            self.move_latch(new, actions, Ghost(told), Ghost(before));
                        },
                        None => {},
                    },
                    None => {},
                }
            },
        }
    }

    fn on_device_mode(&mut self, mode: crate::event::DeviceMode, actions: &mut Vec<Action>)
        ensures
            final(self)@ == old(self)@.on_device_mode(mode).state,
            final(actions)@ == old(actions)@ + old(self)@.on_device_mode(mode).actions,
    {
        match mode.to_mode() {
            Some(mode) => {
                actions.push(Action::Call(Call::DeviceMode { mode }));
            },
            None => {},
        }
    }
}

} // verus!
