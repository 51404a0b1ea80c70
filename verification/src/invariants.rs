//! What holds of the detachment state engine, whatever it is fed.

use vstd::prelude::*;
use crate::device::Command;
use crate::engine::{Action, Call, CoreState, EcState, Outcome, Probe, RuntimeState};
use crate::event::{ConnectionState, Event};
use crate::types::{BaseState, CancelReason, DeviceType, HardwareError, LatchState, LatchStatus};

verus! {

impl CoreState {
    /// The latch is handed to the hardware only while a handler owns the
    /// procedure.
    pub open spec fn confirmed_under_handler(self) -> bool {
        self.ec == EcState::Confirmed ==> (self.rt == RuntimeState::Detaching || self.rt
            == RuntimeState::Canceling)
    }

    /// The attachment handler runs on a closed latch, with a base in place.
    pub open spec fn attaching_on_closed_latch(self) -> bool {
        self.rt == RuntimeState::Attaching ==> (self.latch == LatchState::Closed && self.base
            != BaseState::Detached)
    }

    /// An attachment is put off only while the latch is open, for a base
    /// that has come back.
    pub open spec fn deferral_on_open_latch(self) -> bool {
        self.needs_attachment ==> (self.latch == LatchState::Opened && self.base
            != BaseState::Detached)
    }

    /// The three together.
    pub open spec fn consistent(self) -> bool {
        &&& self.confirmed_under_handler()
        &&& self.attaching_on_closed_latch()
        &&& self.deferral_on_open_latch()
    }
}

/// The latch position that a report establishes, if it establishes one:
/// the reported one, or for an error the one that the reading tells.
pub open spec fn reported_latch(status: crate::event::LatchStatus, reading: Option<LatchStatus>)
    -> Option<LatchState> {
    match status {
        crate::event::LatchStatus::Closed => Some(LatchState::Closed),
        crate::event::LatchStatus::Opened => Some(LatchState::Opened),
        crate::event::LatchStatus::Unknown(_) => None,
        crate::event::LatchStatus::Error(_) => match reading {
            Some(status) => status.inferred_state(),
            None => None,
        },
    }
}

/// The events that the handshake with the controller rules out in a state:
/// - a handler reports the end of an attachment or of an abort while the
///   controller holds a confirmed detachment;
/// - the base goes away during attachment, or while an attachment is put off;
/// - the base comes back on a closed latch while the controller holds a
///   confirmed detachment;
/// - the latch opens during attachment.
pub open spec fn out_of_protocol(state: CoreState, event: Event, reading: Option<LatchStatus>)
    -> bool {
    match event {
        Event::AttachComplete
        | Event::AttachTimeout
        | Event::CancelComplete
        | Event::CancelTimeout => state.ec == EcState::Confirmed,
        Event::BaseConnection { state: report, .. } => match report.known() {
            Some(new) => {
                &&& new != state.base
                &&& if new == BaseState::Detached {
                    state.rt == RuntimeState::Attaching || state.needs_attachment
                } else {
                    &&& state.base == BaseState::Detached
                    &&& state.latch == LatchState::Closed
                    &&& state.ec == EcState::Confirmed
                }
            },
            None => false,
        },
        Event::LatchStatus { status } => {
            &&& reported_latch(status, reading) == Some(LatchState::Opened)
            &&& state.latch == LatchState::Closed
            &&& state.rt == RuntimeState::Attaching
        },
        _ => false,
    }
}

/// An event with the reading that goes with it.
pub struct Input {
    pub event: Event,
    pub reading: Option<LatchStatus>,
}

/// The engine run over a sequence of inputs: the state at the end and all
/// actions, in order.
pub open spec fn run(state: CoreState, inputs: Seq<Input>) -> Outcome
    decreases inputs.len(),
{
    if inputs.len() == 0 {
        state.stay()
    } else {
        let first = state.step(inputs[0].event, inputs[0].reading);
        let rest = run(first.state, inputs.drop_first());
        Outcome { state: rest.state, actions: first.actions + rest.actions }
    }
}

/// Whether every input of a run keeps to the handshake, each in the state
/// in which it arrives.
pub open spec fn in_protocol(state: CoreState, inputs: Seq<Input>) -> bool
    decreases inputs.len(),
{
    inputs.len() > 0 ==> {
        &&& !out_of_protocol(state, inputs[0].event, inputs[0].reading)
        &&& in_protocol(
            state.step(inputs[0].event, inputs[0].reading).state,
            inputs.drop_first(),
        )
    }
}

/// The engine starts out consistent, and start-up on a closed latch leaves
/// it so.
pub proof fn lemma_start_consistent(base: BaseState)
    ensures
        CoreState::initial().consistent(),
        CoreState::initial().started(base, LatchState::Closed).consistent(),
{
}

/// Whatever the state and the event, a step makes none of the three
/// conditions newly due without meeting it: the controller comes to hold a
/// confirmed detachment only under the detachment handler, attachment begins
/// only on a closed latch with a base in place, and an attachment is put off
/// only on an open latch, for a base that was off and has come back.
pub proof fn lemma_step_establishes(state: CoreState, event: Event, reading: Option<LatchStatus>)
    ensures
        ({
            let next = state.step(event, reading).state;
            &&& (state.ec != EcState::Confirmed && next.ec == EcState::Confirmed) ==> {
                &&& event == Event::DetachConfirm
                &&& next.rt == RuntimeState::Detaching
            }
            &&& (state.rt != RuntimeState::Attaching && next.rt == RuntimeState::Attaching) ==> {
                &&& next.latch == LatchState::Closed
                &&& next.base != BaseState::Detached
            }
            &&& (!state.needs_attachment && next.needs_attachment) ==> {
                &&& event is BaseConnection
                &&& next.latch == LatchState::Opened
                &&& state.base == BaseState::Detached
                &&& next.base != BaseState::Detached
            }
        }),
{
}

/// A step from a consistent state leads to a consistent state exactly when
/// the event keeps to the handshake.
pub proof fn lemma_step_consistent(state: CoreState, event: Event, reading: Option<LatchStatus>)
    requires
        state.consistent(),
    ensures
        state.step(event, reading).state.consistent() <==> !out_of_protocol(state, event, reading),
{
}

/// Every state that the engine reaches from a consistent one over inputs
/// that keep to the handshake is consistent.
pub proof fn lemma_run_consistent(state: CoreState, inputs: Seq<Input>)
    requires
        state.consistent(),
        in_protocol(state, inputs),
    ensures
        run(state, inputs).state.consistent(),
    decreases inputs.len(),
{
    if inputs.len() > 0 {
        lemma_step_consistent(state, inputs[0].event, inputs[0].reading);
        lemma_run_consistent(
            state.step(inputs[0].event, inputs[0].reading).state,
            inputs.drop_first(),
        );
    }
}

/// A detachment starts only from rest. A request that arrives for an
/// attached base while a handler runs is answered with a cancel command to
/// the controller, and with nothing else.
pub proof fn lemma_no_start_while_busy(state: CoreState, event: Event, reading: Option<LatchStatus>)
    ensures
        state.step(event, reading).actions.contains(Action::Call(Call::DetachmentStart)) ==> {
            &&& event == Event::Request
            &&& state.rt == RuntimeState::Ready
            &&& state.ec == EcState::Ready
            &&& state.base == BaseState::Attached
        },
        (event == Event::Request && state.ec == EcState::Ready && state.base == BaseState::Attached
            && state.rt != RuntimeState::Ready) ==> {
            &&& state.step(event, reading).actions == seq![Action::Issue(Command::LatchCancel)]
            &&& state.step(event, reading).state == CoreState { ec: EcState::InProgress, ..state }
        },
{
    let out = state.step(event, reading);
    if out.actions.contains(Action::Call(Call::DetachmentStart)) {
        let i = choose|i: int| 0 <= i < out.actions.len() && out.actions[i] == Action::Call(Call::DetachmentStart);
    }
    if event == Event::Request && state.ec == EcState::Ready && state.base == BaseState::Attached
        && state.rt != RuntimeState::Ready {
    }
}

/// The actions of a run are those of its first part, then those of the
/// rest run from where the first part ended. So what has been done after
/// any number of inputs is the beginning of what will have been done after
/// more, and depends on nothing but the state at the start and the inputs.
pub proof fn lemma_run_split(state: CoreState, first: Seq<Input>, rest: Seq<Input>)
    ensures
        run(state, first + rest).state == run(run(state, first).state, rest).state,
        run(state, first + rest).actions == run(state, first).actions + run(
            run(state, first).state,
            rest,
        ).actions,
    decreases first.len(),
{
    if first.len() > 0 {
        let all = first + rest;
        let head = state.step(first[0].event, first[0].reading);
        assert(all.drop_first() =~= first.drop_first() + rest);
        lemma_run_split(head.state, first.drop_first(), rest);
        let mid = run(head.state, first.drop_first());
    }
}

/// A report of the base connection, or of a latch status that is no error,
/// changes nothing and asks for nothing when it comes a second time.
pub proof fn lemma_repeated_report(
    state: CoreState,
    event: Event,
    first: Option<LatchStatus>,
    second: Option<LatchStatus>,
)
    requires
        event is BaseConnection || (event matches Event::LatchStatus { status }
            && !(status is Error)),
    ensures
        state.step(event, first).state.step(event, second) == state.step(event, first).state.stay(),
{
}

/// A report of the state that the engine already holds asks for nothing:
/// it leaves the base and the latch as they are, and a closed latch ends
/// the request.
pub proof fn lemma_unchanged_report(state: CoreState, event: Event, reading: Option<LatchStatus>)
    requires
        match event {
            Event::BaseConnection { state: report, .. } => report.known() == Some(state.base),
            Event::LatchStatus { status } => !(status is Error) && reported_latch(status, reading)
                == Some(state.latch),
            _ => false,
        },
    ensures
        state.step(event, reading).actions == Seq::<Action>::empty(),
        state.step(event, reading).state == if event is LatchStatus && state.latch
            == LatchState::Closed {
            CoreState { ec: EcState::Ready, ..state }
        } else {
            state
        },
{
}

/// A whole detachment and attachment leads back to where it began: the
/// request, the handler's consent, the latch opening, the base leaving and
/// coming back, the latch closing and the end of the attachment handler.
pub proof fn lemma_lifecycle_round_trip(device_type: DeviceType, id: u8)
    ensures
        ({
            let s0 = CoreState::initial();
            let s1 = s0.step(Event::Request, None).state;
            let s2 = s1.step(Event::DetachConfirm, None).state;
            let s3 = s2.step(
                Event::LatchStatus { status: crate::event::LatchStatus::Opened },
                None,
            ).state;
            let s4 = s3.step(
                Event::BaseConnection { state: ConnectionState::Disconnected, device_type, id },
                None,
            ).state;
            let s5 = s4.step(
                Event::BaseConnection { state: ConnectionState::Connected, device_type, id },
                None,
            ).state;
            let s6 = s5.step(
                Event::LatchStatus { status: crate::event::LatchStatus::Closed },
                None,
            ).state;
            let s7 = s6.step(Event::AttachComplete, None).state;
            s7 == s0
        }),
{
}

/// A press of the button after a confirmation, with the latch still
/// closed: the engine waits once, for two seconds, and reads the latch. If
/// it reads closed, the request is canceled, and a running detachment
/// handler gives way to the abort handler; if not, nothing happens yet.
pub proof fn lemma_request_after_confirm(state: CoreState, reading: LatchStatus)
    requires
        state.ec == EcState::Confirmed,
        state.latch == LatchState::Closed,
    ensures
        state.probe(Event::Request) == (Probe::After { millis: 2000 }),
        reading != LatchStatus::Closed ==> state.step(Event::Request, Some(reading)) == state.stay(),
        reading == LatchStatus::Closed ==> state.step(Event::Request, Some(reading))
            == state.canceled(CancelReason::UserRequest),
        (reading == LatchStatus::Closed && state.rt == RuntimeState::Detaching) ==> {
            &&& state.step(Event::Request, Some(reading)).actions == seq![
                Action::Call(Call::DetachmentCancelStart { reason: CancelReason::UserRequest }),
            ]
            &&& state.step(Event::Request, Some(reading)).state == CoreState {
                ec: EcState::Ready,
                rt: RuntimeState::Canceling,
                ..state
            }
        },
{
}

/// A latch error is handed on as it came. Where the reading tells a latch
/// position other than the one held, that position is handed on right
/// after it; where the reading tells none, the error is all and the state
/// stays; where it tells the position held, the error is all that is
/// handed on.
pub proof fn lemma_latch_error(state: CoreState, error: HardwareError, reading: LatchStatus)
    ensures
        ({
            let out = state.step(
                Event::LatchStatus { status: crate::event::LatchStatus::Error(error) },
                Some(reading),
            );
            let forwarded = Action::Call(Call::LatchStatus { status: LatchStatus::Error(error) });
            &&& out.actions.len() >= 1
            &&& out.actions[0] == forwarded
            &&& match reading.inferred_state() {
                None => out.actions.len() == 1 && out.state == state,
                Some(new) => if new == state.latch {
                    out.actions.len() == 1
                } else {
                    &&& out.actions.len() >= 2
                    &&& out.actions[1] == Action::Call(Call::LatchStatus { status: new.status() })
                    &&& out.state.latch == new
                },
            }
        }),
{
}

} // verus!
