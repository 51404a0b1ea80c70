//! The handler runner: which task a lifecycle transition calls for, and what
//! a task reports back when it is over.
//!
//! A task runs the handler of its phase, if one is configured, against a
//! timeout; the task of a detachment also keeps the controller waiting with a
//! heartbeat. Whatever ends first decides what the engine is told.

use vstd::prelude::*;
use vstd::std_specs::convert::FromSpecImpl;
use crate::adapter::Adapter;
use crate::config::{Config, LogLevel};
use crate::engine::{AtHandle, Call, DtHandle, DtcHandle};
use crate::error::Error;
use crate::event::Event;
use crate::service::ServiceAdapter;
use crate::taskq::{QueueView, TaskQueue};

verus! {

/// Time between two heartbeats, in milliseconds.
pub const HEARTBEAT_PERIOD_MS: u64 = 2500;

/// Name of the variable that tells the detachment handler the exit code by
/// which it lets the detachment go on.
pub const ENV_COMMENCE: &'static str = "EXIT_DETACH_COMMENCE";

/// Name of the variable that tells the detachment handler the exit code by
/// which it calls the detachment off.
pub const ENV_ABORT: &'static str = "EXIT_DETACH_ABORT";

/// What the detachment handler says by its exit code.
#[derive(Debug, Clone, Copy, PartialEq, Eq, Structural)]
pub enum ExitStatus {
    Commence,
    Abort,
}

impl ExitStatus {
    /// The exit code that stands for the answer, in digits.
    pub open spec fn digits(self) -> Seq<char> {
        match self {
            ExitStatus::Commence => "0"@,
            ExitStatus::Abort => "1"@,
        }
    }

    /// The answer that an exit code stands for: 0 lets the detachment go
    /// on, any other code calls it off, and so does a handler that left no
    /// code.
    pub open spec fn of_code(code: Option<i32>) -> ExitStatus {
        if code == Some(0i32) {
            ExitStatus::Commence
        } else {
            ExitStatus::Abort
        }
    }

    pub fn as_str(&self) -> (digits: &'static str)
        ensures
            digits@ == self.digits(),
    {
        match self {
            ExitStatus::Commence => "0",
            ExitStatus::Abort => "1",
        }
    }
}

impl From<Option<i32>> for ExitStatus {
    fn from(code: Option<i32>) -> (status: ExitStatus) {
        match code {
            Some(code) => if code == 0 {
                ExitStatus::Commence
            } else {
                ExitStatus::Abort
            },
            None => ExitStatus::Abort,
        }
    }
}

impl FromSpecImpl<Option<i32>> for ExitStatus {
    open spec fn obeys_from_spec() -> bool {
        true
    }

    open spec fn from_spec(code: Option<i32>) -> ExitStatus {
        ExitStatus::of_code(code)
    }
}

/// The level at which the output of a handler is logged: as a warning where
/// it wrote to its error stream, as information where it wrote only to its
/// output stream, and for debugging where it wrote nothing.
pub fn output_level(stdout: &[u8], stderr: &[u8]) -> (level: LogLevel)
    ensures
        level == if stderr@.len() > 0 {
            LogLevel::Warn
        } else if stdout@.len() > 0 {
            LogLevel::Info
        } else {
            LogLevel::Debug
        },
{
    if stderr.len() > 0 {
        LogLevel::Warn
    } else if stdout.len() > 0 {
        LogLevel::Info
    } else {
        LogLevel::Debug
    }
}

/// The phases that have a handler.
#[derive(Debug, Clone, Copy, PartialEq, Eq, Structural)]
pub enum Phase {
    Detach,
    DetachAbort,
    Attach,
}

/// How a task ended.
#[derive(Debug, Clone, Copy, PartialEq, Eq, Structural)]
pub enum Finish {
    /// The handler ran and left with this code, or without one.
    Exited { code: Option<i32> },
    /// No handler is configured.
    Skipped,
    /// The time was up before the handler was done.
    TimedOut,
}

/// A task for the queue.
#[derive(Debug, Clone, Copy, PartialEq, Eq, Structural)]
pub struct Task {
    pub phase: Phase,
    /// Time to wait before anything starts, in milliseconds.
    pub delay: u64,
    /// Time that the handler gets, in milliseconds.
    pub timeout: u64,
    /// Time between two heartbeats in milliseconds, where the task sends
    /// heartbeats.
    pub heartbeat: Option<u64>,
}

impl Phase {
    /// What the engine is told when a task of this phase is over. A
    /// handler that is not configured counts as one that agreed.
    pub open spec fn report(self, finish: Finish) -> Event {
        match self {
            Phase::Detach => match finish {
                Finish::Exited { code } => match ExitStatus::of_code(code) {
                    ExitStatus::Commence => Event::DetachConfirm,
                    ExitStatus::Abort => Event::DetachCancel,
                },
                Finish::Skipped => Event::DetachConfirm,
                Finish::TimedOut => Event::DetachTimeout,
            },
            Phase::DetachAbort => match finish {
                Finish::TimedOut => Event::CancelTimeout,
                _ => Event::CancelComplete,
            },
            Phase::Attach => match finish {
                Finish::TimedOut => Event::AttachTimeout,
                _ => Event::AttachComplete,
            },
        }
    }

    /// Whether the handler of this phase is told the exit codes by which it
    /// answers.
    pub open spec fn answers(self) -> bool {
        self == Phase::Detach
    }

    /// The event to send to the engine for a task that ended.
    pub fn finished(self, finish: Finish) -> (event: Event)
        ensures
            event == self.report(finish),
    {
        match self {
            Phase::Detach => {
                let handle = DtHandle {  };
                match finish {
                    Finish::Exited { code } => match ExitStatus::from(code) {
                        ExitStatus::Commence => handle.confirm(),
                        ExitStatus::Abort => handle.cancel(),
                    },
                    Finish::Skipped => handle.confirm(),
                    Finish::TimedOut => handle.timeout(),
                }
            },
            Phase::DetachAbort => {
                let handle = DtcHandle {  };
                match finish {
                    Finish::TimedOut => handle.timeout(),
                    _ => handle.complete(),
                }
            },
            Phase::Attach => {
                let handle = AtHandle {  };
                match finish {
                    Finish::TimedOut => handle.timeout(),
                    _ => handle.complete(),
                }
            },
        }
    }

    /// The variables that the handler of this phase finds in its
    /// environment, each with its value.
    pub fn environment(self) -> (vars: Vec<(&'static str, &'static str)>)
        ensures
            !self.answers() ==> vars@.len() == 0,
            self.answers() ==> {
                &&& vars@.len() == 2
                &&& vars@[0].0@ == ENV_COMMENCE@
                &&& vars@[0].1@ == ExitStatus::Commence.digits()
                &&& vars@[1].0@ == ENV_ABORT@
                &&& vars@[1].1@ == ExitStatus::Abort.digits()
            },
    {
        let mut vars = Vec::new();
        match self {
            Phase::Detach => {
                vars.push((ENV_COMMENCE, ExitStatus::Commence.as_str()));
                vars.push((ENV_ABORT, ExitStatus::Abort.as_str()));
            },
            _ => {},
        }
        vars
    }
}

impl Config {
    /// The task that the configuration asks for in a phase. Only the
    /// detachment sends heartbeats, and only the attachment waits before it
    /// starts.
    pub open spec fn task(self, phase: Phase) -> Task {
        match phase {
            Phase::Detach => Task {
                phase,
                delay: 0,
                timeout: self.handler.detach.timeout,
                heartbeat: Some(HEARTBEAT_PERIOD_MS),
            },
            Phase::DetachAbort => Task {
                phase,
                delay: 0,
                timeout: self.handler.detach_abort.timeout,
                heartbeat: None,
            },
            Phase::Attach => Task {
                phase,
                delay: self.handler.attach.delay,
                timeout: self.handler.attach.timeout,
                heartbeat: None,
            },
        }
    }

    /// The handler that is configured for a phase.
    pub open spec fn handler_of(self, phase: Phase) -> Option<String> {
        match phase {
            Phase::Detach => self.handler.detach.executable,
            Phase::DetachAbort => self.handler.detach_abort.executable,
            Phase::Attach => self.handler.attach.executable,
        }
    }

    pub fn plan(&self, phase: Phase) -> (task: Task)
        ensures
            task == self.task(phase),
    {
        match phase {
            Phase::Detach => Task {
                phase,
                delay: 0,
                timeout: self.handler.detach.timeout,
                heartbeat: Some(HEARTBEAT_PERIOD_MS),
            },
            Phase::DetachAbort => Task {
                phase,
                delay: 0,
                timeout: self.handler.detach_abort.timeout,
                heartbeat: None,
            },
            Phase::Attach => Task {
                phase,
                delay: self.handler.attach.delay,
                timeout: self.handler.attach.timeout,
                heartbeat: None,
            },
        }
    }

    /// Path of the handler of a phase, where one is configured.
    pub fn executable(&self, phase: Phase) -> (path: Option<&str>)
        ensures
            match path {
                Some(path) => self.handler_of(phase) matches Some(set) && path@ == set@,
                None => self.handler_of(phase) is None,
            },
    {
        let handler = match phase {
            Phase::Detach => &self.handler.detach.executable,
            Phase::DetachAbort => &self.handler.detach_abort.executable,
            Phase::Attach => &self.handler.attach.executable,
        };
        match handler {
            Some(path) => Some(path.as_str()),
            None => None,
        }
    }
}

/// What the runner holds.
pub struct ProcessView {
    pub config: Config,
    pub queue: QueueView<Task>,
    /// Number of tasks that found the queue full and were dropped; the
    /// count stops at the largest number it can hold.
    pub dropped: u64,
}

impl ProcessView {
    /// A task for `phase` is submitted: it joins the queue, or is dropped
    /// where the queue is full.
    pub open spec fn scheduled(self, phase: Phase) -> ProcessView {
        if self.queue.pending.len() < self.queue.capacity {
            ProcessView {
                queue: QueueView {
                    pending: self.queue.pending.push(self.config.task(phase)),
                    ..self.queue
                },
                ..self
            }
        } else {
            ProcessView {
                dropped: if self.dropped < u64::MAX {
                    (self.dropped + 1) as u64
                } else {
                    self.dropped
                },
                ..self
            }
        }
    }

    /// The phase whose handler a call of the engine starts, if it starts
    /// one.
    pub open spec fn phase_of(call: Call) -> Option<Phase> {
        match call {
            Call::DetachmentStart => Some(Phase::Detach),
            Call::DetachmentCancelStart { .. } => Some(Phase::DetachAbort),
            Call::AttachmentStart => Some(Phase::Attach),
            _ => None,
        }
    }

    /// The runner after it has taken a call of the engine.
    pub open spec fn after(self, call: Call) -> ProcessView {
        match ProcessView::phase_of(call) {
            Some(phase) => self.scheduled(phase),
            None => self,
        }
    }
}

/// The adapter that runs the handlers.
#[derive(Debug)]
pub struct ProcessAdapter {
    config: Config,
    queue: TaskQueue<Task>,
    dropped: u64,
}

impl View for ProcessAdapter {
    type V = ProcessView;

    closed spec fn view(&self) -> ProcessView {
        ProcessView { config: self.config, queue: self.queue@, dropped: self.dropped }
    }
}

impl ProcessAdapter {
    /// The runner for a configuration, with the queue that takes its tasks.
    pub fn new(config: Config, queue: TaskQueue<Task>) -> (adapter: ProcessAdapter)
        ensures
            adapter@ == (ProcessView { config, queue: queue@, dropped: 0 }),
    {
        ProcessAdapter { config, queue, dropped: 0 }
    }

    pub fn config(&self) -> (config: &Config)
        ensures
            *config == self@.config,
    {
        &self.config
    }

    /// Number of tasks that were dropped because the queue was full.
    pub fn dropped(&self) -> (dropped: u64)
        ensures
            dropped == self@.dropped,
    {
        self.dropped
    }

    /// Takes the oldest task off the queue to run it, see
    /// [`TaskQueue::next`].
    pub fn next_task(&mut self) -> (task: Option<Task>)
        ensures
            final(self)@.config == old(self)@.config,
            final(self)@.dropped == old(self)@.dropped,
            match task {
                Some(task) => {
                    &&& !old(self)@.queue.active
                    &&& old(self)@.queue.pending.len() > 0
                    &&& task == old(self)@.queue.pending[0]
                    &&& final(self)@.queue == (QueueView {
                        pending: old(self)@.queue.pending.drop_first(),
                        active: true,
                        ..old(self)@.queue
                    })
                },
                None => {
                    &&& old(self)@.queue.active || old(self)@.queue.pending.len() == 0
                    &&& final(self)@.queue == old(self)@.queue
                },
            },
    {
        self.queue.next()
    }

    /// The running task is done, see [`TaskQueue::complete`].
    pub fn task_done(&mut self)
        ensures
            final(self)@ == (ProcessView {
                queue: QueueView { active: false, ..old(self)@.queue },
                ..old(self)@
            }),
    {
        self.queue.complete();
    }

    /// Whether nothing runs and nothing waits.
    pub fn is_idle(&self) -> (idle: bool)
        ensures
            idle == self@.queue.idle(),
    {
        self.queue.is_idle()
    }

    fn schedule(&mut self, phase: Phase)
        ensures
            final(self)@ == old(self)@.scheduled(phase),
    {
        let task = self.config.plan(phase);
        match self.queue.submit(task) {
            Ok(()) => {},
            Err(_) => {
                if self.dropped < u64::MAX {
                    self.dropped = self.dropped + 1;
                }
            },
        }
    }
}

impl Adapter for ProcessAdapter {
    /// The adapter never fails, and takes every call as [`ProcessView::after`]
    /// says.
    open spec fn reacts(self, call: Call, next: Self, result: Result<(), Error>) -> bool {
        result is Ok && next@ == self@.after(call)
    }

    fn take(&mut self, call: Call) -> (result: Result<(), Error>) {
        match call {
            Call::DetachmentStart => self.schedule(Phase::Detach),
            Call::DetachmentCancelStart { .. } => self.schedule(Phase::DetachAbort),
            Call::AttachmentStart => self.schedule(Phase::Attach),
            _ => {},
        }
        Ok(())
    }
}

/// The runner and the bus publisher together, as the system daemon puts
/// them: a call never fails, and each of the two takes it in its own way.
pub proof fn lemma_runner_with_publisher(
    before: (ProcessAdapter, ServiceAdapter),
    call: Call,
    next: (ProcessAdapter, ServiceAdapter),
    result: Result<(), Error>,
)
    requires
        before.reacts(call, next, result),
    ensures
        result is Ok,
        next.0@ == before.0@.after(call),
        next.1@ == before.1@.after(call),
{
}

} // verus!
