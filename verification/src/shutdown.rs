//! How the daemon ends: what a signal leads to, and the exit code.

use vstd::prelude::*;

verus! {

/// A signal that asks the daemon to end.
#[derive(Debug, Clone, Copy, PartialEq, Eq, Structural)]
pub enum Signal {
    Interrupt,
    Terminate,
}

/// How far the daemon is.
#[derive(Debug, Clone, Copy, PartialEq, Eq, Structural)]
pub enum Stage {
    /// Events are handled.
    Running,
    /// No event is taken any more; the task queue runs to its end.
    Draining,
}

/// What a signal asks for.
#[derive(Debug, Clone, Copy, PartialEq, Eq, Structural)]
pub enum Step {
    /// Stop reading events and bus messages, and let the task queue run to
    /// its end.
    Drain,
    /// Leave at once with this code.
    Exit { code: i32 },
}

impl Signal {
    /// Number of the signal.
    pub open spec fn spec_number(self) -> i32 {
        match self {
            Signal::Interrupt => 2,
            Signal::Terminate => 15,
        }
    }

    /// Name of the signal.
    pub open spec fn name(self) -> Seq<char> {
        match self {
            Signal::Interrupt => "SIGINT"@,
            Signal::Terminate => "SIGTERM"@,
        }
    }

    #[verifier::when_used_as_spec(spec_number)]
    pub fn number(self) -> (number: i32)
        ensures
            number == self.spec_number(),
    {
        match self {
            Signal::Interrupt => 2,
            Signal::Terminate => 15,
        }
    }

    pub fn as_str(self) -> (name: &'static str)
        ensures
            name@ == self.name(),
    {
        match self {
            Signal::Interrupt => "SIGINT",
            Signal::Terminate => "SIGTERM",
        }
    }
}

impl Stage {
    /// What `signal` leads to at this stage: the first signal lets the
    /// daemon wind down, a further one ends it with 128 plus the number of
    /// the signal.
    pub open spec fn after(self, signal: Signal) -> (Stage, Step) {
        match self {
            Stage::Running => (Stage::Draining, Step::Drain),
            Stage::Draining => (
                Stage::Draining,
                Step::Exit { code: (128 + signal.spec_number()) as i32 },
            ),
        }
    }

    pub fn on_signal(self, signal: Signal) -> (next: (Stage, Step))
        ensures
            next == self.after(signal),
    {
        match self {
            Stage::Running => (Stage::Draining, Step::Drain),
            Stage::Draining => (Stage::Draining, Step::Exit { code: 128 + signal.number() }),
        }
    }
}

/// The exit code of a daemon that ran to its end: 0 where all went well, 1
/// after a fatal error.
pub fn exit_code(failed: bool) -> (code: i32)
    ensures
        code == if failed {
            1int
        } else {
            0int
        },
{
    if failed {
        1
    } else {
        0
    }
}

} // verus!
