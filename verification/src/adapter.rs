//! Adapters: what the engine's calls go out to.
//!
//! An adapter takes the calls that it cares for and lets the others pass.
//! Several adapters are put together as a tuple, which hands each call to its
//! members in turn and stops at the first that fails.

use vstd::prelude::*;
use crate::engine::Call;
use crate::error::Error;

verus! {

/// A sink for the calls of the engine.
pub trait Adapter: Sized {
    /// Whether the adapter, in the state `self`, may take `call` by going
    /// over to the state `next` and answering `result`. An adapter that
    /// says nothing of itself may do anything.
    open spec fn reacts(self, call: Call, next: Self, result: Result<(), Error>) -> bool {
        true
    }

    /// Takes a call. An adapter that has no use for a call answers `Ok`.
    fn take(&mut self, call: Call) -> (result: Result<(), Error>)
        ensures
            old(self).reacts(call, *final(self), result),
    ;
}

impl Call {
    /// Whether the call can fail: all can but the one that hands over the
    /// state at start-up, which has nothing to report.
    pub open spec fn can_fail(self) -> bool {
        !(self is SetState)
    }

    /// Whether an adapter's answer to the call ends the round through the
    /// adapters.
    pub open spec fn stops_at(self, given: Result<(), Error>) -> bool {
        self.can_fail() && given is Err
    }

    /// What the caller is told, given the answer of the adapter that was
    /// asked last.
    pub open spec fn answer(self, given: Result<(), Error>) -> Result<(), Error> {
        if self.can_fail() {
            given
        } else {
            Ok(())
        }
    }

    fn fails(&self) -> (can_fail: bool)
        ensures
            can_fail == self.can_fail(),
    {
        match self {
            Call::SetState { .. } => false,
            _ => true,
        }
    }

    fn ends_round(&self, given: &Result<(), Error>) -> (stops: bool)
        ensures
            stops == self.stops_at(*given),
    {
        self.fails() && given.is_err()
    }

    fn told(&self, given: Result<(), Error>) -> (result: Result<(), Error>)
        ensures
            result == self.answer(given),
    {
        if self.fails() {
            given
        } else {
            Ok(())
        }
    }

    /// Makes the call on an adapter, or on a tuple of adapters, and hands
    /// back what came of it.
    pub fn deliver<A: Adapter>(self, adapter: &mut A) -> (result: Result<(), Error>)
        ensures
            exists|given: Result<(), Error>|
                #[trigger] old(adapter).reacts(self, *final(adapter), given) && result
                    == self.answer(given),
    {
        let given = adapter.take(self);
        self.told(given)
    }
}

impl<A1: Adapter> Adapter for (A1,) {
    open spec fn reacts(self, call: Call, next: Self, result: Result<(), Error>) -> bool {
        exists|first: Result<(), Error>|
            #[trigger] self.0.reacts(call, next.0, first) && result == call.answer(first)
    }

    fn take(&mut self, call: Call) -> (result: Result<(), Error>) {
        let first = self.0.take(call);
        assert(old(self).0.reacts(call, self.0, first));
        call.told(first)
    }
}

impl<A1: Adapter, A2: Adapter> Adapter for (A1, A2) {
    open spec fn reacts(self, call: Call, next: Self, result: Result<(), Error>) -> bool {
        exists|first: Result<(), Error>|
            #[trigger] self.0.reacts(call, next.0, first) && if call.stops_at(first) {
                next.1 == self.1 && result == first
            } else {
                exists|second: Result<(), Error>|
                    #[trigger] self.1.reacts(call, next.1, second) && result == call.answer(second)
            }
    }

    fn take(&mut self, call: Call) -> (result: Result<(), Error>) {
        let first = self.0.take(call);
        assert(old(self).0.reacts(call, self.0, first));
        if call.ends_round(&first) {
            return first;
        }
        let second = self.1.take(call);
        let result = call.told(second);
        proof {
            let before = *old(self);
            let after = *self;
            assert(before.0.reacts(call, after.0, first));
            assert(before.1.reacts(call, after.1, second));
        }
        result
    }
}

impl<A1: Adapter, A2: Adapter, A3: Adapter> Adapter for (A1, A2, A3) {
    open spec fn reacts(self, call: Call, next: Self, result: Result<(), Error>) -> bool {
        exists|first: Result<(), Error>|
            #[trigger] self.0.reacts(call, next.0, first) && if call.stops_at(first) {
                next.1 == self.1 && next.2 == self.2 && result == first
            } else {
                exists|second: Result<(), Error>|
                    #[trigger] self.1.reacts(call, next.1, second) && if call.stops_at(second) {
                        next.2 == self.2 && result == second
                    } else {
                        exists|third: Result<(), Error>|
                            #[trigger] self.2.reacts(call, next.2, third) && result == call.answer(
                                third,
                            )
                    }
            }
    }

    fn take(&mut self, call: Call) -> (result: Result<(), Error>) {
        let first = self.0.take(call);
        assert(old(self).0.reacts(call, self.0, first));
        if call.ends_round(&first) {
            return first;
        }
        let second = self.1.take(call);
        assert(old(self).1.reacts(call, self.1, second));
        if call.ends_round(&second) {
            return second;
        }
        let third = self.2.take(call);
        let result = call.told(third);
        proof {
            let before = *old(self);
            let after = *self;
            assert(before.0.reacts(call, after.0, first));
            assert(before.1.reacts(call, after.1, second));
            assert(before.2.reacts(call, after.2, third));
        }
        result
    }
}

} // verus!
