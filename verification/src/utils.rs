//! Small helpers.

use vstd::prelude::*;

verus! {

/// A callback that is to run once, when its scope ends.
///
/// The guard holds the callback until it is released. It has no destructor
/// of its own: whoever wants the callback to run at the end of a scope
/// releases the guard from a destructor.
pub struct ScopeGuard<F: FnOnce()> {
    callback: Option<F>,
}

impl<F: FnOnce()> ScopeGuard<F> {
    /// The callback that is still to run.
    pub closed spec fn pending(&self) -> Option<F> {
        self.callback
    }

    /// Runs the callback, unless it has run already.
    pub fn release(&mut self)
        requires
            old(self).pending() matches Some(callback) ==> callback.requires(()),
        ensures
            final(self).pending() is None,
            old(self).pending() matches Some(callback) ==> callback.ensures((), ()),
    {
        match self.callback.take() {
            Some(callback) => callback(),
            None => {},
        }
    }

    /// Whether the callback is still to run.
    pub fn is_armed(&self) -> (armed: bool)
        ensures
            armed == self.pending() is Some,
    {
        self.callback.is_some()
    }
}

/// A guard that holds `callback`.
pub fn guard<F: FnOnce()>(callback: F) -> (guard: ScopeGuard<F>)
    ensures
        guard.pending() == Some(callback),
{
    ScopeGuard { callback: Some(callback) }
}

} // verus!
