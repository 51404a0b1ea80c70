//! The task queue: handler tasks wait here and run one at a time, in the
//! order in which they were submitted.

use vstd::prelude::*;

verus! {

/// Number of tasks that a queue holds where nothing else is asked for.
pub const DEFAULT_CAPACITY: usize = 32;

/// A queue of tasks, of which one at most is running.
#[derive(Debug)]
pub struct TaskQueue<T> {
    pending: Vec<T>,
    capacity: usize,
    active: bool,
}

/// What a queue holds.
pub struct QueueView<T> {
    /// The tasks that wait, oldest first.
    pub pending: Seq<T>,
    /// How many tasks may wait.
    pub capacity: nat,
    /// Whether a task is running.
    pub active: bool,
}

impl<T> QueueView<T> {
    /// Number of tasks in flight: one while a task runs, else none.
    pub open spec fn in_flight(self) -> nat {
        if self.active {
            1
        } else {
            0
        }
    }

    /// Nothing runs and nothing waits.
    pub open spec fn idle(self) -> bool {
        !self.active && self.pending.len() == 0
    }
}

impl<T> View for TaskQueue<T> {
    type V = QueueView<T>;

    closed spec fn view(&self) -> QueueView<T> {
        QueueView { pending: self.pending@, capacity: self.capacity as nat, active: self.active }
    }
}

/// A queue for the default number of tasks.
pub fn new<T>() -> (queue: TaskQueue<T>)
    ensures
        queue@.pending.len() == 0,
        queue@.capacity == DEFAULT_CAPACITY,
        !queue@.active,
{
    with_capacity(DEFAULT_CAPACITY)
}

/// A queue in which `size` tasks may wait.
pub fn with_capacity<T>(size: usize) -> (queue: TaskQueue<T>)
    ensures
        queue@.pending.len() == 0,
        queue@.capacity == size,
        !queue@.active,
{
    TaskQueue { pending: Vec::new(), capacity: size, active: false }
}

impl<T> TaskQueue<T> {
    #[verifier::type_invariant]
    spec fn bounded(&self) -> bool {
        self.pending@.len() <= self.capacity
    }

    /// Puts a task at the end of the queue. A full queue takes nothing: the
    /// task comes back.
    pub fn submit(&mut self, task: T) -> (result: Result<(), T>)
        ensures
            old(self)@.pending.len() <= old(self)@.capacity,
            match result {
                Ok(()) => {
                    &&& old(self)@.pending.len() < old(self)@.capacity
                    &&& final(self)@ == (QueueView {
                        pending: old(self)@.pending.push(task),
                        ..old(self)@
                    })
                },
                Err(back) => {
                    &&& old(self)@.pending.len() == old(self)@.capacity
                    &&& back == task
                    &&& final(self)@ == old(self)@
                },
            },
    {
        proof {
            use_type_invariant(&*self);
        }
        if self.pending.len() >= self.capacity {
            return Err(task);
        }
        let mut pending = Vec::new();
        std::mem::swap(&mut self.pending, &mut pending);
        pending.push(task);
        self.pending = pending;
        Ok(())
    }

    /// Takes the oldest task off the queue to run it. There is none to take
    /// while another runs, or while none waits.
    pub fn next(&mut self) -> (task: Option<T>)
        ensures
            match task {
                Some(task) => {
                    &&& !old(self)@.active
                    &&& old(self)@.pending.len() > 0
                    &&& task == old(self)@.pending[0]
                    &&& final(self)@ == (QueueView {
                        pending: old(self)@.pending.drop_first(),
                        active: true,
                        ..old(self)@
                    })
                },
                None => {
                    &&& old(self)@.active || old(self)@.pending.len() == 0
                    &&& final(self)@ == old(self)@
                },
            },
    {
        proof {
            use_type_invariant(&*self);
        }
        if self.active || self.pending.len() == 0 {
            return None;
        }
        let mut pending = Vec::new();
        std::mem::swap(&mut self.pending, &mut pending);
        let task = pending.remove(0);
        self.pending = pending;
        self.active = true;
        Some(task)
    }

    /// The running task is done, in whatever way.
    pub fn complete(&mut self)
        ensures
            final(self)@ == (QueueView { active: false, ..old(self)@ }),
    {
        proof {
            use_type_invariant(&*self);
        }
        self.active = false;
    }

    /// Whether a task is running.
    pub fn is_active(&self) -> (active: bool)
        ensures
            active == self@.active,
    {
        self.active
    }

    /// Number of tasks that wait; never more than the queue may hold.
    pub fn len(&self) -> (n: usize)
        ensures
            n == self@.pending.len(),
            n <= self@.capacity,
    {
        proof {
            use_type_invariant(self);
        }
        self.pending.len()
    }

    /// Whether nothing runs and nothing waits: the queue has run to its end.
    pub fn is_idle(&self) -> (idle: bool)
        ensures
            idle == self@.idle(),
    {
        !self.active && self.pending.len() == 0
    }
}

/// One task at most is in flight, whatever the queue has been through.
pub proof fn lemma_at_most_one_in_flight<T>(queue: QueueView<T>)
    ensures
        queue.in_flight() <= 1,
{
}

} // verus!
