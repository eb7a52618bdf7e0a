use std::collections::VecDeque;
use vstd::prelude::*;
use crate::value::Value;

verus! {

/// Which settlement branch a reaction job was scheduled for.
#[derive(Clone, Copy, Debug, PartialEq, Eq, Structural)]
pub enum Branch {
    Fulfilled,
    Rejected,
}

/// A unit of deferred work.
#[derive(Clone, Copy, Debug, PartialEq, Eq, Structural)]
pub enum Microtask {
    /// A callback scheduled by user code: the function object to call.
    User(u64),
    /// A promise reaction: the handler function object, the settlement
    /// branch it was registered for, and the settlement value it receives.
    Reaction { handler: u64, branch: Branch, argument: Value },
}

/// Failure to enqueue onto a queue that was never initialised.
#[derive(Clone, Copy, Debug, PartialEq, Eq, Structural)]
pub enum QueueError {
    NotInitialised,
}

impl QueueError {
    /// The message reported for this error.
    pub fn message(&self) -> (r: String)
        ensures
            r@ == queue_error_message(),
    {
        String::from_str("Microtask Queue has not been initialised.")
    }
}

pub open spec fn queue_error_message() -> Seq<char> {
    "Microtask Queue has not been initialised."@
}

/// A FIFO queue of microtasks with an explicit lifecycle: it accepts work
/// only between `init` and `teardown`.
pub struct MicrotaskQueue {
    items: VecDeque<Microtask>,
    initialised: bool,
}

impl View for MicrotaskQueue {
    type V = Seq<Microtask>;

    closed spec fn view(&self) -> Seq<Microtask> {
        self.items@
    }
}

impl MicrotaskQueue {
    pub closed spec fn is_initialised(&self) -> bool {
        self.initialised
    }

    /// A queue that has not been initialised yet, holding nothing.
    pub fn new() -> (r: MicrotaskQueue)
        ensures
            r@ == Seq::<Microtask>::empty(),
            !r.is_initialised(),
    {
        MicrotaskQueue { items: VecDeque::new(), initialised: false }
    }

    /// Makes the queue accept work. What it holds is kept.
    pub fn init(&mut self)
        ensures
            final(self)@ == old(self)@,
            final(self).is_initialised(),
    {
        self.initialised = true;
    }

    /// Drops whatever is queued and stops accepting work.
    pub fn teardown(&mut self)
        ensures
            final(self)@ == Seq::<Microtask>::empty(),
            !final(self).is_initialised(),
    {
        self.items.clear();
        self.initialised = false;
    }

    pub fn accepts_work(&self) -> (r: bool)
        ensures
            r == self.is_initialised(),
    {
        self.initialised
    }

    /// Appends a microtask at the back; fails, changing nothing, when the
    /// queue is not initialised.
    pub fn enqueue(&mut self, task: Microtask) -> (r: Result<(), QueueError>)
        ensures
            final(self).is_initialised() == old(self).is_initialised(),
            old(self).is_initialised() ==> r is Ok && final(self)@ == old(self)@.push(task),
            !old(self).is_initialised() ==> r == Err::<(), QueueError>(QueueError::NotInitialised)
                && final(self)@ == old(self)@,
    {
        if self.initialised {
            self.items.push_back(task);
            Ok(())
        } else {
            Err(QueueError::NotInitialised)
        }
    }

    /// Removes and returns the oldest microtask; `None` exactly when the
    /// queue is empty.
    pub fn dequeue(&mut self) -> (r: Option<Microtask>)
        ensures
            final(self).is_initialised() == old(self).is_initialised(),
            old(self)@.len() == 0 ==> r is None && final(self)@ == old(self)@,
            old(self)@.len() > 0 ==> r == Some(old(self)@[0]) && final(self)@ == old(self)@.drop_first(),
    {
        self.items.pop_front()
    }

    pub fn len(&self) -> (r: usize)
        ensures
            r == self@.len(),
    {
        self.items.len()
    }

    pub fn is_empty(&self) -> (r: bool)
        ensures
            r == (self@.len() == 0),
    {
        self.items.len() == 0
    }
}

} // verus!
