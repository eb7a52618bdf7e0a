use vstd::prelude::*;
use crate::function::Function;
use crate::microtask::{Microtask, QueueError};
use crate::promise::{registered, Promise};
use crate::runtime::{Reaction, Runtime};
use crate::value::{ErrorReport, Exception, Value};

verus! {

/// Schedules `callback` as a user microtask. Fails with `NotInitialised`,
/// changing nothing, when the queue does not accept work.
pub fn queue_microtask(rt: &mut Runtime, callback: Function) -> (r: Result<(), QueueError>)
    ensures
        final(rt).objects() == old(rt).objects(),
        final(rt).queue_initialised() == old(rt).queue_initialised(),
        final(rt).pending_exception() == old(rt).pending_exception(),
        old(rt).queue_initialised() ==> r is Ok && final(rt).queue() == old(rt).queue().push(
            Microtask::User(callback.object_id()),
        ),
        !old(rt).queue_initialised() ==> r == Err::<(), QueueError>(QueueError::NotInitialised)
            && final(rt).queue() == old(rt).queue(),
{
    rt.enqueue(Microtask::User(callback.to_object()))
}

/// Attaches the default terminal rejection handler `on_rejected` to a
/// promise, with no fulfilment handler.
pub fn add_handler_reactions(rt: &mut Runtime, promise: &Promise, on_rejected: Function) -> (ok: bool)
    ensures
        registered(
            *old(rt),
            promise.object_id(),
            (Reaction { on_resolved: None, on_rejected: Some(on_rejected.object_id()) }),
            ok,
            *final(rt),
            0,
        ),
{
    promise.add_reactions_native(rt, None, Some(on_rejected))
}

/// The default terminal rejection handler's work on the engine side: the
/// rejection value becomes the exception of a report, and the pending
/// exception is cleared so that the rejection is not reported a second time
/// as an uncaught exception.
pub fn on_rejected(rt: &mut Runtime, value: Value) -> (report: ErrorReport)
    ensures
        report == (ErrorReport { exception: Exception::Thrown(value) }),
        final(rt).pending_exception() is None,
        final(rt).objects() == old(rt).objects(),
        final(rt).queue() == old(rt).queue(),
        final(rt).queue_initialised() == old(rt).queue_initialised(),
{
    let _ = rt.take_pending_exception();
    ErrorReport { exception: Exception::Thrown(value) }
}

} // verus!
