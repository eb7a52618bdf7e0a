use vstd::prelude::*;
use crate::function::Function;
use crate::microtask::Branch;
use crate::runtime::{job_for, jobs_for, state_branch, PromiseState, Reaction, Runtime};
use crate::slots::CallbackSlots;
use crate::value::Value;

verus! {

/// The function object identity of an optional handler, as a reaction
/// records it.
pub open spec fn handler_id(f: Option<Function>) -> Option<u64> {
    match f {
        Some(f) => Some(f.object_id()),
        None => None,
    }
}

/// Whether registering `r` on object `id` of `rt` succeeds: the object is a
/// promise, and either no job is due yet, or the queue accepts it, or the
/// reaction has no handler for the branch the promise settled on.
pub open spec fn can_add_reaction(rt: Runtime, id: u64, r: Reaction) -> bool {
    rt.is_promise_id(id) && (rt.state_of(id) is Pending || rt.queue_initialised() || job_for(
        r,
        state_branch(rt.state_of(id)),
        rt.result_of(id),
    ).len() == 0)
}

/// The effect of registering `r` on promise `id` after `grown` new objects
/// (the handler functions) were added to the heap.
pub open spec fn registered(before: Runtime, id: u64, r: Reaction, ok: bool, after: Runtime, grown: nat) -> bool {
    &&& ok == can_add_reaction(before, id, r)
    &&& after.objects().len() == before.objects().len() + grown
    &&& forall|j: int| 0 <= j < before.objects().len() && j != id ==> #[trigger] after.objects()[j]
        == before.objects()[j]
    &&& after.queue_initialised() == before.queue_initialised()
    &&& after.pending_exception() == before.pending_exception()
    &&& ok && before.state_of(id) is Pending ==> {
        &&& after.is_promise_id(id)
        &&& after.state_of(id) is Pending
        &&& after.result_of(id) == before.result_of(id)
        &&& after.reactions_of(id) == before.reactions_of(id).push(r)
        &&& after.queue() == before.queue()
    }
    &&& ok && !(before.state_of(id) is Pending) ==> {
        &&& after.objects()[id as int] == before.objects()[id as int]
        &&& after.queue() == before.queue() + job_for(
            r,
            state_branch(before.state_of(id)),
            before.result_of(id),
        )
    }
    &&& !ok ==> after.queue() == before.queue() && (id < before.objects().len() ==> after.objects()[id as int]
        == before.objects()[id as int])
    &&& before.evolves_to(after)
}

/// Stores `callback` in a fresh slot and wraps it in a native function of
/// one argument named `name` that dispatches to that slot.
fn native_handler<T>(rt: &mut Runtime, slots: &mut CallbackSlots<T>, name: &str, callback: T) -> (r: (
    Function,
    u64,
))
    requires
        old(rt).objects().len() < u64::MAX,
        old(slots).issued() < u64::MAX,
    ensures
        r.0.object_id() == old(rt).objects().len(),
        r.0.valid(*final(rt)),
        final(rt).function(r.0.object_id()).callback == Some(old(slots).issued() as u64),
        final(rt).objects().len() == old(rt).objects().len() + 1,
        forall|j: int| 0 <= j < old(rt).objects().len() ==> #[trigger] final(rt).objects()[j]
            == old(rt).objects()[j],
        final(rt).queue() == old(rt).queue(),
        final(rt).queue_initialised() == old(rt).queue_initialised(),
        final(rt).pending_exception() == old(rt).pending_exception(),
        old(rt).evolves_to(*final(rt)),
        r.1 == old(slots).issued(),
        final(slots).issued() == old(slots).issued() + 1,
        final(slots).held() == old(slots).held().insert(old(slots).issued() as u64, callback),
{
    let slot = slots.insert(callback);
    (Function::new(rt, name.to_owned(), Some(slot), 1, false), slot)
}

/// What a finished executor-driven construction guarantees of promise `id`,
/// given what the executor handed back: after a failure the promise is
/// settled, and rejected with the failure's value if the executor had left
/// it pending.
pub open spec fn executor_settled(ran: (Runtime, Result<(), Value>), id: u64, after: Runtime) -> bool {
    &&& ran.1 is Err ==> after.is_settled(id)
    &&& ran.1 is Err && ran.0.state_of(id) is Pending ==> after.state_of(id) is Rejected
        && after.result_of(id) == ran.1->Err_0
}

/// What executor-driven construction does around one run of its executor:
/// the executor is given `before` with one new pending promise `p` and no
/// other change; what it hands back (`ran`) then decides the result `r` and
/// the final runtime `after`.
pub open spec fn executor_ran(
    before: Runtime,
    given: Runtime,
    p: Promise,
    ran: (Runtime, Result<(), Value>),
    r: Option<Promise>,
    after: Runtime,
) -> bool {
    let id = before.objects().len() as u64;
    &&& p.object_id() == id
    &&& given.is_promise_id(id)
    &&& given.state_of(id) is Pending
    &&& given.result_of(id) == Value::Undefined
    &&& given.reactions_of(id).len() == 0
    &&& given.objects().len() == before.objects().len() + 1
    &&& forall|j: int| 0 <= j < before.objects().len() ==> #[trigger] given.objects()[j]
        == before.objects()[j]
    &&& given.queue() == before.queue()
    &&& given.queue_initialised() == before.queue_initialised()
    &&& given.pending_exception() == before.pending_exception()
    &&& ran.1 is Ok ==> r == Some(p) && after == ran.0
    &&& ran.1 is Err ==> (r is Some <==> (ran.0.is_settled(id) || ran.0.queue_initialised()
        || ran.0.reactions_of(id).len() == 0))
    &&& ran.1 is Err && ran.0.is_settled(id) ==> r == Some(p) && after == ran.0
    &&& r is Some ==> r == Some(p) && executor_settled(ran, id, after)
    &&& r is None ==> after == ran.0
}

/// A handle to a promise object of the engine heap.
#[derive(Clone, Copy, Debug, PartialEq, Eq, Structural)]
pub struct Promise {
    object: u64,
}

impl Promise {
    /// The identity of the promise object this handle refers to.
    pub closed spec fn object_id(&self) -> u64 {
        self.object
    }

    /// Whether the handle refers to a promise object of `rt`.
    pub open spec fn valid(&self, rt: Runtime) -> bool {
        rt.is_promise_id(self.object_id())
    }

    /// A new pending promise with no reactions.
    pub fn new(rt: &mut Runtime) -> (p: Promise)
        requires
            old(rt).objects().len() < u64::MAX,
        ensures
            p.object_id() == old(rt).objects().len(),
            p.valid(*final(rt)),
            final(rt).state_of(p.object_id()) is Pending,
            final(rt).result_of(p.object_id()) == Value::Undefined,
            final(rt).reactions_of(p.object_id()).len() == 0,
            final(rt).objects().len() == old(rt).objects().len() + 1,
            forall|j: int| 0 <= j < old(rt).objects().len() ==> #[trigger] final(rt).objects()[j]
                == old(rt).objects()[j],
            final(rt).queue() == old(rt).queue(),
            final(rt).queue_initialised() == old(rt).queue_initialised(),
            final(rt).pending_exception() == old(rt).pending_exception(),
            old(rt).evolves_to(*final(rt)),
    {
        let id = rt.alloc_promise();
        Promise { object: id }
    }

    /// Adopts object `object` when the engine recognises it as a promise.
    pub fn from(rt: &Runtime, object: u64) -> (r: Option<Promise>)
        ensures
            r is Some == rt.is_promise_id(object),
            r is Some ==> r->Some_0.object_id() == object,
    {
        if rt.is_promise_object(object) {
            Some(Promise { object })
        } else {
            None
        }
    }

    /// A handle to object `object`, which the caller knows to be a promise.
    pub fn from_unchecked(object: u64) -> (p: Promise)
        ensures
            p.object_id() == object,
    {
        Promise { object }
    }

    /// The promise's identity.
    pub fn id(&self) -> (r: u64)
        ensures
            r == self.object_id(),
    {
        self.object
    }

    /// The promise's state.
    pub fn state(&self, rt: &Runtime) -> (r: PromiseState)
        requires
            self.valid(*rt),
        ensures
            r == rt.state_of(self.object_id()),
    {
        match rt.promise_settlement(self.object) {
            Some(s) => s.0,
            None => PromiseState::Pending,
        }
    }

    /// The settlement value; `Undefined` while the promise is pending.
    pub fn result(&self, rt: &Runtime) -> (r: Value)
        requires
            self.valid(*rt),
        ensures
            r == rt.result_of(self.object_id()),
    {
        match rt.promise_settlement(self.object) {
            Some(s) => s.1,
            None => Value::Undefined,
        }
    }

    /// Fulfils the promise with `v`. Returns false, changing nothing, when it
    /// is already settled, or when reactions wait on it and the microtask
    /// queue is not initialised (see `Runtime::settle_post`).
    pub fn resolve(&self, rt: &mut Runtime, v: Value) -> (ok: bool)
        ensures
            old(rt).settle_post(self.object_id(), Branch::Fulfilled, v, ok, *final(rt)),
            old(rt).evolves_to(*final(rt)),
    {
        rt.settle(self.object, Branch::Fulfilled, v)
    }

    /// Rejects the promise with `v`. Returns false, changing nothing, when it
    /// is already settled, or when reactions wait on it and the microtask
    /// queue is not initialised (see `Runtime::settle_post`).
    pub fn reject(&self, rt: &mut Runtime, v: Value) -> (ok: bool)
        ensures
            old(rt).settle_post(self.object_id(), Branch::Rejected, v, ok, *final(rt)),
            old(rt).evolves_to(*final(rt)),
    {
        rt.settle(self.object, Branch::Rejected, v)
    }

    /// Registers already-built native functions as the promise's handlers.
    pub fn add_reactions_native(
        &self,
        rt: &mut Runtime,
        on_resolved: Option<Function>,
        on_rejected: Option<Function>,
    ) -> (ok: bool)
        ensures
            registered(
                *old(rt),
                self.object_id(),
                (Reaction { on_resolved: handler_id(on_resolved), on_rejected: handler_id(on_rejected) }),
                ok,
                *final(rt),
                0,
            ),
    {
        let r = Reaction {
            on_resolved: match on_resolved {
                Some(f) => Some(f.to_object()),
                None => None,
            },
            on_rejected: match on_rejected {
                Some(f) => Some(f.to_object()),
                None => None,
            },
        };
        rt.add_reaction(self.object, r)
    }
    /// Registers two host callbacks as the promise's handlers, each behind a
    /// native function that dispatches to its own callback slot. The slots
    /// are issued in argument order. On a settled promise the due handler is
    /// only queued: it still sits in its slot when this returns. On failure
    /// both slots are released.
    pub fn add_reactions<T>(
        &self,
        rt: &mut Runtime,
        slots: &mut CallbackSlots<T>,
        on_resolved: T,
        on_rejected: T,
    ) -> (ok: bool)
        requires
            old(rt).objects().len() < u64::MAX - 1,
            old(slots).issued() < u64::MAX - 1,
        ensures
            registered(
                *old(rt),
                self.object_id(),
                (Reaction {
                    on_resolved: Some(old(rt).objects().len() as u64),
                    on_rejected: Some((old(rt).objects().len() + 1) as u64),
                }),
                ok,
                *final(rt),
                2,
            ),
            final(rt).function(old(rt).objects().len() as u64).callback == Some(
                old(slots).issued() as u64,
            ),
            final(rt).function((old(rt).objects().len() + 1) as u64).callback == Some(
                (old(slots).issued() + 1) as u64,
            ),
            final(slots).issued() == old(slots).issued() + 2,
            ok ==> final(slots).held() == old(slots).held().insert(
                old(slots).issued() as u64,
                on_resolved,
            ).insert((old(slots).issued() + 1) as u64, on_rejected),
            !ok ==> final(slots).held() == old(slots).held(),
    {
        let ghost s0 = *slots;
        let (f1, s1) = native_handler(rt, slots, "resolve", on_resolved);
        let (f2, s2) = native_handler(rt, slots, "reject", on_rejected);
        let r = Reaction { on_resolved: Some(f1.to_object()), on_rejected: Some(f2.to_object()) };
        let ok = rt.add_reaction(self.object, r);
        if !ok {
            let _ = slots.take(s1);
            let _ = slots.take(s2);
            proof {
                s0.lemma_held_were_issued();
                assert(slots.held() =~= s0.held());
            }
        }
        ok
    }

    /// Registers a host callback as the promise's fulfilment handler, with
    /// no rejection handler.
    pub fn then<T>(&self, rt: &mut Runtime, slots: &mut CallbackSlots<T>, on_resolved: T) -> (ok: bool)
        requires
            old(rt).objects().len() < u64::MAX,
            old(slots).issued() < u64::MAX,
        ensures
            registered(
                *old(rt),
                self.object_id(),
                (Reaction { on_resolved: Some(old(rt).objects().len() as u64), on_rejected: None }),
                ok,
                *final(rt),
                1,
            ),
            final(rt).function(old(rt).objects().len() as u64).callback == Some(
                old(slots).issued() as u64,
            ),
            final(slots).issued() == old(slots).issued() + 1,
            ok ==> final(slots).held() == old(slots).held().insert(
                old(slots).issued() as u64,
                on_resolved,
            ),
            !ok ==> final(slots).held() == old(slots).held(),
    {
        let ghost s0 = *slots;
        let (f, slot) = native_handler(rt, slots, "resolve", on_resolved);
        let ok = rt.add_reaction(self.object, Reaction { on_resolved: Some(f.to_object()), on_rejected: None });
        if !ok {
            let _ = slots.take(slot);
            proof {
                s0.lemma_held_were_issued();
                assert(slots.held() =~= s0.held());
            }
        }
        ok
    }

    /// Registers a host callback as the promise's rejection handler, with no
    /// fulfilment handler.
    pub fn catch<T>(&self, rt: &mut Runtime, slots: &mut CallbackSlots<T>, on_rejected: T) -> (ok: bool)
        requires
            old(rt).objects().len() < u64::MAX,
            old(slots).issued() < u64::MAX,
        ensures
            registered(
                *old(rt),
                self.object_id(),
                (Reaction { on_resolved: None, on_rejected: Some(old(rt).objects().len() as u64) }),
                ok,
                *final(rt),
                1,
            ),
            final(rt).function(old(rt).objects().len() as u64).callback == Some(
                old(slots).issued() as u64,
            ),
            final(slots).issued() == old(slots).issued() + 1,
            ok ==> final(slots).held() == old(slots).held().insert(
                old(slots).issued() as u64,
                on_rejected,
            ),
            !ok ==> final(slots).held() == old(slots).held(),
    {
        let ghost s0 = *slots;
        let (f, slot) = native_handler(rt, slots, "reject", on_rejected);
        let ok = rt.add_reaction(self.object, Reaction { on_resolved: None, on_rejected: Some(f.to_object()) });
        if !ok {
            let _ = slots.take(slot);
            proof {
                s0.lemma_held_were_issued();
                assert(slots.held() =~= s0.held());
            }
        }
        ok
    }
    /// Completes executor-driven construction once the executor has run. An
    /// executor that failed with `e` rejects the promise with `e` if it is
    /// still pending; a settlement the executor made stands. Returns whether
    /// the promise is left consistent: false only on a handle that is not a
    /// promise, or when the rejection could not be made.
    pub fn finish_executor(&self, rt: &mut Runtime, outcome: Result<(), Value>) -> (ok: bool)
        ensures
            old(rt).evolves_to(*final(rt)),
            !self.valid(*old(rt)) ==> !ok && *final(rt) == *old(rt),
            outcome is Ok ==> ok == self.valid(*old(rt)) && *final(rt) == *old(rt),
            outcome is Err && old(rt).is_settled(self.object_id()) ==> ok && *final(rt) == *old(rt),
            outcome is Err && self.valid(*old(rt)) && old(rt).state_of(self.object_id()) is Pending
                ==> old(rt).settle_post(
                self.object_id(),
                Branch::Rejected,
                outcome->Err_0,
                ok,
                *final(rt),
            ),
            outcome is Err && ok ==> final(rt).is_settled(self.object_id()),
    {
        match rt.promise_settlement(self.object) {
            None => false,
            Some(s) => match outcome {
                Ok(()) => true,
                Err(e) => {
                    if s.0 == PromiseState::Pending {
                        rt.settle(self.object, Branch::Rejected, e)
                    } else {
                        true
                    }
                },
            },
        }
    }

    /// Creates a promise and runs `executor` on it once, before returning,
    /// handing it the runtime with the new pending promise and the promise's
    /// handle, through which it resolves or rejects. An executor that
    /// succeeds leaves the runtime as it handed it back, and the promise is
    /// returned. An executor that fails leaves the promise settled: rejected
    /// with its error if the executor had not settled it (see
    /// `finish_executor`). The result is `None` only when that rejection
    /// could not be made.
    pub fn new_with_executor<F>(rt: &mut Runtime, executor: F) -> (r: Option<Promise>)
        where
            F: FnOnce(Runtime, Promise) -> (Runtime, Result<(), Value>),
        requires
            old(rt).objects().len() < u64::MAX,
            forall|r0: Runtime, p: Promise| #[trigger] executor.requires((r0, p)),
            forall|r0: Runtime, p: Promise, out: (Runtime, Result<(), Value>)| #[trigger]
                executor.ensures((r0, p), out) ==> r0.evolves_to(out.0),
        ensures
            old(rt).evolves_to(*final(rt)),
            r is Some ==> r->Some_0.object_id() == old(rt).objects().len() && r->Some_0.valid(*final(rt)),
            exists|given: Runtime, p: Promise, ran: (Runtime, Result<(), Value>)|
                #[trigger] executor.ensures((given, p), ran) && executor_ran(
                    *old(rt),
                    given,
                    p,
                    ran,
                    r,
                    *final(rt),
                ),
    {
        let p = Promise::new(rt);
        let mut taken = Runtime::new();
        std::mem::swap(rt, &mut taken);
        let ghost mid = taken;
        let ran = executor(taken, p);
        let ghost ran_ghost = ran;
        let (back, outcome) = ran;
        *rt = back;
        let ghost after_run = *rt;
        let ok = p.finish_executor(rt, outcome);
        proof {
            Runtime::lemma_evolves_trans(*old(rt), mid, after_run);
            Runtime::lemma_evolves_trans(*old(rt), after_run, *rt);
            assert(executor.ensures((mid, p), ran_ghost));
            assert(executor_ran(*old(rt), mid, p, ran_ghost, if ok { Some(p) } else { None }, *rt));
        }
        if ok {
            Some(p)
        } else {
            None
        }
    }

    /// Creates a promise settled by the outcome of a host computation:
    /// fulfilled with the value of `Ok`, rejected with the value of `Err`.
    pub fn from_outcome(rt: &mut Runtime, outcome: Result<Value, Value>) -> (p: Promise)
        requires
            old(rt).objects().len() < u64::MAX,
        ensures
            p.object_id() == old(rt).objects().len(),
            p.valid(*final(rt)),
            outcome is Ok ==> final(rt).state_of(p.object_id()) is Fulfilled && final(rt).result_of(
                p.object_id(),
            ) == outcome->Ok_0,
            outcome is Err ==> final(rt).state_of(p.object_id()) is Rejected && final(rt).result_of(
                p.object_id(),
            ) == outcome->Err_0,
            final(rt).reactions_of(p.object_id()).len() == 0,
            final(rt).objects().len() == old(rt).objects().len() + 1,
            forall|j: int| 0 <= j < old(rt).objects().len() ==> #[trigger] final(rt).objects()[j]
                == old(rt).objects()[j],
            final(rt).queue() == old(rt).queue(),
            final(rt).queue_initialised() == old(rt).queue_initialised(),
            final(rt).pending_exception() == old(rt).pending_exception(),
            old(rt).evolves_to(*final(rt)),
    {
        let p = Promise::new(rt);
        let ghost mid = *rt;
        match outcome {
            Ok(v) => {
                p.resolve(rt, v);
            },
            Err(e) => {
                p.reject(rt, e);
            },
        }
        proof {
            assert(jobs_for(mid.reactions_of(p.object), Branch::Fulfilled, Value::Undefined).len() == 0);
            assert(rt.queue() =~= old(rt).queue());
            Runtime::lemma_evolves_trans(*old(rt), mid, *rt);
        }
        p
    }

    /// Whether object `object` is a promise.
    pub fn is_promise(rt: &Runtime, object: u64) -> (r: bool)
        ensures
            r == rt.is_promise_id(object),
    {
        rt.is_promise_object(object)
    }
}

} // verus!
