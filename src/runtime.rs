use vstd::prelude::*;
use crate::microtask::{Branch, Microtask, MicrotaskQueue, QueueError};
use crate::value::{Exception, Value};

verus! {

/// The settlement state of a promise.
#[derive(Clone, Copy, Debug, PartialEq, Eq, Structural)]
pub enum PromiseState {
    Pending,
    Fulfilled,
    Rejected,
}

/// One subscription to a promise's settlement: a handler function object for each
/// branch, either of which may be absent.
#[derive(Clone, Copy, Debug, PartialEq, Eq, Structural)]
pub struct Reaction {
    pub on_resolved: Option<u64>,
    pub on_rejected: Option<u64>,
}

/// What the engine keeps for a promise object. `reactions` holds the
/// subscriptions still waiting for settlement, in registration order.
pub struct PromiseRecord {
    pub state: PromiseState,
    pub result: Value,
    pub reactions: Vec<Reaction>,
}

/// What the engine keeps for a function object.
pub struct FunctionRecord {
    pub name: Option<String>,
    pub display_name: Option<String>,
    pub nargs: u16,
    /// The effective parameter count, when the engine can compute it.
    pub length: Option<u16>,
    pub bound: bool,
    pub eval: bool,
    pub constructor: bool,
    pub function_constructor: bool,
    /// The host callback slot a native function dispatches to, if any.
    pub callback: Option<u64>,
}

/// An object of the engine heap.
pub enum Object {
    Plain,
    Promise(PromiseRecord),
    Function(FunctionRecord),
}

/// The state shared by every component: the engine heap, whose objects are
/// identified by their index, the pending-exception slot, and the host's
/// microtask queue.
pub struct Runtime {
    objects: Vec<Object>,
    microtasks: MicrotaskQueue,
    pending: Option<Exception>,
}

/// The state a promise settles into on a branch.
pub open spec fn branch_state(b: Branch) -> PromiseState {
    match b {
        Branch::Fulfilled => PromiseState::Fulfilled,
        Branch::Rejected => PromiseState::Rejected,
    }
}

/// The branch of a settled state.
pub open spec fn state_branch(s: PromiseState) -> Branch {
    if s is Rejected {
        Branch::Rejected
    } else {
        Branch::Fulfilled
    }
}

/// The handler a reaction registered for a branch.
pub open spec fn handler_for(r: Reaction, b: Branch) -> Option<u64> {
    match b {
        Branch::Fulfilled => r.on_resolved,
        Branch::Rejected => r.on_rejected,
    }
}

/// The job one reaction contributes when its promise settles on `b` with `v`:
/// one invocation of its handler for that branch, or nothing without one.
pub open spec fn job_for(r: Reaction, b: Branch, v: Value) -> Seq<Microtask> {
    match handler_for(r, b) {
        Some(h) => seq![Microtask::Reaction { handler: h, branch: b, argument: v }],
        None => Seq::empty(),
    }
}

/// The jobs that reactions contribute, in registration order.
pub open spec fn jobs_for(rs: Seq<Reaction>, b: Branch, v: Value) -> Seq<Microtask>
    decreases rs.len(),
{
    if rs.len() == 0 {
        Seq::empty()
    } else {
        jobs_for(rs.drop_last(), b, v) + job_for(rs.last(), b, v)
    }
}

impl Runtime {
    pub closed spec fn objects(&self) -> Seq<Object> {
        self.objects@
    }

    pub closed spec fn queue(&self) -> Seq<Microtask> {
        self.microtasks@
    }

    pub closed spec fn queue_initialised(&self) -> bool {
        self.microtasks.is_initialised()
    }

    pub closed spec fn pending_exception(&self) -> Option<Exception> {
        self.pending
    }

    pub open spec fn is_promise_id(&self, id: u64) -> bool {
        id < self.objects().len() && self.objects()[id as int] is Promise
    }

    pub open spec fn is_function_id(&self, id: u64) -> bool {
        id < self.objects().len() && self.objects()[id as int] is Function
    }

    pub open spec fn promise(&self, id: u64) -> PromiseRecord {
        self.objects()[id as int]->Promise_0
    }

    pub open spec fn function(&self, id: u64) -> FunctionRecord {
        self.objects()[id as int]->Function_0
    }

    pub open spec fn state_of(&self, id: u64) -> PromiseState {
        self.promise(id).state
    }

    pub open spec fn result_of(&self, id: u64) -> Value {
        self.promise(id).result
    }

    pub open spec fn reactions_of(&self, id: u64) -> Seq<Reaction> {
        self.promise(id).reactions@
    }

    pub open spec fn is_settled(&self, id: u64) -> bool {
        self.is_promise_id(id) && !(self.state_of(id) is Pending)
    }

    /// How the heap may change under any operation: objects are only added,
    /// an object keeps its kind, a function keeps its record, and a settled
    /// promise keeps its state and result.
    pub open spec fn evolves_to(&self, next: Runtime) -> bool {
        &&& self.objects().len() <= next.objects().len()
        &&& forall|id: u64| #[trigger] self.is_promise_id(id) ==> next.is_promise_id(id)
        &&& forall|id: u64| #[trigger] self.is_function_id(id) ==> next.is_function_id(id)
            && next.function(id) == self.function(id)
        &&& forall|id: u64| #[trigger] self.is_settled(id) ==> next.is_settled(id)
            && next.state_of(id) == self.state_of(id) && next.result_of(id) == self.result_of(id)
    }

    /// Changes compose: a heap that evolved twice evolved once.
    pub proof fn lemma_evolves_trans(a: Runtime, b: Runtime, c: Runtime)
        requires
            a.evolves_to(b),
            b.evolves_to(c),
        ensures
            a.evolves_to(c),
    {
    }

    /// Everything but object `id` and the queue's contents is unchanged.
    pub open spec fn same_except(&self, next: Runtime, id: u64) -> bool {
        &&& next.objects().len() == self.objects().len()
        &&& forall|j: int| 0 <= j < self.objects().len() && j != id ==> #[trigger] next.objects()[j]
            == self.objects()[j]
        &&& next.queue_initialised() == self.queue_initialised()
        &&& next.pending_exception() == self.pending_exception()
    }

    /// What settling promise `id` on branch `b` with `v` does: it succeeds
    /// exactly when the promise is pending and its waiting jobs can be
    /// queued; then the promise takes the branch's state and the value, its
    /// reactions leave it, and their jobs join the back of the queue.
    /// Otherwise nothing changes. A pending promise whose reactions are
    /// waiting is therefore not settled while the microtask queue is not
    /// initialised: enqueueing onto it is a configuration error, reported
    /// here by failing, and settling without queueing the reactions would
    /// drop them. Settlement stays exactly-once either way.
    pub open spec fn settle_post(&self, id: u64, b: Branch, v: Value, ok: bool, next: Runtime) -> bool {
        &&& ok == (self.is_promise_id(id) && self.state_of(id) is Pending && (self.queue_initialised()
            || self.reactions_of(id).len() == 0))
        &&& ok ==> {
            &&& self.same_except(next, id)
            &&& next.is_promise_id(id)
            &&& next.state_of(id) == branch_state(b)
            &&& next.result_of(id) == v
            &&& next.reactions_of(id).len() == 0
            &&& next.queue() == self.queue() + jobs_for(self.reactions_of(id), b, v)
        }
        &&& !ok ==> next == *self
    }

    /// What registering reaction `r` on promise `id` does. On a pending
    /// promise the reaction joins its waiting list. On a settled one its job
    /// for the settled branch joins the back of the queue: the handler is
    /// never run during registration. It fails, changing nothing, on an
    /// object that is not a promise, or when a job is due and the queue does
    /// not accept work.
    pub open spec fn add_reaction_post(&self, id: u64, r: Reaction, ok: bool, next: Runtime) -> bool {
        &&& ok == (self.is_promise_id(id) && (self.state_of(id) is Pending || self.queue_initialised()
            || job_for(r, state_branch(self.state_of(id)), self.result_of(id)).len() == 0))
        &&& ok && self.state_of(id) is Pending ==> {
            &&& self.same_except(next, id)
            &&& next.is_promise_id(id)
            &&& next.state_of(id) is Pending
            &&& next.result_of(id) == self.result_of(id)
            &&& next.reactions_of(id) == self.reactions_of(id).push(r)
            &&& next.queue() == self.queue()
        }
        &&& ok && !(self.state_of(id) is Pending) ==> {
            &&& next.objects() == self.objects()
            &&& next.queue_initialised() == self.queue_initialised()
            &&& next.pending_exception() == self.pending_exception()
            &&& next.queue() == self.queue() + job_for(r, state_branch(self.state_of(id)), self.result_of(id))
        }
        &&& !ok ==> next == *self
    }

    /// A runtime with an empty heap, no pending exception and a queue that
    /// is not initialised.
    pub fn new() -> (r: Runtime)
        ensures
            r.objects().len() == 0,
            r.queue() == Seq::<Microtask>::empty(),
            !r.queue_initialised(),
            r.pending_exception() is None,
    {
        Runtime { objects: Vec::new(), microtasks: MicrotaskQueue::new(), pending: None }
    }

    /// Lets the microtask queue accept work.
    pub fn init_microtasks(&mut self)
        ensures
            final(self).objects() == old(self).objects(),
            final(self).queue() == old(self).queue(),
            final(self).queue_initialised(),
            final(self).pending_exception() == old(self).pending_exception(),
    {
        self.microtasks.init();
    }

    /// Drops the queued work and stops the queue accepting more.
    pub fn teardown_microtasks(&mut self)
        ensures
            final(self).objects() == old(self).objects(),
            final(self).queue() == Seq::<Microtask>::empty(),
            !final(self).queue_initialised(),
            final(self).pending_exception() == old(self).pending_exception(),
    {
        self.microtasks.teardown();
    }

    /// Appends a microtask; fails with `NotInitialised`, changing nothing,
    /// when the queue is not initialised.
    pub fn enqueue(&mut self, task: Microtask) -> (r: Result<(), QueueError>)
        ensures
            final(self).objects() == old(self).objects(),
            final(self).queue_initialised() == old(self).queue_initialised(),
            final(self).pending_exception() == old(self).pending_exception(),
            old(self).queue_initialised() ==> r is Ok && final(self).queue() == old(self).queue().push(
                task,
            ),
            !old(self).queue_initialised() ==> r == Err::<(), QueueError>(QueueError::NotInitialised)
                && final(self).queue() == old(self).queue(),
    {
        self.microtasks.enqueue(task)
    }

    /// Removes and returns the oldest microtask; `None` exactly when the
    /// queue is empty, which is where a drain stops.
    pub fn next_microtask(&mut self) -> (r: Option<Microtask>)
        ensures
            final(self).objects() == old(self).objects(),
            final(self).queue_initialised() == old(self).queue_initialised(),
            final(self).pending_exception() == old(self).pending_exception(),
            old(self).queue().len() == 0 ==> r is None && final(self).queue() == old(self).queue(),
            old(self).queue().len() > 0 ==> r == Some(old(self).queue()[0]) && final(self).queue()
                == old(self).queue().drop_first(),
    {
        self.microtasks.dequeue()
    }

    /// The number of microtasks waiting.
    pub fn queued(&self) -> (r: usize)
        ensures
            r == self.queue().len(),
    {
        self.microtasks.len()
    }

    pub fn microtasks_initialised(&self) -> (r: bool)
        ensures
            r == self.queue_initialised(),
    {
        self.microtasks.accepts_work()
    }

    /// Puts an exception into the pending-exception slot.
    pub fn throw(&mut self, e: Exception)
        ensures
            final(self).objects() == old(self).objects(),
            final(self).queue() == old(self).queue(),
            final(self).queue_initialised() == old(self).queue_initialised(),
            final(self).pending_exception() == Some(e),
    {
        self.pending = Some(e);
    }

    /// Takes the pending exception out of its slot, leaving none.
    pub fn take_pending_exception(&mut self) -> (r: Option<Exception>)
        ensures
            final(self).objects() == old(self).objects(),
            final(self).queue() == old(self).queue(),
            final(self).queue_initialised() == old(self).queue_initialised(),
            r == old(self).pending_exception(),
            final(self).pending_exception() is None,
    {
        let mut out: Option<Exception> = None;
        std::mem::swap(&mut self.pending, &mut out);
        out
    }

    /// Whether an exception is pending.
    pub fn is_exception_pending(&self) -> (r: bool)
        ensures
            r == self.pending_exception() is Some,
    {
        self.pending.is_some()
    }

    /// Adds an object to the heap and returns its identity.
    fn add_object(&mut self, obj: Object) -> (id: u64)
        requires
            old(self).objects().len() < u64::MAX,
        ensures
            id == old(self).objects().len(),
            final(self).objects() == old(self).objects().push(obj),
            final(self).queue() == old(self).queue(),
            final(self).queue_initialised() == old(self).queue_initialised(),
            final(self).pending_exception() == old(self).pending_exception(),
    {
        let id = self.objects.len() as u64;
        self.objects.push(obj);
        id
    }

    /// Whether another object fits in the heap.
    pub fn has_room(&self) -> (r: bool)
        ensures
            r == (self.objects().len() < u64::MAX),
    {
        (self.objects.len() as u64) < u64::MAX
    }

    /// Adds a pending promise with no reactions.
    pub fn alloc_promise(&mut self) -> (id: u64)
        requires
            old(self).objects().len() < u64::MAX,
        ensures
            id == old(self).objects().len(),
            final(self).objects().len() == old(self).objects().len() + 1,
            forall|j: int| 0 <= j < old(self).objects().len() ==> #[trigger] final(self).objects()[j]
                == old(self).objects()[j],
            final(self).is_promise_id(id),
            final(self).state_of(id) is Pending,
            final(self).result_of(id) == Value::Undefined,
            final(self).reactions_of(id).len() == 0,
            final(self).queue() == old(self).queue(),
            final(self).queue_initialised() == old(self).queue_initialised(),
            final(self).pending_exception() == old(self).pending_exception(),
            old(self).evolves_to(*final(self)),
    {
        let rec = PromiseRecord {
            state: PromiseState::Pending,
            result: Value::Undefined,
            reactions: Vec::new(),
        };
        self.add_object(Object::Promise(rec))
    }

    /// Adds a plain object.
    pub fn alloc_plain(&mut self) -> (id: u64)
        requires
            old(self).objects().len() < u64::MAX,
        ensures
            id == old(self).objects().len(),
            final(self).objects() == old(self).objects().push(Object::Plain),
            final(self).queue() == old(self).queue(),
            final(self).queue_initialised() == old(self).queue_initialised(),
            final(self).pending_exception() == old(self).pending_exception(),
            old(self).evolves_to(*final(self)),
    {
        self.add_object(Object::Plain)
    }

    /// Adds a function object.
    pub fn alloc_function(&mut self, rec: FunctionRecord) -> (id: u64)
        requires
            old(self).objects().len() < u64::MAX,
        ensures
            id == old(self).objects().len(),
            final(self).objects() == old(self).objects().push(Object::Function(rec)),
            final(self).is_function_id(id),
            final(self).function(id) == rec,
            final(self).queue() == old(self).queue(),
            final(self).queue_initialised() == old(self).queue_initialised(),
            final(self).pending_exception() == old(self).pending_exception(),
            old(self).evolves_to(*final(self)),
    {
        self.add_object(Object::Function(rec))
    }

    /// Settles promise `id` on branch `b` with value `v`; see `settle_post`.
    pub fn settle(&mut self, id: u64, b: Branch, v: Value) -> (ok: bool)
        ensures
            old(self).settle_post(id, b, v, ok, *final(self)),
            old(self).evolves_to(*final(self)),
    {
        if id >= self.objects.len() as u64 {
            return false;
        }
        let i = id as usize;
        let due = match &self.objects[i] {
            Object::Promise(rec) => rec.state == PromiseState::Pending && (
            self.microtasks.accepts_work() || rec.reactions.len() == 0),
            _ => false,
        };
        if !due {
            return false;
        }
        let ghost before = *self;
        let mut obj = Object::Plain;
        std::mem::swap(&mut self.objects[i], &mut obj);
        match obj {
            Object::Promise(rec) => {
                let reactions = rec.reactions;
                let mut k: usize = 0;
                while k < reactions.len()
                    invariant
                        0 <= k <= reactions@.len(),
                        reactions@ == before.reactions_of(id),
                        self.objects@ == before.objects@.update(i as int, Object::Plain),
                        self.pending == before.pending,
                        self.microtasks.is_initialised() == before.queue_initialised(),
                        before.queue_initialised() || reactions@.len() == 0,
                        self.microtasks@ == before.queue() + jobs_for(reactions@.take(k as int), b, v),
                    decreases reactions.len() - k,
                {
                    let r = reactions[k];
                    let h = match b {
                        Branch::Fulfilled => r.on_resolved,
                        Branch::Rejected => r.on_rejected,
                    };
                    match h {
                        Some(handler) => {
                            let _ = self.microtasks.enqueue(
                                Microtask::Reaction { handler, branch: b, argument: v },
                            );
                        },
                        None => {},
                    }
                    proof {
                        assert(reactions@.take(k + 1).drop_last() =~= reactions@.take(k as int));
                        assert(self.microtasks@ =~= before.queue() + jobs_for(
                            reactions@.take(k + 1),
                            b,
                            v,
                        ));
                    }
                    k = k + 1;
                }
                proof {
                    assert(reactions@.take(reactions@.len() as int) =~= reactions@);
                }
                let state = match b {
                    Branch::Fulfilled => PromiseState::Fulfilled,
                    Branch::Rejected => PromiseState::Rejected,
                };
                self.objects.set(
                    i,
                    Object::Promise(PromiseRecord { state, result: v, reactions: Vec::new() }),
                );
                true
            },
            _ => {
                proof {
                    assert(false);
                }
                false
            },
        }
    }

    /// Registers reaction `r` on promise `id`; see `add_reaction_post`.
    pub fn add_reaction(&mut self, id: u64, r: Reaction) -> (ok: bool)
        ensures
            old(self).add_reaction_post(id, r, ok, *final(self)),
            old(self).evolves_to(*final(self)),
    {
        if id >= self.objects.len() as u64 {
            return false;
        }
        let i = id as usize;
        let (state, result) = match &self.objects[i] {
            Object::Promise(rec) => (rec.state, rec.result),
            _ => {
                return false;
            },
        };
        match state {
            PromiseState::Pending => {
                let mut obj = Object::Plain;
                std::mem::swap(&mut self.objects[i], &mut obj);
                match obj {
                    Object::Promise(rec) => {
                        let mut reactions = rec.reactions;
                        reactions.push(r);
                        self.objects.set(
                            i,
                            Object::Promise(PromiseRecord { state: rec.state, result: rec.result, reactions }),
                        );
                        true
                    },
                    _ => {
                        proof {
                            assert(false);
                        }
                        false
                    },
                }
            },
            _ => {
                let b = match state {
                    PromiseState::Rejected => Branch::Rejected,
                    _ => Branch::Fulfilled,
                };
                let h = match b {
                    Branch::Fulfilled => r.on_resolved,
                    Branch::Rejected => r.on_rejected,
                };
                match h {
                    Some(handler) => {
                        if !self.microtasks.accepts_work() {
                            return false;
                        }
                        let _ = self.microtasks.enqueue(
                            Microtask::Reaction { handler, branch: b, argument: result },
                        );
                        proof {
                            assert(self.microtasks@ =~= old(self).queue() + job_for(r, b, result));
                        }
                        true
                    },
                    None => {
                        proof {
                            assert(self.microtasks@ =~= old(self).queue() + job_for(r, b, result));
                        }
                        true
                    },
                }
            },
        }
    }

    /// The record of function object `id`, if it is one.
    pub fn function_record(&self, id: u64) -> (r: Option<&FunctionRecord>)
        ensures
            r is Some == self.is_function_id(id),
            r matches Some(f) ==> *f == self.function(id),
    {
        if id >= self.objects.len() as u64 {
            return None;
        }
        match &self.objects[id as usize] {
            Object::Function(rec) => Some(rec),
            _ => None,
        }
    }

    /// The state and result of promise object `id`, if it is one.
    pub fn promise_settlement(&self, id: u64) -> (r: Option<(PromiseState, Value)>)
        ensures
            r is Some == self.is_promise_id(id),
            r matches Some(p) ==> p.0 == self.state_of(id) && p.1 == self.result_of(id),
    {
        if id >= self.objects.len() as u64 {
            return None;
        }
        match &self.objects[id as usize] {
            Object::Promise(rec) => Some((rec.state, rec.result)),
            _ => None,
        }
    }

    /// Whether object `id` is a promise.
    pub fn is_promise_object(&self, id: u64) -> (r: bool)
        ensures
            r == self.is_promise_id(id),
    {
        id < self.objects.len() as u64 && matches!(self.objects[id as usize], Object::Promise(_))
    }

    /// Whether object `id` is callable.
    pub fn is_function_object(&self, id: u64) -> (r: bool)
        ensures
            r == self.is_function_id(id),
    {
        id < self.objects.len() as u64 && matches!(self.objects[id as usize], Object::Function(_))
    }
}

} // verus!
