use vstd::prelude::*;
use crate::microtask::{Branch, Microtask};
use crate::promise::registered;
use crate::runtime::{job_for, state_branch, Reaction, Runtime};
use crate::value::Value;

verus! {

/// What is left of queue `s` after `k` calls of `next_microtask`.
pub open spec fn dequeued(s: Seq<Microtask>, k: nat) -> Seq<Microtask>
    decreases k,
{
    if k == 0 || s.len() == 0 {
        s
    } else {
        dequeued(s.drop_first(), (k - 1) as nat)
    }
}

/// Once a promise is observed settled, every later observation sees the
/// same state and result, however the runtime changed in between.
pub proof fn lemma_settled_stays_settled(before: Runtime, after: Runtime, id: u64)
    requires
        before.evolves_to(after),
        before.is_settled(id),
    ensures
        after.is_settled(id),
        after.state_of(id) == before.state_of(id),
        after.result_of(id) == before.result_of(id),
{
}

/// Settlement happens once: after a successful fulfilment with `v`, a
/// second fulfilment or rejection fails and the promise keeps `v`.
pub proof fn lemma_second_settlement_fails(
    r0: Runtime,
    r1: Runtime,
    r2: Runtime,
    id: u64,
    v: Value,
    b: Branch,
    w: Value,
    ok2: bool,
)
    requires
        r0.settle_post(id, Branch::Fulfilled, v, true, r1),
        r1.settle_post(id, b, w, ok2, r2),
    ensures
        !ok2,
        r2.state_of(id) is Fulfilled,
        r2.result_of(id) == v,
{
}

/// Registering a reaction on a settled promise runs nothing: everything
/// queued before stays ahead of it, the promise is untouched, and the
/// handler due for the settled branch waits at the back of the queue.
pub proof fn lemma_registration_on_settled_defers(
    before: Runtime,
    id: u64,
    r: Reaction,
    after: Runtime,
    grown: nat,
)
    requires
        before.is_settled(id),
        registered(before, id, r, true, after, grown),
    ensures
        after.queue().len() == before.queue().len() + job_for(
            r,
            state_branch(before.state_of(id)),
            before.result_of(id),
        ).len(),
        after.queue().subrange(0, before.queue().len() as int) == before.queue(),
        after.state_of(id) == before.state_of(id),
        after.result_of(id) == before.result_of(id),
        job_for(r, state_branch(before.state_of(id)), before.result_of(id)).len() == 1 ==> after.queue().last()
            == job_for(r, state_branch(before.state_of(id)), before.result_of(id))[0],
{
    assert(after.queue().subrange(0, before.queue().len() as int) =~= before.queue());
}

/// A microtask enqueued while the drain is running (onto what remains, `q`)
/// is run by that same drain: the queue does not run empty before it, and it
/// comes out right after what was queued ahead of it.
pub proof fn lemma_enqueued_during_drain_runs(q: Seq<Microtask>, t: Microtask)
    ensures
        forall|k: nat| k <= q.len() ==> #[trigger] dequeued(q.push(t), k).len() > 0,
        dequeued(q.push(t), q.len())[0] == t,
    decreases q.len(),
{
    if q.len() > 0 {
        lemma_enqueued_during_drain_runs(q.drop_first(), t);
        assert(q.push(t).drop_first() =~= q.drop_first().push(t));
        assert forall|k: nat| k <= q.len() implies #[trigger] dequeued(q.push(t), k).len() > 0 by {
            if k > 0 {
                assert(dequeued(q.push(t), k) == dequeued(q.drop_first().push(t), (k - 1) as nat));
            }
        }
    }
}

} // verus!
