use vstd::prelude::*;

verus! {

/// A registry of host callbacks, each held in a slot addressed by an
/// opaque identifier. A callback leaves its slot when it is taken, so it can
/// be dispatched at most once, and the slot is released at that point.
pub struct CallbackSlots<T> {
    slots: Vec<Option<T>>,
}

impl<T> CallbackSlots<T> {
    /// The callbacks held, by slot identifier.
    pub closed spec fn held(&self) -> Map<u64, T> {
        Map::new(
            |id: u64| (id as int) < self.slots@.len() && self.slots@[id as int] is Some,
            |id: u64| self.slots@[id as int]->Some_0,
        )
    }

    /// The number of slots ever handed out.
    pub closed spec fn issued(&self) -> nat {
        self.slots@.len()
    }

    /// Only slots that were issued hold a callback.
    pub proof fn lemma_held_were_issued(&self)
        ensures
            forall|id: u64| #[trigger] self.held().contains_key(id) ==> id < self.issued(),
    {
    }

    pub fn new() -> (r: CallbackSlots<T>)
        ensures
            r.held() == Map::<u64, T>::empty(),
            r.issued() == 0,
    {
        CallbackSlots { slots: Vec::new() }
    }

    /// Stores a callback in a fresh slot and returns that slot's identifier.
    pub fn insert(&mut self, callback: T) -> (id: u64)
        requires
            old(self).issued() < u64::MAX,
        ensures
            id == old(self).issued(),
            final(self).issued() == old(self).issued() + 1,
            final(self).held() == old(self).held().insert(id, callback),
    {
        let id = self.slots.len() as u64;
        self.slots.push(Some(callback));
        proof {
            assert(final(self).held() =~= old(self).held().insert(id, callback)) by {
                assert forall|k: u64| #![auto] final(self).held().dom().contains(k)
                    <==> old(self).held().insert(id, callback).dom().contains(k) by {
                    if (k as int) < old(self).slots@.len() {
                        assert(self.slots@[k as int] == old(self).slots@[k as int]);
                    }
                }
            }
        }
        id
    }

    /// Takes the callback out of its slot. A slot yields its callback once;
    /// afterwards, and for identifiers never issued, the result is `None`.
    pub fn take(&mut self, id: u64) -> (r: Option<T>)
        ensures
            final(self).issued() == old(self).issued(),
            old(self).held().contains_key(id) ==> r == Some(old(self).held()[id]),
            !old(self).held().contains_key(id) ==> r is None,
            final(self).held() == old(self).held().remove(id),
    {
        if id < self.slots.len() as u64 {
            let i = id as usize;
            let mut out: Option<T> = None;
            std::mem::swap(&mut self.slots[i], &mut out);
            proof {
                assert(self.slots@ == old(self).slots@.update(i as int, None));
                assert(final(self).held() =~= old(self).held().remove(id));
            }
            out
        } else {
            proof {
                assert(final(self).held() =~= old(self).held().remove(id));
            }
            None
        }
    }

    /// Whether another slot can be issued.
    pub fn has_room(&self) -> (r: bool)
        ensures
            r == (self.issued() < u64::MAX),
    {
        (self.slots.len() as u64) < u64::MAX
    }

    /// Whether the slot still holds its callback.
    pub fn contains(&self, id: u64) -> (r: bool)
        ensures
            r == self.held().contains_key(id),
    {
        id < self.slots.len() as u64 && self.slots[id as usize].is_some()
    }
}

} // verus!
