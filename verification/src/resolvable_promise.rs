//! The pending async registry, request-id allocation, and the
//! resolution-slot policy that settles a completed async operation.

use vstd::prelude::*;

use crate::state::{
    lemma_pairs_to_map_contains, lemma_pairs_to_map_index, lemma_pairs_to_map_push,
    lemma_pairs_to_map_remove, ContextRef, PromiseRef, Runtime,
};

verus! {

/// One registry entry: the script-visible promise a pending async operation
/// will settle, and the context that owns it.
#[derive(Clone, Copy, PartialEq, Eq, Structural, Debug)]
pub struct InternalPromise {
    pub promise: PromiseRef,
    pub global: ContextRef,
}

/// The two output slots a resolution marshaller writes into. `None` is an
/// undefined slot; a marshalled engine value is carried as plain data.
#[derive(Clone, Copy, PartialEq, Eq, Debug)]
pub struct Slots {
    pub success: Option<u64>,
    pub failure: Option<u64>,
}

/// What the checkpoint driver must do to the promise of a settled operation.
#[derive(Clone, Copy, PartialEq, Eq, Debug)]
pub enum Resolution {
    /// Resolve with the success slot's value; resolving with no value at all
    /// is valid and is not an error.
    Resolve(Option<u64>),
    /// Reject with the failure slot's value.
    Reject(u64),
}

/// The resolution policy: exactly one slot is authoritative. A defined
/// failure slot rejects the promise with its value — the success slot is
/// ignored even if also set. Otherwise the promise resolves with whatever the
/// success slot holds.
pub open spec fn spec_decide_resolution(slots: Slots) -> Resolution {
    match slots.failure {
        Some(v) => Resolution::Reject(v),
        None => Resolution::Resolve(slots.success),
    }
}

/// Applies the resolution policy to the slots a marshaller wrote.
pub fn decide_resolution(slots: Slots) -> (r: Resolution)
    ensures
        r == spec_decide_resolution(slots),
{
    match slots.failure {
        Some(v) => Resolution::Reject(v),
        None => Resolution::Resolve(slots.success),
    }
}

impl Runtime {
    /// Hands out the next request id. Ids increase monotonically and are
    /// never reused within the bridge's lifetime.
    pub fn why_is_promise_id_segfaulting(&mut self) -> (id: u64)
        requires
            old(self).next_id < u64::MAX,
        ensures
            id == old(self).next_id,
            final(self).next_id == old(self).next_id + 1,
            final(self).incumbent == old(self).incumbent,
            final(self).tasks == old(self).tasks,
            final(self).pending == old(self).pending,
            final(self).ready == old(self).ready,
            final(self).phase == old(self).phase,
            final(self).checkpoint == old(self).checkpoint,
    {
        let id = self.next_id;
        self.next_id = self.next_id + 1;
        id
    }

    /// The index of a request id in the registry's association list.
    fn pending_index_of(&self, id: u64) -> (r: Option<usize>)
        ensures
            r matches Some(i) ==> i < self.pending@.len() && self.pending@[i as int].0 == id,
            r is None ==> forall|j: int| 0 <= j < self.pending@.len() ==> self.pending@[j].0 != id,
    {
        let mut i: usize = 0;
        while i < self.pending.len()
            invariant
                i <= self.pending@.len(),
                forall|j: int| 0 <= j < i ==> self.pending@[j].0 != id,
            decreases self.pending@.len() - i,
        {
            if self.pending[i].0 == id {
                return Some(i);
            }
            i = i + 1;
        }
        None
    }

    /// Registers a pending promise under a request id — one the counter has
    /// already handed out, which every id reaching this bridge is. From here
    /// until the operation's completion is settled, the entry keeps the
    /// promise and its owning context reachable.
    pub fn push_internal_promise(&mut self, id: u64, promise: PromiseRef, global: ContextRef)
        requires
            old(self).wf(),
            id < old(self).next_id,
        ensures
            final(self).wf(),
            final(self)@.pending
                == old(self)@.pending.insert(id, InternalPromise { promise, global }),
            final(self).incumbent == old(self).incumbent,
            final(self).tasks == old(self).tasks,
            final(self).ready == old(self).ready,
            final(self).phase == old(self).phase,
            final(self).checkpoint == old(self).checkpoint,
            final(self).next_id == old(self).next_id,
    {
        let ghost s0 = self.pending@;
        match self.pending_index_of(id) {
            Some(i) => {
                self.pending.remove(i);
                proof {
                    lemma_pairs_to_map_remove(s0, i as int);
                    assert forall|j: int| 0 <= j < self.pending@.len()
                        implies self.pending@[j].0 != id by {
                        s0.remove_ensures(i as int);
                    }
                }
            },
            None => {},
        }
        let ghost s1 = self.pending@;
        self.pending.push((id, InternalPromise { promise, global }));
        proof {
            lemma_pairs_to_map_push(s1, id, InternalPromise { promise, global });
            assert(crate::state::pairs_to_map(s0).remove(id).insert(
                id,
                InternalPromise { promise, global },
            ) =~= crate::state::pairs_to_map(s0).insert(id, InternalPromise { promise, global }));
        }
    }

    /// The registration half of starting a new asynchronous operation — the
    /// only sanctioned way to introduce one into the bridge. Allocates a
    /// fresh request id and registers the promise and its owning context
    /// under it; the id was never handed out before, so no earlier entry is
    /// disturbed. The caller starts the underlying work on the executor,
    /// wraps its plain-data result together with this id, and hands that
    /// future to the poll set; the promise goes back to script code at once.
    pub fn register_async(&mut self, promise: PromiseRef, global: ContextRef) -> (id: u64)
        requires
            old(self).wf(),
            old(self).next_id < u64::MAX,
        ensures
            final(self).wf(),
            id == old(self).next_id,
            final(self).next_id == old(self).next_id + 1,
            !old(self)@.pending.contains_key(id),
            final(self)@.pending == old(self)@.pending.insert(
                id,
                (InternalPromise { promise, global }),
            ),
            final(self).incumbent == old(self).incumbent,
            final(self).tasks == old(self).tasks,
            final(self).ready == old(self).ready,
            final(self).phase == old(self).phase,
            final(self).checkpoint == old(self).checkpoint,
    {
        proof {
            lemma_pairs_to_map_contains(self.pending@, self.next_id);
        }
        let id = self.why_is_promise_id_segfaulting();
        self.push_internal_promise(id, promise, global);
        id
    }

    /// True iff no async operation is pending: every registered request id
    /// has been settled.
    pub fn futures_empty(&self) -> (r: bool)
        ensures
            r <==> self@.pending.dom() == Set::<u64>::empty(),
    {
        let r = self.pending.len() == 0;
        proof {
            crate::state::lemma_pairs_to_map_empty(self.pending@);
            if self.pending@.len() > 0 {
                assert(self@.pending.dom().contains(self.pending@.last().0));
            }
        }
        r
    }

    /// Settles the completed async operation `id`: removes its registry entry
    /// exactly once, activates its owning context on the incumbent stack for
    /// the duration of `lambda` — the host shell's run of the resolution
    /// marshaller, which writes the output slots — and applies the resolution
    /// policy to what the marshaller wrote. The caller then resolves or
    /// rejects the returned promise accordingly, inside the returned context.
    ///
    /// A request id with no registry entry is an invariant violation in the
    /// bridge — fatal by design, never a silent settlement of the wrong
    /// promise — so the precondition excludes it. Should an out-of-contract
    /// caller reach the body with such an id anyway, `None` comes back with
    /// the state untouched and the marshaller never run, and that caller must
    /// abort loudly.
    pub fn setup_to_resolve<F: FnOnce(ContextRef, PromiseRef) -> Slots>(
        &mut self,
        id: u64,
        lambda: F,
    ) -> (r: Option<(ContextRef, PromiseRef, Resolution)>)
        requires
            old(self).wf(),
            old(self)@.pending.contains_key(id),
            forall|c: ContextRef, p: PromiseRef| #[trigger] call_requires(lambda, (c, p)),
        ensures
            final(self).wf(),
            r is Some <==> old(self)@.pending.contains_key(id),
            r is None ==> *final(self) == *old(self),
            old(self)@.pending.contains_key(id) ==> ({
                let entry = old(self)@.pending[id];
                &&& final(self)@.pending == old(self)@.pending.remove(id)
                &&& final(self).incumbent@ == old(self).incumbent@
                &&& final(self).tasks == old(self).tasks
                &&& final(self).ready == old(self).ready
                &&& final(self).phase == old(self).phase
                &&& final(self).checkpoint == old(self).checkpoint
                &&& final(self).next_id == old(self).next_id
                &&& r matches Some((g, p, res)) && g == entry.global && p == entry.promise
                    && (exists|slots: Slots|
                        call_ensures(lambda, (entry.global, entry.promise), slots)
                        && res == spec_decide_resolution(slots))
            }),
    {
        let ghost s0 = self.pending@;
        let idx = match self.pending_index_of(id) {
            Some(i) => i,
            None => {
                proof {
                    lemma_pairs_to_map_contains(s0, id);
                }
                return None;
            },
        };
        proof {
            lemma_pairs_to_map_index(s0, idx as int);
            lemma_pairs_to_map_remove(s0, idx as int);
        }
        let (_key, entry) = self.pending.remove(idx);
        self.push_incumbent_stack(entry.global);
        let slots = lambda(entry.global, entry.promise);
        let _ = self.pop_incumbent_stack();
        proof {
            assert(old(self).incumbent@.push(entry.global).drop_last() =~= old(self).incumbent@);
        }
        let res = decide_resolution(slots);
        proof {
            assert(call_ensures(lambda, (entry.global, entry.promise), slots)
                && res == spec_decide_resolution(slots));
        }
        Some((entry.global, entry.promise, res))
    }
}

/// At-most-once law: settling removes the request id from the registry, and a
/// removed id is absent, so a second resolve or reject of the same id can
/// never be reached — it is reported as an invariant violation instead.
pub proof fn lemma_at_most_once(pending: Map<u64, InternalPromise>, id: u64)
    ensures
        !pending.remove(id).contains_key(id),
{
}

/// Exclusive-slot law: a marshaller that defined the failure slot rejects the
/// promise with that value, whatever the success slot was set to; one that
/// left the failure slot undefined resolves the promise with the success
/// slot's contents.
pub proof fn lemma_exclusive_slot(slots: Slots)
    ensures
        slots.failure matches Some(v) ==> spec_decide_resolution(slots) == Resolution::Reject(v),
        slots.failure is None ==> spec_decide_resolution(slots)
            == Resolution::Resolve(slots.success),
{
}

} // verus!
