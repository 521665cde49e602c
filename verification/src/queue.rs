//! The FIFO task queue: deferred callbacks the engine asked to run later.

use vstd::prelude::*;

use crate::state::{CallbackRef, ContextRef, Runtime};

verus! {

/// A deferred callback paired with the execution context it belongs to.
/// Created by the enqueue hook, consumed exactly once by the drain driver,
/// never re-queued.
#[derive(Clone, Copy, PartialEq, Eq, Structural, Debug)]
pub struct Task {
    /// The engine-managed callable to invoke with zero arguments.
    pub job: CallbackRef,
    /// The context whose code the callback logically belongs to.
    pub global: ContextRef,
}

impl Runtime {
    /// Enqueues a task at the tail of the FIFO queue.
    pub fn insert_into_filo(&mut self, job: CallbackRef, global: ContextRef)
        ensures
            final(self).tasks@ == old(self).tasks@.push(Task { job, global }),
            final(self).incumbent == old(self).incumbent,
            final(self).pending == old(self).pending,
            final(self).ready == old(self).ready,
            final(self).phase == old(self).phase,
            final(self).checkpoint == old(self).checkpoint,
            final(self).next_id == old(self).next_id,
    {
        self.tasks.push_back(Task { job, global });
    }

    /// Dequeues the task at the head of the FIFO queue: strictly first in,
    /// first out, no priority.
    pub fn remove_from_filo(&mut self) -> (r: Option<Task>)
        ensures
            old(self).tasks@.len() > 0 ==> {
                &&& r == Some(old(self).tasks@.first())
                &&& final(self).tasks@ == old(self).tasks@.drop_first()
            },
            old(self).tasks@.len() == 0 ==> {
                &&& r is None
                &&& final(self).tasks@ == old(self).tasks@
            },
            final(self).incumbent == old(self).incumbent,
            final(self).pending == old(self).pending,
            final(self).ready == old(self).ready,
            final(self).phase == old(self).phase,
            final(self).checkpoint == old(self).checkpoint,
            final(self).next_id == old(self).next_id,
    {
        self.tasks.pop_front()
    }

    /// True iff no task is queued.
    pub fn filo_empty(&self) -> (r: bool)
        ensures
            r <==> self.tasks@.len() == 0,
    {
        self.tasks.len() == 0
    }
}

impl Task {
    /// Runs the task: activates its owning context on the incumbent stack for
    /// exactly the duration of `lambda` — the host shell's invocation of the
    /// deferred callback, which is called once, with the task's own context
    /// and callable — and discards the callback's outcome. Failures inside
    /// the callback are the engine's own; none propagates here.
    pub fn call<F: FnOnce(ContextRef, CallbackRef)>(self, rt: &mut Runtime, lambda: F)
        requires
            call_requires(lambda, (self.global, self.job)),
        ensures
            call_ensures(lambda, (self.global, self.job), ()),
            final(rt).incumbent@ == old(rt).incumbent@,
            final(rt).tasks == old(rt).tasks,
            final(rt).pending == old(rt).pending,
            final(rt).ready == old(rt).ready,
            final(rt).phase == old(rt).phase,
            final(rt).checkpoint == old(rt).checkpoint,
            final(rt).next_id == old(rt).next_id,
    {
        rt.push_incumbent_stack(self.global);
        lambda(self.global, self.job);
        let _ = rt.pop_incumbent_stack();
        proof {
            assert(old(rt).incumbent@.push(self.global).drop_last() =~= old(rt).incumbent@);
        }
    }
}

/// The queue after `insert_into_filo` has appended each task of `ts`, first
/// to last.
pub open spec fn spec_insert_all(q: Seq<Task>, ts: Seq<Task>) -> Seq<Task>
    decreases ts.len(),
{
    if ts.len() > 0 {
        spec_insert_all(q.push(ts.first()), ts.drop_first())
    } else {
        q
    }
}

/// The tasks that successive `remove_from_filo` calls return, first to last,
/// until the queue is empty — after which every further call returns `None`.
pub open spec fn spec_remove_all(q: Seq<Task>) -> Seq<Task>
    decreases q.len(),
{
    if q.len() > 0 {
        seq![q.first()] + spec_remove_all(q.drop_first())
    } else {
        Seq::empty()
    }
}

/// FIFO law, for any number of tasks: enqueueing appends at the tail and
/// dequeueing takes from the head, so inserting tasks into any queue — the
/// empty one included — and then removing until empty yields whatever was
/// queued before, followed by the inserted tasks in exactly their insertion
/// order: none skipped, none duplicated, none reordered. Settling async
/// completions never touches the queue, so interleaved completions cannot
/// disturb this.
pub proof fn lemma_fifo_order(q: Seq<Task>, ts: Seq<Task>)
    ensures
        spec_insert_all(q, ts) =~= q + ts,
        spec_remove_all(spec_insert_all(q, ts)) =~= q + ts,
    decreases ts.len(),
{
    if ts.len() > 0 {
        lemma_fifo_order(q.push(ts.first()), ts.drop_first());
        assert(q.push(ts.first()) + ts.drop_first() =~= q + ts);
    }
    lemma_remove_all_in_order(spec_insert_all(q, ts));
}

/// Removing until empty hands the queue back element by element, in order.
pub proof fn lemma_remove_all_in_order(q: Seq<Task>)
    ensures
        spec_remove_all(q) =~= q,
    decreases q.len(),
{
    if q.len() > 0 {
        lemma_remove_all_in_order(q.drop_first());
        assert(seq![q.first()] + q.drop_first() =~= q);
    }
}

} // verus!
