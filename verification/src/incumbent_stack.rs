//! The incumbent context stack: which context the currently running job
//! logically belongs to. Push on entry, pop on exit, strictly nested, never
//! reordered; the top answers host-data lookups made while a callback runs.

use vstd::prelude::*;

use crate::state::{ContextRef, Runtime};

verus! {

impl Runtime {
    /// Pushes a context: its code is now the logically running job's origin.
    pub fn push_incumbent_stack(&mut self, item: ContextRef)
        ensures
            final(self).incumbent@ == old(self).incumbent@.push(item),
            final(self).tasks == old(self).tasks,
            final(self).pending == old(self).pending,
            final(self).ready == old(self).ready,
            final(self).phase == old(self).phase,
            final(self).checkpoint == old(self).checkpoint,
            final(self).next_id == old(self).next_id,
    {
        self.incumbent.push(item);
    }

    /// Pops the top context on exit from a job. An empty stack is a protocol
    /// violation on the caller's side; it is reported by the `None` return,
    /// never fatal.
    pub fn pop_incumbent_stack(&mut self) -> (r: Option<ContextRef>)
        ensures
            old(self).incumbent@.len() > 0 ==> {
                &&& r == Some(old(self).incumbent@.last())
                &&& final(self).incumbent@ == old(self).incumbent@.drop_last()
            },
            old(self).incumbent@.len() == 0 ==> {
                &&& r is None
                &&& final(self).incumbent@ == old(self).incumbent@
            },
            final(self).tasks == old(self).tasks,
            final(self).pending == old(self).pending,
            final(self).ready == old(self).ready,
            final(self).phase == old(self).phase,
            final(self).checkpoint == old(self).checkpoint,
            final(self).next_id == old(self).next_id,
    {
        self.incumbent.pop()
    }

    /// Looks, without removing it, at the context on top of the stack: the
    /// incumbent of whatever is running right now, or `None` when no job
    /// dispatch is in progress.
    pub fn peek_incumbent_stack(&self) -> (r: Option<ContextRef>)
        ensures
            self.incumbent@.len() > 0 ==> r == Some(self.incumbent@.last()),
            self.incumbent@.len() == 0 ==> r is None,
    {
        if self.incumbent.len() > 0 {
            Some(self.incumbent[self.incumbent.len() - 1])
        } else {
            None
        }
    }

    /// Runs `lambda` with `globals` as the incumbent context: pushes it,
    /// calls `lambda`, and pops it again, so that the stack leaves exactly as
    /// it came — nesting is transparent to whatever was below.
    pub fn enter_incumbent_stack<R, F: FnOnce(ContextRef) -> R>(
        &mut self,
        globals: ContextRef,
        lambda: F,
    ) -> (r: R)
        requires
            call_requires(lambda, (globals,)),
        ensures
            final(self).incumbent@ == old(self).incumbent@,
            final(self).tasks == old(self).tasks,
            final(self).pending == old(self).pending,
            final(self).ready == old(self).ready,
            final(self).phase == old(self).phase,
            final(self).checkpoint == old(self).checkpoint,
            final(self).next_id == old(self).next_id,
            call_ensures(lambda, (globals,), r),
    {
        self.push_incumbent_stack(globals);
        let out = lambda(globals);
        let _ = self.pop_incumbent_stack();
        proof {
            assert(old(self).incumbent@.push(globals).drop_last() =~= old(self).incumbent@);
        }
        out
    }
}

/// Context-restoration law: after a job for context `entered` has been pushed
/// and popped, the stack — and so what `peek` answers — is exactly what it was
/// before the job ran.
pub proof fn lemma_context_restoration(stack: Seq<ContextRef>, entered: ContextRef)
    ensures
        stack.push(entered).drop_last() =~= stack,
        stack.push(entered).last() == entered,
{
}

} // verus!
