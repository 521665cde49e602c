//! The job-queue host hooks: the decisions behind the trap table the engine
//! calls into. The host shell owns the engine-facing trampolines and routes
//! each hook here with plain values; `run_jobs` and `empty` land on
//! [`Runtime::runtime_checkpoint`] and [`Runtime::is_empty`].

use vstd::prelude::*;

use crate::queue::Task;
use crate::state::{CallbackRef, ContextRef, Runtime};

verus! {

impl Runtime {
    /// Which context the host-defined data handed to the engine must point
    /// at: the incumbent stack's top; on an empty stack, the engine's
    /// currently active global, if any. `None` — no context can be
    /// established at all — is an explicit "no data" failure for the
    /// trampoline to report, never a corrupted reference.
    pub fn get_host_defined_data(&self, current_global: Option<ContextRef>) -> (r: Option<
        ContextRef,
    >)
        ensures
            self.incumbent@.len() > 0 ==> r == Some(self.incumbent@.last()),
            self.incumbent@.len() == 0 ==> r == current_global,
    {
        match self.peek_incumbent_stack() {
            Some(top) => Some(top),
            None => current_global,
        }
    }

    /// Enqueues a promise-reaction job the engine asked to defer. The context
    /// read out of the host-defined data comes in as `host_defined_data`;
    /// when it is absent or invalid the job is dropped silently — a
    /// documented best-effort policy for the engine's own internally
    /// generated jobs, reported as a diagnostic by the shell, never a hard
    /// failure.
    pub fn enqueue_promise_job(
        &mut self,
        job: CallbackRef,
        host_defined_data: Option<ContextRef>,
    )
        ensures
            host_defined_data matches Some(global) ==> final(self).tasks@ == old(
                self,
            ).tasks@.push((Task { job, global })),
            host_defined_data is None ==> final(self).tasks == old(self).tasks,
            final(self).incumbent == old(self).incumbent,
            final(self).pending == old(self).pending,
            final(self).ready == old(self).ready,
            final(self).phase == old(self).phase,
            final(self).checkpoint == old(self).checkpoint,
            final(self).next_id == old(self).next_id,
    {
        match host_defined_data {
            Some(global) => self.insert_into_filo(job, global),
            None => (),
        }
    }

    /// Interrupt-queue hook: this bridge does not support engine-level
    /// interrupt scheduling, so pushing a new interrupt queue does nothing.
    pub fn push_new_interrupt_queue(&mut self)
        ensures
            *final(self) == *old(self),
    {
    }

    /// Interrupt-queue hook: popping an interrupt queue does nothing.
    pub fn pop_interrupt_queue(&mut self)
        ensures
            *final(self) == *old(self),
    {
    }

    /// Interrupt-queue hook: dropping the interrupt queues does nothing.
    pub fn drop_interrupt_queues(&mut self)
        ensures
            *final(self) == *old(self),
    {
    }
}

} // verus!
