//! The checkpoint driver: the non-reentrant loop that alternates draining the
//! FIFO task queue and settling completed async operations until both the
//! queue and the pending registry are empty.
//!
//! The engine's callbacks, the executor's poll pass, and the promise
//! settlement are outside work; the host shell performs them. The driver is
//! therefore a verified transition function: the shell hands in what happened
//! (a [`CheckpointEvent`]) and is told what to do next (a
//! [`CheckpointAction`]). One pass is the exchange
//! `Enter, (RunTask… TaskDone)*, Poll, Polled, (Settle… Settled)*, … , Exit`.

use vstd::prelude::*;

use crate::queue::Task;
use crate::state::{Runtime, RuntimeView};

verus! {

/// Where the checkpoint driver stands within a pass.
#[derive(Clone, Copy, PartialEq, Eq, Structural, Debug)]
pub enum Phase {
    /// No pass is running.
    Idle,
    /// A task was handed out and its callback is running in the engine.
    RunningTask,
    /// One non-blocking poll pass of the pending set was requested.
    Polling,
    /// A collected completion was handed out to be settled.
    Settling,
}

/// What the host shell reports to the driver.
#[derive(Debug)]
pub enum CheckpointEvent {
    /// The drain entry point was invoked (the engine's request to run jobs,
    /// or the top-level drive).
    Enter,
    /// The handed-out task's callback has returned.
    TaskDone,
    /// One non-blocking poll pass finished; these request ids became ready,
    /// in the order the poll set yielded them.
    Polled(Vec<u64>),
    /// The handed-out completion was settled and its promise resolved or
    /// rejected.
    Settled,
}

/// What the driver asks the host shell to do next.
#[derive(Clone, Copy, PartialEq, Eq, Structural, Debug)]
pub enum CheckpointAction {
    /// Nothing: the event was absorbed (a reentrant entry, or an event that
    /// does not belong to the current phase).
    NoOp,
    /// Invoke the callable of this entry.
    RunTask(Task),
    /// Poll the pending set once, without blocking, and report what is ready.
    Poll,
    /// Settle this completed request id and resolve or reject its promise.
    Settle(u64),
    /// Both the task queue and the pending registry are empty: the pass is
    /// over and the reentrancy flag is down again.
    Exit,
}

/// Step 1 of a pass: hand out the next queued task, in strict FIFO order;
/// once the queue is drained, ask for one poll pass.
pub open spec fn spec_drain_step(v: RuntimeView) -> (RuntimeView, CheckpointAction) {
    if v.tasks.len() > 0 {
        (
            (RuntimeView { tasks: v.tasks.drop_first(), phase: Phase::RunningTask, ..v }),
            CheckpointAction::RunTask(v.tasks.first()),
        )
    } else {
        ((RuntimeView { phase: Phase::Polling, ..v }), CheckpointAction::Poll)
    }
}

/// Steps 3 and 4 of a pass: hand out the collected completions one by one, in
/// the order the poll pass discovered them; then, if nothing at all is left,
/// end the pass, and otherwise go round again from the queue.
pub open spec fn spec_settle_step(v: RuntimeView) -> (RuntimeView, CheckpointAction) {
    if v.ready.len() > 0 {
        (
            (RuntimeView { ready: v.ready.drop_first(), phase: Phase::Settling, ..v }),
            CheckpointAction::Settle(v.ready.first()),
        )
    } else if v.quiescent() {
        (
            (RuntimeView { phase: Phase::Idle, checkpoint: false, ..v }),
            CheckpointAction::Exit,
        )
    } else {
        spec_drain_step(v)
    }
}

/// The tasks the drain step hands out, taken again and again until the queue
/// is empty and the step asks for a poll pass instead.
pub open spec fn spec_drained_tasks(v: RuntimeView) -> Seq<Task>
    decreases v.tasks.len(),
{
    if v.tasks.len() > 0 {
        seq![v.tasks.first()] + spec_drained_tasks(spec_drain_step(v).0)
    } else {
        Seq::empty()
    }
}

/// FIFO law: the queue-draining step of a pass hands the tasks out in exactly
/// their enqueue order — the whole queue, first to last, nothing twice.
/// Settling async completions never touches the task queue, so interleaved
/// completions cannot disturb this order.
pub proof fn lemma_drain_fifo(v: RuntimeView)
    ensures
        spec_drained_tasks(v) =~= v.tasks,
    decreases v.tasks.len(),
{
    if v.tasks.len() > 0 {
        lemma_drain_fifo(spec_drain_step(v).0);
        assert(seq![v.tasks.first()] + v.tasks.drop_first() =~= v.tasks);
    }
}

/// Quiescence law: a pass ends exactly when no collected completion is
/// waiting, no task is queued, and no async operation is pending; the exit
/// lowers the reentrancy flag and touches nothing else.
pub proof fn lemma_exit_only_when_quiescent(v: RuntimeView)
    ensures
        spec_settle_step(v).1 is Exit <==> (v.ready.len() == 0 && v.quiescent()),
        spec_settle_step(v).1 is Exit ==> spec_settle_step(v).0 == (RuntimeView {
            phase: Phase::Idle,
            checkpoint: false,
            ..v
        }),
{
}

impl Runtime {
    /// Raises or lowers the checkpoint reentrancy flag.
    pub fn set_checkpoint(&mut self, b: bool)
        ensures
            final(self).checkpoint == b,
            final(self).incumbent == old(self).incumbent,
            final(self).tasks == old(self).tasks,
            final(self).pending == old(self).pending,
            final(self).ready == old(self).ready,
            final(self).phase == old(self).phase,
            final(self).next_id == old(self).next_id,
    {
        self.checkpoint = b;
    }

    /// Whether a checkpoint pass is running.
    pub fn get_checkpoint(&self) -> (r: bool)
        ensures
            r == self.checkpoint,
    {
        self.checkpoint
    }

    /// Quiescence: true iff both the FIFO task queue and the pending async
    /// registry are empty.
    pub fn is_empty(&self) -> (r: bool)
        ensures
            r <==> self@.quiescent(),
    {
        let no_futures = self.futures_empty();
        let no_tasks = self.filo_empty();
        no_futures && no_tasks
    }

    /// Takes the next drain action after the queue-draining step.
    fn drain_step(&mut self) -> (act: CheckpointAction)
        requires
            old(self).wf(),
        ensures
            final(self).wf(),
            (final(self)@, act) == spec_drain_step(old(self)@),
    {
        match self.remove_from_filo() {
            Some(task) => {
                self.phase = Phase::RunningTask;
                CheckpointAction::RunTask(task)
            },
            None => {
                self.phase = Phase::Polling;
                CheckpointAction::Poll
            },
        }
    }

    /// Takes the next settle action after a poll pass.
    fn settle_step(&mut self) -> (act: CheckpointAction)
        requires
            old(self).wf(),
        ensures
            final(self).wf(),
            (final(self)@, act) == spec_settle_step(old(self)@),
    {
        if self.ready.len() > 0 {
            let id = self.ready.remove(0);
            self.phase = Phase::Settling;
            proof {
                assert(self.ready@ =~= old(self).ready@.drop_first());
            }
            CheckpointAction::Settle(id)
        } else {
            let quiet = self.is_empty();
            if quiet {
                self.phase = Phase::Idle;
                self.checkpoint = false;
                CheckpointAction::Exit
            } else {
                self.drain_step()
            }
        }
    }

    /// The checkpoint driver's transition function.
    ///
    /// `Enter` while a pass is already running is absorbed: nothing changes
    /// and nothing is processed twice — the outer pass's loop will see and
    /// drain whatever new work appears. Otherwise the pass alternates: drain
    /// the task queue in FIFO order, poll the pending set once, settle each
    /// collected completion in discovery order, and end only when both the
    /// queue and the registry are empty. An event that does not belong to the
    /// current phase is absorbed unchanged.
    pub fn runtime_checkpoint(&mut self, ev: CheckpointEvent) -> (act: CheckpointAction)
        requires
            old(self).wf(),
        ensures
            final(self).wf(),
            ev is Enter ==> (if old(self).checkpoint {
                *final(self) == *old(self) && act is NoOp
            } else {
                (final(self)@, act) == spec_drain_step(
                    (RuntimeView { checkpoint: true, ..old(self)@ }),
                )
            }),
            ev is TaskDone ==> (if old(self).phase == Phase::RunningTask {
                (final(self)@, act) == spec_drain_step(old(self)@)
            } else {
                *final(self) == *old(self) && act is NoOp
            }),
            ev matches CheckpointEvent::Polled(ids) ==> (if old(self).phase == Phase::Polling {
                (final(self)@, act) == spec_settle_step(
                    (RuntimeView { ready: ids@, ..old(self)@ }),
                )
            } else {
                *final(self) == *old(self) && act is NoOp
            }),
            ev is Settled ==> (if old(self).phase == Phase::Settling {
                (final(self)@, act) == spec_settle_step(old(self)@)
            } else {
                *final(self) == *old(self) && act is NoOp
            }),
    {
        match ev {
            CheckpointEvent::Enter => {
                if self.get_checkpoint() {
                    CheckpointAction::NoOp
                } else {
                    self.set_checkpoint(true);
                    self.drain_step()
                }
            },
            CheckpointEvent::TaskDone => {
                if self.phase == Phase::RunningTask {
                    self.drain_step()
                } else {
                    CheckpointAction::NoOp
                }
            },
            CheckpointEvent::Polled(ids) => {
                if self.phase == Phase::Polling {
                    self.ready = ids;
                    self.settle_step()
                } else {
                    CheckpointAction::NoOp
                }
            },
            CheckpointEvent::Settled => {
                if self.phase == Phase::Settling {
                    self.settle_step()
                } else {
                    CheckpointAction::NoOp
                }
            },
        }
    }
}

} // verus!
