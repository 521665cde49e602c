//! Scenario tests for the bridge: the checkpoint driver, the FIFO queue, the
//! incumbent stack, the pending registry, and the resolution policy.

use job_bridge::checkpoint::{CheckpointAction, CheckpointEvent};
use job_bridge::queue::Task;
use job_bridge::resolvable_promise::{Resolution, Slots};
use job_bridge::state::{CallbackRef, ContextRef, PromiseRef, Runtime};

fn ctx(id: u64) -> ContextRef {
    ContextRef { id }
}

fn cb(id: u64) -> CallbackRef {
    CallbackRef { id }
}

/// Drives one whole checkpoint pass with no real engine or executor: each
/// handed-out task is acknowledged, each poll pass yields the next batch from
/// `polls`, each settle runs a marshaller that succeeds with the request id.
/// Returns (tasks run, ids settled) in the order they were handed out.
fn drive(rt: &mut Runtime, mut polls: Vec<Vec<u64>>) -> (Vec<Task>, Vec<u64>) {
    let mut ran: Vec<Task> = Vec::new();
    let mut settled: Vec<u64> = Vec::new();
    let mut act = rt.runtime_checkpoint(CheckpointEvent::Enter);
    loop {
        match act {
            CheckpointAction::RunTask(t) => {
                t.call(rt, |_g, _j| ());
                ran.push(t);
                act = rt.runtime_checkpoint(CheckpointEvent::TaskDone);
            }
            CheckpointAction::Poll => {
                let batch = if polls.is_empty() { Vec::new() } else { polls.remove(0) };
                act = rt.runtime_checkpoint(CheckpointEvent::Polled(batch));
            }
            CheckpointAction::Settle(id) => {
                let r = rt.setup_to_resolve(id, |_g, _p| Slots {
                    success: Some(id),
                    failure: None,
                });
                assert!(r.is_some(), "settling an unregistered id is an invariant violation");
                settled.push(id);
                act = rt.runtime_checkpoint(CheckpointEvent::Settled);
            }
            CheckpointAction::Exit => break,
            CheckpointAction::NoOp => panic!("the driver absorbed a well-sequenced event"),
        }
    }
    (ran, settled)
}

#[test]
fn fifo_order_is_enqueue_order() {
    let mut rt = Runtime::new();
    for i in 0..5u64 {
        rt.enqueue_promise_job(cb(i), Some(ctx(100 + i)));
    }
    let (ran, settled) = drive(&mut rt, vec![]);
    assert_eq!(ran.len(), 5);
    for i in 0..5u64 {
        assert_eq!(ran[i as usize], Task { job: cb(i), global: ctx(100 + i) });
    }
    assert_eq!(settled, Vec::<u64>::new());
    assert!(rt.is_empty());
}

#[test]
fn fifo_order_survives_interleaved_completions() {
    let mut rt = Runtime::new();
    for i in 0..3u64 {
        rt.enqueue_promise_job(cb(i), Some(ctx(7)));
    }
    let id_a = rt.why_is_promise_id_segfaulting();
    let id_b = rt.why_is_promise_id_segfaulting();
    rt.push_internal_promise(id_a, PromiseRef { id: 50 }, ctx(7));
    rt.push_internal_promise(id_b, PromiseRef { id: 51 }, ctx(7));
    // The first poll pass reports both completions; tasks still drain first,
    // in enqueue order.
    let (ran, settled) = drive(&mut rt, vec![vec![id_b, id_a]]);
    let jobs: Vec<u64> = ran.iter().map(|t| t.job.id).collect();
    assert_eq!(jobs, vec![0, 1, 2]);
    assert_eq!(settled, vec![id_b, id_a]);
    assert!(rt.is_empty());
}

#[test]
fn reentrant_drain_is_a_noop() {
    let mut rt = Runtime::new();
    rt.enqueue_promise_job(cb(1), Some(ctx(2)));
    let first = rt.runtime_checkpoint(CheckpointEvent::Enter);
    assert_eq!(first, CheckpointAction::RunTask(Task { job: cb(1), global: ctx(2) }));
    // Entering again from within the running pass changes nothing.
    assert_eq!(rt.runtime_checkpoint(CheckpointEvent::Enter), CheckpointAction::NoOp);
    assert!(rt.get_checkpoint());
    // The task is not handed out a second time: the pass goes on to polling.
    assert_eq!(rt.runtime_checkpoint(CheckpointEvent::TaskDone), CheckpointAction::Poll);
    assert_eq!(
        rt.runtime_checkpoint(CheckpointEvent::Polled(Vec::new())),
        CheckpointAction::Exit
    );
    assert!(!rt.get_checkpoint());
}

#[test]
fn at_most_once_resolution() {
    let mut rt = Runtime::new();
    let id = rt.why_is_promise_id_segfaulting();
    rt.push_internal_promise(id, PromiseRef { id: 9 }, ctx(4));
    let first = rt.setup_to_resolve(id, |_g, _p| Slots { success: Some(1), failure: None });
    assert!(first.is_some());
    // The id left the registry with its one settlement; a second attempt
    // finds nothing and must not touch any other promise.
    let second = rt.setup_to_resolve(id, |_g, _p| Slots { success: Some(2), failure: None });
    assert!(second.is_none());
    assert!(rt.futures_empty());
}

#[test]
fn exclusive_slot_policy() {
    // A defined failure slot rejects, even over a pre-populated success
    // sentinel.
    assert_eq!(
        job_bridge::resolvable_promise::decide_resolution(Slots {
            success: Some(777),
            failure: Some(13),
        }),
        Resolution::Reject(13)
    );
    // Only the success slot set: resolve with it.
    assert_eq!(
        job_bridge::resolvable_promise::decide_resolution(Slots {
            success: Some(5),
            failure: None,
        }),
        Resolution::Resolve(Some(5))
    );
    // Neither slot set: resolving with no value is valid.
    assert_eq!(
        job_bridge::resolvable_promise::decide_resolution(Slots { success: None, failure: None }),
        Resolution::Resolve(None)
    );
}

#[test]
fn rejection_reaches_the_caller() {
    let mut rt = Runtime::new();
    let id = rt.why_is_promise_id_segfaulting();
    rt.push_internal_promise(id, PromiseRef { id: 30 }, ctx(6));
    let r = rt.setup_to_resolve(id, |_g, _p| Slots { success: Some(111), failure: Some(222) });
    let (global, promise, resolution) = r.unwrap();
    assert_eq!(global, ctx(6));
    assert_eq!(promise, PromiseRef { id: 30 });
    assert_eq!(resolution, Resolution::Reject(222));
}

#[test]
fn context_restoration_after_task() {
    let mut rt = Runtime::new();
    rt.push_incumbent_stack(ctx(1));
    assert_eq!(rt.peek_incumbent_stack(), Some(ctx(1)));
    let task = Task { job: cb(10), global: ctx(2) };
    task.call(&mut rt, |g, j| {
        assert_eq!(g, ctx(2));
        assert_eq!(j, cb(10));
    });
    // Whatever was on top before the task ran is on top again.
    assert_eq!(rt.peek_incumbent_stack(), Some(ctx(1)));
    assert_eq!(rt.pop_incumbent_stack(), Some(ctx(1)));
    assert_eq!(rt.pop_incumbent_stack(), None);
}

#[test]
fn incumbent_nesting_is_strict() {
    let mut rt = Runtime::new();
    rt.push_incumbent_stack(ctx(1));
    rt.push_incumbent_stack(ctx(2));
    assert_eq!(rt.peek_incumbent_stack(), Some(ctx(2)));
    assert_eq!(rt.pop_incumbent_stack(), Some(ctx(2)));
    assert_eq!(rt.peek_incumbent_stack(), Some(ctx(1)));
    let observed = rt.enter_incumbent_stack(ctx(3), |g| g.id + 1);
    assert_eq!(observed, 4);
    assert_eq!(rt.peek_incumbent_stack(), Some(ctx(1)));
}

#[test]
fn out_of_order_completion_in_discovery_order() {
    let mut rt = Runtime::new();
    let id1 = rt.why_is_promise_id_segfaulting();
    let id2 = rt.why_is_promise_id_segfaulting();
    let id3 = rt.why_is_promise_id_segfaulting();
    rt.push_internal_promise(id1, PromiseRef { id: 71 }, ctx(1));
    rt.push_internal_promise(id2, PromiseRef { id: 72 }, ctx(2));
    rt.push_internal_promise(id3, PromiseRef { id: 73 }, ctx(3));
    // Simulated completion delays 100ms, 10ms, 50ms: the poll set reports
    // readiness as id2, id3, id1, and settling follows that discovery order,
    // not registration order.
    let (_ran, settled) = drive(&mut rt, vec![vec![id2, id3, id1]]);
    assert_eq!(settled, vec![id2, id3, id1]);
    assert!(rt.is_empty());
}

#[test]
fn quiescence_means_immediate_exit() {
    let mut rt = Runtime::new();
    assert!(rt.is_empty());
    assert!(rt.filo_empty());
    assert!(rt.futures_empty());
    let (ran, settled) = drive(&mut rt, vec![]);
    assert!(ran.is_empty());
    assert!(settled.is_empty());
    assert!(rt.is_empty());
    assert!(!rt.get_checkpoint());
    assert_eq!(rt.peek_incumbent_stack(), None);
}

#[test]
fn idle_fallback_for_host_defined_data() {
    let mut rt = Runtime::new();
    // Empty stack and no active global: an explicit "no context" failure.
    assert_eq!(rt.get_host_defined_data(None), None);
    // Empty stack but an active global: fall back to it.
    assert_eq!(rt.get_host_defined_data(Some(ctx(8))), Some(ctx(8)));
    // A non-empty stack answers with its top, fallback or not.
    rt.push_incumbent_stack(ctx(9));
    assert_eq!(rt.get_host_defined_data(Some(ctx(8))), Some(ctx(9)));
    assert_eq!(rt.get_host_defined_data(None), Some(ctx(9)));
}

#[test]
fn enqueue_without_host_data_drops_the_job() {
    let mut rt = Runtime::new();
    rt.enqueue_promise_job(cb(1), None);
    assert!(rt.filo_empty());
    rt.enqueue_promise_job(cb(1), Some(ctx(1)));
    assert!(!rt.filo_empty());
}

#[test]
fn re_registering_an_id_replaces_its_entry() {
    let mut rt = Runtime::new();
    let id = rt.why_is_promise_id_segfaulting();
    rt.push_internal_promise(id, PromiseRef { id: 1 }, ctx(1));
    rt.push_internal_promise(id, PromiseRef { id: 2 }, ctx(2));
    // One entry per id: the later registration shadows the earlier one.
    let r = rt.setup_to_resolve(id, |_g, _p| Slots { success: None, failure: None });
    let (g, p, _) = r.unwrap();
    assert_eq!((g, p), (ctx(2), PromiseRef { id: 2 }));
    assert!(rt.futures_empty());
}

#[test]
fn register_async_hands_out_fresh_ids() {
    let mut rt = Runtime::new();
    let a = rt.register_async(PromiseRef { id: 10 }, ctx(1));
    let b = rt.register_async(PromiseRef { id: 11 }, ctx(2));
    assert_ne!(a, b);
    assert!(!rt.futures_empty());
    // Both entries are present and untouched by one another.
    let ra = rt.setup_to_resolve(a, |_g, _p| Slots { success: Some(1), failure: None });
    let rb = rt.setup_to_resolve(b, |_g, _p| Slots { success: Some(2), failure: None });
    let (ga, pa, _) = ra.unwrap();
    let (gb, pb, _) = rb.unwrap();
    assert_eq!((ga, pa), (ctx(1), PromiseRef { id: 10 }));
    assert_eq!((gb, pb), (ctx(2), PromiseRef { id: 11 }));
    assert!(rt.futures_empty());
}

#[test]
fn request_ids_increase_and_are_not_reused() {
    let mut rt = Runtime::new();
    let a = rt.why_is_promise_id_segfaulting();
    let b = rt.why_is_promise_id_segfaulting();
    let c = rt.why_is_promise_id_segfaulting();
    assert_eq!(a, 0);
    assert_eq!(b, 1);
    assert_eq!(c, 2);
}

#[test]
fn interrupt_queue_hooks_do_nothing() {
    let mut rt = Runtime::new();
    rt.enqueue_promise_job(cb(1), Some(ctx(1)));
    rt.push_new_interrupt_queue();
    rt.pop_interrupt_queue();
    rt.drop_interrupt_queues();
    assert!(!rt.filo_empty());
    assert!(rt.futures_empty());
    assert!(!rt.get_checkpoint());
}

#[test]
fn settling_an_unregistered_id_is_reported() {
    let mut rt = Runtime::new();
    let r = rt.setup_to_resolve(41, |_g, _p| Slots { success: None, failure: None });
    assert!(r.is_none());
}
