//! The bridge against the real executor: pending operations are tokio timer
//! tasks collected through a `FuturesUnordered` poll set, exactly one
//! non-blocking pass per checkpoint iteration.

use std::future::Future;
use std::pin::Pin;
use std::task::Poll;

use futures_util::stream::{FuturesUnordered, Stream};

use job_bridge::checkpoint::{CheckpointAction, CheckpointEvent};
use job_bridge::resolvable_promise::Slots;
use job_bridge::state::{ContextRef, PromiseRef, Runtime};

type PendingSet = FuturesUnordered<Pin<Box<dyn Future<Output = (u64, u64)> + Send>>>;

/// One non-blocking pass over the poll set: collects every future that is
/// ready right now, in the order the set yields them, and returns as soon as
/// the set reports `Pending`.
fn poll_pass(handle: &tokio::runtime::Handle, pool: &mut PendingSet) -> Vec<u64> {
    let mut ready: Vec<u64> = Vec::new();
    handle.block_on(std::future::poll_fn(|cx| {
        loop {
            if pool.is_empty() {
                return Poll::Ready(());
            }
            match Pin::new(&mut *pool).poll_next(cx) {
                Poll::Pending => return Poll::Ready(()),
                Poll::Ready(None) => return Poll::Ready(()),
                Poll::Ready(Some((id, _ms))) => {
                    ready.push(id);
                }
            }
        }
    }));
    ready
}

#[test]
fn out_of_order_completion_with_real_timers() {
    let tokio_rt = tokio::runtime::Runtime::new().unwrap();
    let handle = tokio_rt.handle().clone();
    let _guard = tokio_rt.enter();

    let mut rt = Runtime::new();
    let mut pool: PendingSet = FuturesUnordered::new();

    // Register three operations with completion delays 100ms, 10ms, 50ms.
    let delays: [u64; 3] = [100, 10, 50];
    let mut ids: Vec<u64> = Vec::new();
    for ms in delays {
        let id = rt.why_is_promise_id_segfaulting();
        rt.push_internal_promise(id, PromiseRef { id: 1000 + id }, ContextRef { id: 1 });
        let work = tokio::task::spawn(async move {
            tokio::time::sleep(std::time::Duration::from_millis(ms)).await;
            ms
        });
        pool.push(Box::pin(async move { (id, work.await.unwrap()) }));
        ids.push(id);
    }
    assert!(!rt.is_empty());

    let mut settled: Vec<u64> = Vec::new();
    let mut act = rt.runtime_checkpoint(CheckpointEvent::Enter);
    loop {
        match act {
            CheckpointAction::RunTask(_t) => {
                act = rt.runtime_checkpoint(CheckpointEvent::TaskDone);
            }
            CheckpointAction::Poll => {
                let batch = poll_pass(&handle, &mut pool);
                if batch.is_empty() && !pool.is_empty() {
                    // Nothing ready yet: give the timers a moment before the
                    // next pass rather than spinning hot.
                    handle.block_on(tokio::time::sleep(std::time::Duration::from_millis(2)));
                }
                act = rt.runtime_checkpoint(CheckpointEvent::Polled(batch));
            }
            CheckpointAction::Settle(id) => {
                let r = rt.setup_to_resolve(id, |_g, _p| Slots {
                    success: Some(id),
                    failure: None,
                });
                assert!(r.is_some());
                settled.push(id);
                act = rt.runtime_checkpoint(CheckpointEvent::Settled);
            }
            CheckpointAction::Exit => break,
            CheckpointAction::NoOp => panic!("the driver absorbed a well-sequenced event"),
        }
    }

    // Ready order follows the delays — 10ms, 50ms, 100ms — not the
    // registration order.
    assert_eq!(settled, vec![ids[1], ids[2], ids[0]]);
    assert!(rt.is_empty());
    assert!(!rt.get_checkpoint());
}
