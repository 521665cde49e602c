//! An event-loop bridge between a single-threaded, cooperatively scheduled
//! script engine and an external asynchronous task executor.
//!
//! The engine defers promise-reaction callbacks through a job-queue trap
//! interface; native asynchronous operations complete on executor threads and
//! must be marshalled back onto the engine thread before the corresponding
//! promise is resolved or rejected. This crate holds the bridge's state and
//! the decisions it makes: the incumbent context stack, the FIFO task queue,
//! the pending async registry, the resolution-slot policy, and the
//! non-reentrant checkpoint driver. The engine and executor themselves are
//! outside collaborators; a host shell performs their calls and feeds the
//! outcomes back in as plain events.

pub mod callback;
pub mod checkpoint;
pub mod incumbent_stack;
pub mod queue;
pub mod resolvable_promise;
pub mod state;
