//! A fixed-size worker thread pool: a bounded set of persistent workers
//! draining an unbounded, closeable job queue, with a deterministic,
//! leak-free shutdown protocol.
//!
//! The crate verifies the parts of such a pool that are pure logic: the
//! shared queue — its state transitions stated exactly as contracts on
//! plain state, its open/close lifecycle, and its no-loss/no-duplication
//! invariant under the lock — the per-worker scheduling step, the
//! construction-time validation, and the disposal protocol, together with
//! a ghost model of the whole lifecycle that the executable transitions
//! are proved to refine. Spawning, parking and joining of OS threads is
//! scheduling work the verifier cannot see; an embedding program drives
//! those edges, looping over the verified worker step and following the
//! verified disposal plan.
//!
//! Because the queue is shared read-wise across worker threads (an
//! `Arc` around a reader-writer lock), an embedding that spawns threads
//! needs its job type to be `Sync` on top of the usual `Send`; a job that
//! captures only `Send + Sync` state (or is a boxed
//! `dyn FnOnce() + Send + Sync` closure) satisfies it.

pub mod content;
pub mod model;
pub mod pool;
pub mod queue;
pub mod transitions;
