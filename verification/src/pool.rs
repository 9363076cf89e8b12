//! The worker pool: construction-time validation, job submission, the
//! per-worker scheduling step, and the one-time disposal protocol.
//!
//! The pool owns the send side of the shared [`JobQueue`](crate::queue::JobQueue)
//! and a fixed set of [`Worker`] values, one per worker thread. Thread
//! spawning and joining are scheduling operations the verifier cannot see,
//! so they live with the embedding program; the contract between the two
//! sides is explicit:
//!
//! - construction hands out exactly one runner per worker, all wired to the
//!   same queue, through the one-time [`ThreadPool::take_runners`];
//! - each worker thread repeatedly calls the verified [`Worker::step`] until
//!   it reports [`WorkerEvent::Terminated`];
//! - disposal is the consuming [`ThreadPool::dispose`], which closes the
//!   queue exactly once — its contract demands the close witness for the
//!   pool's own queue — and returns the join order; the embedder then joins
//!   every worker thread in that order, blocking until each has finished
//!   its in-flight job and observed end-of-stream.

use vstd::prelude::*;

verus! {

use std::sync::Arc;
use crate::queue::CloseWitness;
use crate::queue::JobQueue;
use crate::queue::SendReceipt;
use crate::queue::TakeEvidence;
use crate::queue::TakeOutcome;

/// Why pool construction failed. The only documented failure is a
/// non-positive requested size, reported with a human-readable message.
#[derive(Debug)]
pub struct PoolCreationError {
    pub details: String,
}

impl PoolCreationError {
    /// Wraps a descriptive message into an error value.
    pub fn new(msg: &str) -> (e: PoolCreationError)
        ensures
            e.details@ == msg@,
    {
        PoolCreationError { details: msg.to_owned() }
    }
}

/// What one scheduling round of a worker observed. Each round asks the
/// queue for work exactly once and runs at most one job, to completion,
/// outside the queue's lock.
#[derive(Clone, Copy, Debug, PartialEq, Eq, Structural)]
pub enum WorkerEvent {
    /// A job was dequeued and ran to completion; the worker is idle again.
    Ran,
    /// The queue was empty but still open; the worker stays idle and should
    /// ask again.
    Idle,
    /// The queue was closed and drained: end-of-stream. The worker's loop
    /// is over and its thread may return.
    Terminated,
}

/// The worker's decision: what one take outcome means for the worker's
/// loop, with the job — when there is one — run to completion on the
/// calling thread, exactly once, before the event is reported. The
/// contract pins the mapping both ways: `Ran` exactly on a dequeued job
/// (whose postcondition is then known to hold, so the job really was
/// invoked), `Idle` exactly on an empty-but-open queue, and `Terminated`
/// exactly on end-of-stream.
pub fn run_taken<F: FnOnce()>(r: TakeOutcome<F>) -> (ev: WorkerEvent)
    requires
        r matches TakeOutcome::Job(f) ==> call_requires(f, ()),
    ensures
        r matches TakeOutcome::Job(f) ==> ev is Ran && call_ensures(f, (), ()),
        r is Empty <==> ev is Idle,
        r is Closed <==> ev is Terminated,
{
    match r {
        TakeOutcome::Job(job) => {
            job();
            WorkerEvent::Ran
        },
        TakeOutcome::Empty => WorkerEvent::Idle,
        TakeOutcome::Closed => WorkerEvent::Terminated,
    }
}

/// What one scheduling round of a worker came to: the event that tells
/// the worker's loop how to go on, together with the take's evidence —
/// which only a real take on a real queue yields — naming the queue the
/// round asked and the outcome the take reported. [`Worker::step`]'s
/// contract states the event over that evidence, so a step that answers
/// without asking its own queue, or whose event does not mirror what the
/// take reported, cannot verify.
#[verifier::reject_recursive_types(F)]
pub struct StepReceipt<F: FnOnce()> {
    /// What the round came to; see [`WorkerEvent`].
    pub event: WorkerEvent,
    evidence: TakeEvidence<F>,
}

impl<F: FnOnce()> StepReceipt<F> {
    /// The event, as the contracts see it.
    pub closed spec fn spec_event(&self) -> WorkerEvent {
        self.event
    }

    /// The queue this round asked for work.
    pub closed spec fn queue(&self) -> JobQueue<F> {
        self.evidence.queue()
    }

    /// What the take reported in this round.
    pub closed spec fn taken(&self) -> TakeOutcome<F> {
        self.evidence.outcome()
    }
}

/// One worker: a small integer id and a shared handle onto the single job
/// queue. The embedding program moves each worker into its own thread and
/// drives [`Worker::step`] in a loop until it reports
/// [`WorkerEvent::Terminated`].
#[verifier::reject_recursive_types(F)]
pub struct Worker<F: FnOnce()> {
    id: usize,
    queue: Arc<JobQueue<F>>,
}

impl<F: FnOnce() + Send + 'static> Worker<F> {
    /// The worker's id.
    pub closed spec fn spec_id(&self) -> usize {
        self.id
    }

    /// The queue this worker draws from.
    pub closed spec fn spec_queue(&self) -> JobQueue<F> {
        *self.queue
    }

    /// A worker is well formed when its queue is.
    pub open spec fn wf(&self) -> bool {
        self.spec_queue().wf()
    }

    /// Wires a new worker onto the shared queue.
    pub fn new(id: usize, queue: Arc<JobQueue<F>>) -> (w: Worker<F>)
        requires
            queue.wf(),
        ensures
            w.wf(),
            w.spec_id() == id,
            w.spec_queue() == *queue,
    {
        Worker { id, queue }
    }

    /// The worker's id, for diagnostics and for naming its thread.
    pub fn id(&self) -> (i: usize)
        ensures
            i == self.spec_id(),
    {
        self.id
    }

    /// One round of the worker loop: ask this worker's own queue for work
    /// once — the locked [`take_step`](crate::queue::take_step) — and
    /// hand the outcome to [`run_taken`], which runs a dequeued job to
    /// completion on the calling thread and maps the outcome onto the
    /// event. The job runs outside the queue's lock, so other workers
    /// dequeue and run concurrently.
    ///
    /// The contract pins the round to its evidence: the receipt names the
    /// worker's queue, and the event mirrors what the take reported —
    /// `Ran` exactly on a dequeued job, whose postcondition then holds
    /// (the job really was invoked), `Idle` exactly on an empty-but-open
    /// queue, and `Terminated` exactly on end-of-stream, so a worker
    /// cannot give up while the queue is open. Which of the three the
    /// shared queue held at that instant is the one thing a concurrent
    /// caller cannot know in advance.
    ///
    /// The event says how the caller's loop goes on: after
    /// [`Ran`](WorkerEvent::Ran) or [`Idle`](WorkerEvent::Idle) the worker
    /// asks again; after [`Terminated`](WorkerEvent::Terminated) the queue
    /// was closed and drained, and the loop is over.
    pub fn step(&self) -> (r: StepReceipt<F>)
        requires
            self.wf(),
        ensures
            r.queue() == self.spec_queue(),
            r.taken() matches TakeOutcome::Job(f) ==> r.spec_event() is Ran && call_ensures(
                f,
                (),
                (),
            ),
            r.taken() is Empty <==> r.spec_event() is Idle,
            r.taken() is Closed <==> r.spec_event() is Terminated,
    {
        let (outcome, evidence) = self.queue.try_take().open();
        let event = run_taken(outcome);
        StepReceipt { event, evidence }
    }
}

/// The fixed-size pool: the shared queue's send side, plus one runner per
/// worker until the embedding program takes them to spawn its threads.
#[verifier::reject_recursive_types(F)]
pub struct ThreadPool<F: FnOnce()> {
    size: usize,
    queue: Arc<JobQueue<F>>,
    runners: Option<Vec<Worker<F>>>,
}

impl<F: FnOnce() + Send + 'static> ThreadPool<F> {
    /// How many workers this pool was built with; fixed for its lifetime.
    pub closed spec fn spec_size(&self) -> usize {
        self.size
    }

    /// The single queue every worker shares.
    pub closed spec fn spec_queue(&self) -> JobQueue<F> {
        *self.queue
    }

    /// Whether the runners are still with the pool, waiting to be taken.
    pub closed spec fn runners_present(&self) -> bool {
        self.runners is Some
    }

    /// A well-formed pool has a positive, fixed size, a well-formed queue,
    /// and, while the runners are still with the pool, exactly one runner
    /// per worker, numbered 0, 1, ... in creation order and all wired to
    /// the pool's own queue.
    pub closed spec fn wf(&self) -> bool {
        &&& self.size > 0
        &&& self.queue.wf()
        &&& self.runners matches Some(rs) ==> {
            &&& rs.len() == self.size
            &&& forall|i: int|
                0 <= i < rs.len() ==> (#[trigger] rs[i]).spec_id() == i && rs[i].spec_queue()
                    == *self.queue
        }
    }

    /// Validates the requested size and builds the pool: one fresh, open,
    /// empty queue and exactly `size` workers wired to it. No worker
    /// threads exist yet — none are spawned on the failure path, and on the
    /// success path the embedding program spawns one thread per runner it
    /// takes.
    ///
    /// Succeeds exactly when `size > 0`; otherwise reports the documented
    /// configuration error.
    pub fn new(size: usize) -> (r: Result<ThreadPool<F>, PoolCreationError>)
        ensures
            r is Ok <==> size > 0,
            r matches Ok(p) ==> {
                &&& p.wf()
                &&& p.spec_size() == size
                &&& p.runners_present()
            },
            r matches Err(e) ==> e.details@ == "Pool size must be greater than 0"@,
    {
        if size > 0 {
            let queue = Arc::new(JobQueue::<F>::new());
            let mut runners: Vec<Worker<F>> = Vec::new();
            for id in 0..size
                invariant
                    queue.wf(),
                    runners.len() == id,
                    forall|i: int|
                        0 <= i < runners.len() ==> (#[trigger] runners[i]).spec_id() == i
                            && runners[i].spec_queue() == *queue,
            {
                runners.push(Worker::new(id, Arc::clone(&queue)));
            }
            Ok(ThreadPool { size, queue, runners: Some(runners) })
        } else {
            Err(PoolCreationError::new("Pool size must be greater than 0"))
        }
    }

    /// The pool's worker count.
    pub fn worker_count(&self) -> (n: usize)
        ensures
            n == self.spec_size(),
    {
        self.size
    }

    /// Hands the runners out, once: the first call returns all of them, in
    /// creation order; every later call returns `None`. The embedding
    /// program moves each runner into a thread of its own. Consuming the
    /// slot makes a second set of worker threads impossible to wire up by
    /// construction.
    pub fn take_runners(&mut self) -> (r: Option<Vec<Worker<F>>>)
        requires
            old(self).wf(),
        ensures
            final(self).wf(),
            final(self).spec_size() == old(self).spec_size(),
            final(self).spec_queue() == old(self).spec_queue(),
            !final(self).runners_present(),
            old(self).runners_present() <==> r is Some,
            r matches Some(rs) ==> {
                &&& rs.len() == old(self).spec_size()
                &&& forall|i: int|
                    0 <= i < rs.len() ==> (#[trigger] rs[i]).spec_id() == i && rs[i].spec_queue()
                        == old(self).spec_queue()
            },
    {
        self.runners.take()
    }

    /// A fresh handle onto the pool's queue, for a consumer the embedding
    /// program wires up itself.
    pub fn queue_handle(&self) -> (q: Arc<JobQueue<F>>)
        requires
            self.wf(),
        ensures
            *q == self.spec_queue(),
            q.wf(),
    {
        Arc::clone(&self.queue)
    }

    /// Submits one job for asynchronous execution by whichever worker
    /// becomes available first. Fire and forget: the call enqueues and
    /// returns without waiting for completion or reporting a result. The
    /// body only forwards to [`JobQueue::send`], whose locked body applies
    /// exactly [`send_step`](crate::queue::send_step): appended at the
    /// back of the pool's queue if and only if it was open, nothing else
    /// touched; the job is never run on the caller's thread. The contract
    /// demands the send receipt for the pool's own queue and this very
    /// job, which only that send can produce.
    ///
    /// The receipt's `accepted` is `true` when the job was enqueued.
    /// `false` would mean the queue had already been closed: the pool
    /// itself closes it only in the consuming [`ThreadPool::dispose`],
    /// which no holder of the pool can have called — but a separately
    /// obtained [`ThreadPool::queue_handle`] can also close it, so an
    /// embedding that hands the queue around must treat a refusal as the
    /// lifecycle violation it is.
    pub fn execute(&self, f: F) -> (r: SendReceipt<F>)
        requires
            self.wf(),
            call_requires(f, ()),
        ensures
            r.queue() == self.spec_queue(),
            r.job() == f,
    {
        self.queue.send(f)
    }

    /// Disposes of the pool: relinquishes the send side by consuming the
    /// pool — so no further `execute` is possible and no double disposal
    /// can be written — and closes the queue, exactly once, before
    /// anything else: the first thing the body does is [`JobQueue::close`],
    /// whose locked body applies exactly
    /// [`close_step`](crate::queue::close_step), keeping every queued job.
    /// Every worker therefore drains the jobs still queued and only then
    /// observes end-of-stream.
    ///
    /// Returns the disposal plan: the close witness for the pool's own
    /// queue — the contract demands it, so a disposal that skips the
    /// close cannot verify — and the worker ids in creation order: the
    /// order in which the embedding program joins the worker threads,
    /// blocking until each has finished its in-flight job and exited its
    /// loop.
    pub fn dispose(self) -> (plan: DisposalPlan<F>)
        requires
            self.wf(),
        ensures
            plan.closed.queue() == self.spec_queue(),
            plan.join_order.len() == self.spec_size(),
            forall|i: int| 0 <= i < plan.join_order.len() ==> plan.join_order[i] == i,
    {
        let closed = self.queue.close();
        let mut join_order: Vec<usize> = Vec::new();
        for id in 0..self.size
            invariant
                join_order.len() == id,
                forall|i: int| 0 <= i < join_order.len() ==> join_order[i] == i,
        {
            join_order.push(id);
        }
        DisposalPlan { closed, join_order }
    }
}

/// What a completed [`ThreadPool::dispose`] hands the embedding program:
/// proof that the pool's queue was closed, and the order in which to join
/// the worker threads.
#[verifier::reject_recursive_types(F)]
pub struct DisposalPlan<F: FnOnce()> {
    /// The close witness for the pool's queue: disposal has closed it, so
    /// every worker reaches end-of-stream once the queue drains.
    pub closed: CloseWitness<F>,
    /// The worker ids in creation order, each to be joined once.
    pub join_order: Vec<usize>,
}

} // verus!
