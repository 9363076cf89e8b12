//! The job queue: an unbounded, closeable, multi-producer/multi-consumer
//! channel of one-shot jobs, built on the verified reader-writer lock from
//! `vstd`.
//!
//! The queue has two states. While *open* it accepts sends and hands jobs out
//! in arrival order. Once *closed* (a one-time, idempotent transition) no
//! further sends are accepted; consumers keep draining the remaining jobs
//! and only then observe end-of-stream, so a job that was accepted before
//! closing is never dropped.
//!
//! Each locked operation acquires the shared lock and applies exactly one
//! of the transitions of the [`transitions`](crate::transitions) module,
//! whose contracts say exactly what happens to the state. What a
//! concurrent caller can conclude from a single locked call is limited,
//! since other parties may run between any two calls; what each operation
//! *can* promise it does, through a receipt: a value whose evidence
//! fields can be built nowhere outside this module, naming the queue the
//! operation ran on (and, for a send, the job it handed over). This
//! module therefore holds nothing but the five locked operations, each
//! minting its own receipt in the line after its transition: a body here
//! that skipped the transition and still produced the receipt would be
//! visible at a glance, and outside this module the receipts cannot be
//! produced at all.

use vstd::prelude::*;

pub use crate::transitions::close_step;
pub use crate::transitions::initial_state;
pub use crate::transitions::queue_state_inv;
pub use crate::transitions::send_step;
pub use crate::transitions::take_step;
pub use crate::transitions::QueueState;
pub use crate::transitions::TakeOutcome;

verus! {

use vstd::rwlock::RwLock;
use vstd::rwlock::RwLockPredicate;

/// What a send came to: whether the queue accepted the job, together with
/// evidence of the send itself. The evidence fields can only be filled in
/// by [`JobQueue::send`], which records the queue it ran on and the job
/// it handed over — so a function that promises a receipt for its own
/// queue and job can meet that promise only by sending that job on that
/// queue.
#[verifier::reject_recursive_types(F)]
pub struct SendReceipt<F: FnOnce()> {
    /// Whether the job was accepted: it was, if and only if the queue was
    /// open at the instant of the send. On refusal the job is dropped
    /// without running; the queue can only have been closed beforehand by
    /// pool disposal — which consumes the pool — or by a holder of a
    /// separately obtained queue handle.
    pub accepted: bool,
    queue: Ghost<JobQueue<F>>,
    job: Ghost<F>,
}

impl<F: FnOnce()> SendReceipt<F> {
    /// The queue the send ran on.
    pub closed spec fn queue(&self) -> JobQueue<F> {
        self.queue@
    }

    /// The job the send handed over.
    pub closed spec fn job(&self) -> F {
        self.job@
    }
}

/// What a take came to: the outcome itself, together with evidence naming
/// the queue it was taken from. The evidence field can only be filled in
/// by [`JobQueue::try_take`].
#[verifier::reject_recursive_types(F)]
pub struct TakeReceipt<F: FnOnce()> {
    /// The outcome: the front job, or `Empty` while the queue is open, or
    /// `Closed` for end-of-stream.
    pub outcome: TakeOutcome<F>,
    queue: Ghost<JobQueue<F>>,
}

impl<F: FnOnce()> TakeReceipt<F> {
    /// The queue the take ran on.
    pub closed spec fn queue(&self) -> JobQueue<F> {
        self.queue@
    }

    /// The outcome, as the contracts see it.
    pub closed spec fn spec_outcome(&self) -> TakeOutcome<F> {
        self.outcome
    }

    /// Splits the receipt into the outcome, to be acted on, and the
    /// evidence, to be kept: the evidence records the same queue and the
    /// same outcome, and — like the receipt itself — can be built nowhere
    /// outside this module.
    pub fn open(self) -> (r: (TakeOutcome<F>, TakeEvidence<F>))
        ensures
            r.0 == self.spec_outcome(),
            r.1.queue() == self.queue(),
            r.1.outcome() == self.spec_outcome(),
    {
        let ghost outcome = self.outcome;
        let TakeReceipt { outcome: taken, queue } = self;
        (taken, TakeEvidence { queue, outcome: Ghost(outcome) })
    }
}

/// Evidence that a take ran on a particular queue and what it reported,
/// kept after the outcome itself has been consumed. Only
/// [`TakeReceipt::open`] builds one.
#[verifier::reject_recursive_types(F)]
pub struct TakeEvidence<F: FnOnce()> {
    queue: Ghost<JobQueue<F>>,
    outcome: Ghost<TakeOutcome<F>>,
}

impl<F: FnOnce()> TakeEvidence<F> {
    /// The queue the take ran on.
    pub closed spec fn queue(&self) -> JobQueue<F> {
        self.queue@
    }

    /// What the take reported.
    pub closed spec fn outcome(&self) -> TakeOutcome<F> {
        self.outcome@
    }
}

/// Proof that a particular queue has been closed. The only way to obtain
/// one is [`JobQueue::close`], which records the queue it closed — so a
/// function that promises a witness for its own queue can meet that
/// promise only by closing it.
#[verifier::reject_recursive_types(F)]
pub struct CloseWitness<F: FnOnce()> {
    closed: Ghost<JobQueue<F>>,
}

impl<F: FnOnce()> CloseWitness<F> {
    /// The queue this witness says was closed.
    pub closed spec fn queue(&self) -> JobQueue<F> {
        self.closed@
    }
}

/// The shared job channel. Producers call [`JobQueue::send`], consumers call
/// [`JobQueue::try_take`], and the disposing pool calls [`JobQueue::close`].
/// All of them synchronise through one lock, so exactly one party is
/// mid-operation at a time, while jobs themselves run outside the lock.
#[verifier::reject_recursive_types(F)]
pub struct JobQueue<F: FnOnce()> {
    lock: RwLock<QueueState<F>, spec_fn(QueueState<F>) -> bool>,
}

impl<F: FnOnce() + Send + 'static> JobQueue<F> {
    /// A queue is well formed when its lock enforces exactly
    /// [`queue_state_inv`].
    pub closed spec fn wf(&self) -> bool {
        forall|s: QueueState<F>| #[trigger] self.lock.inv(s) <==> queue_state_inv(s)
    }

    /// Creates a queue in [`initial_state`]: open and empty.
    pub fn new() -> (q: Self)
        ensures
            q.wf(),
    {
        let ghost pred = |s: QueueState<F>| queue_state_inv(s);
        JobQueue { lock: RwLock::new(initial_state(), Ghost(pred)) }
    }

    /// Enqueues one job: acquires the lock and applies exactly
    /// [`send_step`], whose contract pins the effect — appended at the
    /// back if and only if the queue was open at that instant, refused
    /// with nothing changed otherwise; the job is never run here. The
    /// receipt names this queue and this job.
    ///
    /// The call never blocks beyond the brief critical section that links
    /// the job into the queue.
    pub fn send(&self, f: F) -> (r: SendReceipt<F>)
        requires
            self.wf(),
            call_requires(f, ()),
        ensures
            r.queue() == *self,
            r.job() == f,
    {
        let ghost job = f;
        let (mut state, handle) = self.lock.acquire_write();
        let accepted = send_step(&mut state, f);
        handle.release_write(state);
        SendReceipt { accepted, queue: Ghost(*self), job: Ghost(job) }
    }

    /// Removes and returns the oldest queued job, if any: acquires the
    /// lock and applies exactly [`take_step`], whose contract pins the
    /// effect — the front job out and delivered exactly once, the order of
    /// the rest kept; on an empty queue, `Empty` while open (ask again)
    /// and `Closed` once closed (the consumer is done). The receipt names
    /// this queue.
    pub fn try_take(&self) -> (r: TakeReceipt<F>)
        requires
            self.wf(),
        ensures
            r.queue() == *self,
            r.spec_outcome() matches TakeOutcome::Job(f) ==> call_requires(f, ()),
    {
        let (mut state, handle) = self.lock.acquire_write();
        let outcome = take_step(&mut state);
        handle.release_write(state);
        TakeReceipt { outcome, queue: Ghost(*self) }
    }

    /// Closes the queue: acquires the lock and applies exactly
    /// [`close_step`], whose contract pins the effect — closed from here
    /// on, with every queued job kept, so consumers reach end-of-stream
    /// only once the remaining jobs are drained. Closing twice is
    /// harmless; the transition is one-way. The returned witness names
    /// this queue.
    pub fn close(&self) -> (w: CloseWitness<F>)
        requires
            self.wf(),
        ensures
            w.queue() == *self,
    {
        let (mut state, handle) = self.lock.acquire_write();
        close_step(&mut state);
        handle.release_write(state);
        CloseWitness { closed: Ghost(*self) }
    }
}

} // verus!
