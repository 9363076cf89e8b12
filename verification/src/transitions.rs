//! The queue's transitions: ordinary verified functions from plain state
//! to plain state, whose contracts say exactly what each one does. The
//! locked operations of the [`queue`](crate::queue) module each apply
//! exactly one of these under the shared lock; everything provable of the
//! channel's behaviour is pinned here, on values the verifier can see.
//!
//! Two ghost counters ride along in the state: how many jobs were ever
//! accepted and how many were handed out. The invariant pins their
//! relation to the number of jobs still queued, so every transition is
//! proved to neither lose nor duplicate a job; the crate's model module
//! proves that each transition is one step of the abstract pool lifecycle.

use vstd::prelude::*;

verus! {

/// The state protected by the queue's lock: the queued jobs in arrival
/// order, the open/closed flag, and the ghost tallies of accepted and
/// delivered jobs.
pub struct QueueState<F> {
    /// Jobs waiting to be picked up, oldest first.
    pub jobs: Vec<F>,
    /// Whether the queue has been closed; closing is irreversible.
    pub closed: bool,
    /// How many jobs were ever accepted by a send.
    pub accepted: Ghost<nat>,
    /// How many jobs were handed out by a take.
    pub delivered: Ghost<nat>,
}

/// The invariant the queue's lock maintains over its state.
///
/// Every queued job is callable (its precondition holds), and the tallies
/// balance: accepted jobs are exactly the delivered ones plus the ones still
/// waiting. The balance is what makes loss or duplication impossible: a
/// send raises `accepted` only together with the job it queues, and a
/// take raises `delivered` only together with the job it removes.
pub open spec fn queue_state_inv<F: FnOnce()>(s: QueueState<F>) -> bool {
    &&& forall|i: int| 0 <= i < s.jobs.len() ==> call_requires(#[trigger] s.jobs[i], ())
    &&& s.accepted@ == s.delivered@ + s.jobs.len()
}

/// What a consumer sees when it asks the queue for work.
pub enum TakeOutcome<F> {
    /// A job, removed from the front of the queue; the caller now owns it
    /// exclusively and must run it exactly once.
    Job(F),
    /// No job is available, but the queue is still open: more work may come.
    Empty,
    /// End-of-stream: the queue is closed and nothing is left. Once reported
    /// it will be reported forever after.
    Closed,
}

/// The state a queue is born with: open, empty, nothing accepted and
/// nothing delivered.
pub fn initial_state<F: FnOnce()>() -> (s: QueueState<F>)
    ensures
        s.jobs@ == Seq::<F>::empty(),
        !s.closed,
        s.accepted@ == 0,
        s.delivered@ == 0,
        queue_state_inv(s),
{
    QueueState { jobs: Vec::new(), closed: false, accepted: Ghost(0), delivered: Ghost(0) }
}

/// The send transition: if the queue is open, the job goes to the back and
/// is tallied as accepted; if it is closed, nothing changes at all and the
/// job is refused. Acceptance holds if and only if the queue was open.
pub fn send_step<F: FnOnce()>(s: &mut QueueState<F>, f: F) -> (accepted: bool)
    requires
        queue_state_inv(*old(s)),
        call_requires(f, ()),
    ensures
        queue_state_inv(*final(s)),
        accepted <==> !old(s).closed,
        accepted ==> final(s).jobs@ == old(s).jobs@.push(f) && final(s).closed == old(s).closed
            && final(s).accepted@ == old(s).accepted@ + 1
            && final(s).delivered@ == old(s).delivered@,
        !accepted ==> *final(s) == *old(s),
{
    if s.closed {
        let _ = f;
        false
    } else {
        s.jobs.push(f);
        s.accepted = Ghost(s.accepted@ + 1);
        true
    }
}

/// The take transition: with jobs waiting, the front job — the oldest —
/// comes out and is tallied as delivered, and the rest keep their order;
/// with nothing waiting, the state is untouched and the outcome reports
/// end-of-stream exactly when the queue is closed.
pub fn take_step<F: FnOnce()>(s: &mut QueueState<F>) -> (r: TakeOutcome<F>)
    requires
        queue_state_inv(*old(s)),
    ensures
        queue_state_inv(*final(s)),
        old(s).jobs@.len() > 0 ==> (r matches TakeOutcome::Job(f) && f == old(s).jobs@[0]
            && final(s).jobs@ == old(s).jobs@.drop_first() && final(s).closed == old(s).closed
            && final(s).delivered@ == old(s).delivered@ + 1
            && final(s).accepted@ == old(s).accepted@),
        old(s).jobs@.len() == 0 ==> *final(s) == *old(s) && (r is Closed <==> old(s).closed) && (
        r is Empty <==> !old(s).closed),
        r matches TakeOutcome::Job(f) ==> call_requires(f, ()),
{
    if s.jobs.len() > 0 {
        let f = s.jobs.remove(0);
        s.delivered = Ghost(s.delivered@ + 1);
        assert(s.jobs@ =~= old(s).jobs@.drop_first());
        TakeOutcome::Job(f)
    } else if s.closed {
        TakeOutcome::Closed
    } else {
        TakeOutcome::Empty
    }
}

/// The close transition: the flag flips to closed — irreversibly, and
/// idempotently — while every queued job and both tallies stay exactly as
/// they were, so draining can go on.
pub fn close_step<F: FnOnce()>(s: &mut QueueState<F>)
    requires
        queue_state_inv(*old(s)),
    ensures
        queue_state_inv(*final(s)),
        final(s).closed,
        final(s).jobs@ == old(s).jobs@,
        final(s).accepted@ == old(s).accepted@,
        final(s).delivered@ == old(s).delivered@,
{
    s.closed = true;
}

} // verus!
