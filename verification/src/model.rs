//! A ghost model of the pool's lifetime, and the laws it obeys.
//!
//! The executable queue proves, through its lock invariant, that no single
//! operation loses or duplicates a job. What no single operation can state
//! is how a whole run behaves: jobs submitted from many threads, delivered
//! by many workers, the queue closed once, every worker joined. This module
//! states that behaviour as a small transition system over ghost state and
//! proves its laws:
//!
//! - conservation: at every reachable state, the jobs ever submitted are
//!   exactly the jobs still pending plus the jobs delivered — as multisets,
//!   so none is lost and none is handed out twice;
//! - drained delivery: once nothing is pending, every submitted job has
//!   been delivered to exactly one consumer;
//! - disposal: a worker's thread can only have been joined after the queue
//!   drained, so a job submitted before disposal began is delivered before
//!   disposal finishes; and when disposal has finished, every worker has
//!   been joined and every submitted job delivered.
//!
//! Jobs are identified by ghost labels; a label's multiplicity, not its
//! value, carries the counting argument.
//!
//! The model is not free-floating: the refinement laws at the end of this
//! module tie it to the executable queue. Under the abstraction that
//! labels every job with its submission index, the contract of each
//! executable transition — initial state, accepted send, successful take,
//! close — is shown to perform exactly the matching step of the model, so
//! what the laws prove of runs of the model holds of runs of the queue's
//! transitions.

use vstd::prelude::*;

verus! {

use vstd::multiset::Multiset;
use vstd::multiset::group_multiset_axioms;
use vstd::seq_lib::group_to_multiset_ensures;
use crate::queue::QueueState;
use crate::queue::queue_state_inv;

/// Where the pool is in its life: accepting work, tearing down, or gone.
pub enum Phase {
    /// The queue is open and `execute` may submit jobs.
    Running,
    /// Disposal has begun: the queue is closed, workers drain what is left,
    /// and the disposing thread joins them one by one.
    Disposing,
    /// Disposal has returned: all workers joined, nothing pending.
    Disposed,
}

/// One instant of a pool's run.
pub struct PoolModel {
    /// The lifecycle phase.
    pub phase: Phase,
    /// Labels of the jobs accepted but not yet handed to a worker, in queue
    /// order.
    pub pending: Seq<nat>,
    /// Labels of the jobs handed to a worker, each counted as often as it
    /// was handed out.
    pub delivered: Multiset<nat>,
    /// Labels of every job ever accepted, in acceptance order.
    pub submitted: Seq<nat>,
    /// One flag per worker: whether its thread has been joined.
    pub joined: Seq<bool>,
}

/// The state a freshly constructed pool of `size` workers is in.
pub open spec fn init(size: nat) -> PoolModel {
    PoolModel {
        phase: Phase::Running,
        pending: Seq::empty(),
        delivered: Multiset::empty(),
        submitted: Seq::empty(),
        joined: Seq::new(size, |i: int| false),
    }
}

/// A producer submits a job: only while the pool runs, and the job goes to
/// the back of the queue.
pub open spec fn submit_step(pre: PoolModel, post: PoolModel, job: nat) -> bool {
    &&& pre.phase is Running
    &&& post == PoolModel {
        pending: pre.pending.push(job),
        submitted: pre.submitted.push(job),
        ..pre
    }
}

/// A worker takes the oldest pending job; the job counts as delivered the
/// moment it leaves the queue. Workers keep taking during disposal — that
/// is what drains the queue.
pub open spec fn deliver_step(pre: PoolModel, post: PoolModel) -> bool {
    &&& pre.pending.len() > 0
    &&& post == PoolModel {
        pending: pre.pending.drop_first(),
        delivered: pre.delivered.insert(pre.pending[0]),
        ..pre
    }
}

/// Disposal begins: the one-time transition that closes the queue. No
/// submission is possible afterwards.
pub open spec fn begin_disposal_step(pre: PoolModel, post: PoolModel) -> bool {
    &&& pre.phase is Running
    &&& post == PoolModel { phase: Phase::Disposing, ..pre }
}

/// The disposing thread joins worker `w`. A join only returns once the
/// worker has observed end-of-stream, which a worker observes only on a
/// queue that is both closed and empty — so nothing can still be pending.
pub open spec fn join_step(pre: PoolModel, post: PoolModel, w: int) -> bool {
    &&& pre.phase is Disposing
    &&& 0 <= w < pre.joined.len()
    &&& pre.pending.len() == 0
    &&& post == PoolModel { joined: pre.joined.update(w, true), ..pre }
}

/// Disposal returns: only once every worker has been joined.
pub open spec fn finish_step(pre: PoolModel, post: PoolModel) -> bool {
    &&& pre.phase is Disposing
    &&& forall|w: int| 0 <= w < pre.joined.len() ==> pre.joined[w]
    &&& post == PoolModel { phase: Phase::Disposed, ..pre }
}

/// Any one step of the pool's life.
pub open spec fn next(pre: PoolModel, post: PoolModel) -> bool {
    ||| exists|job: nat| submit_step(pre, post, job)
    ||| deliver_step(pre, post)
    ||| begin_disposal_step(pre, post)
    ||| exists|w: int| join_step(pre, post, w)
    ||| finish_step(pre, post)
}

/// What holds at every reachable state.
///
/// The first clause is the conservation law; the rest pin the lifecycle:
/// the pool has workers, none is joined before disposal begins, a joined
/// worker means the queue had drained, and a disposed pool is fully
/// drained and fully joined.
pub open spec fn inv(m: PoolModel) -> bool {
    &&& m.submitted.to_multiset() == m.pending.to_multiset().add(m.delivered)
    &&& m.joined.len() > 0
    &&& m.phase is Running ==> forall|w: int| 0 <= w < m.joined.len() ==> !m.joined[w]
    &&& (exists|w: int| 0 <= w < m.joined.len() && m.joined[w]) ==> m.pending.len() == 0
    &&& m.phase is Disposed ==> m.pending.len() == 0 && forall|w: int|
        0 <= w < m.joined.len() ==> m.joined[w]
}

/// A fresh pool satisfies the invariant: nothing submitted, nothing
/// pending, nothing delivered, nobody joined.
pub proof fn lemma_init_satisfies_inv(size: nat)
    requires
        size > 0,
    ensures
        inv(init(size)),
{
    broadcast use group_to_multiset_ensures;

    let m = init(size);
    assert(m.submitted.to_multiset() =~= m.pending.to_multiset().add(m.delivered));
}

/// Submitting preserves the invariant: the job is counted once as
/// submitted and once as pending.
pub proof fn lemma_submit_preserves_inv(pre: PoolModel, post: PoolModel, job: nat)
    requires
        inv(pre),
        submit_step(pre, post, job),
    ensures
        inv(post),
{
    broadcast use group_to_multiset_ensures;

    assert(post.submitted.to_multiset() =~= pre.submitted.to_multiset().insert(job));
    assert(post.pending.to_multiset() =~= pre.pending.to_multiset().insert(job));
    assert(post.submitted.to_multiset() =~= post.pending.to_multiset().add(post.delivered));
}

/// Delivering preserves the invariant: the job moves from pending to
/// delivered, counted exactly once on each side.
pub proof fn lemma_deliver_preserves_inv(pre: PoolModel, post: PoolModel)
    requires
        inv(pre),
        deliver_step(pre, post),
    ensures
        inv(post),
{
    broadcast use group_to_multiset_ensures;

    let job = pre.pending[0];
    assert(pre.pending.drop_first() =~= pre.pending.remove(0));
    assert(post.pending.to_multiset() =~= pre.pending.to_multiset().remove(job));
    assert(pre.pending.to_multiset().contains(job));
    assert(post.submitted.to_multiset() =~= post.pending.to_multiset().add(post.delivered));
}

/// Beginning disposal moves no jobs and joins no workers, so the invariant
/// carries over.
pub proof fn lemma_begin_disposal_preserves_inv(pre: PoolModel, post: PoolModel)
    requires
        inv(pre),
        begin_disposal_step(pre, post),
    ensures
        inv(post),
{
}

/// Joining one worker preserves the invariant; in particular a join can
/// only happen once nothing is pending.
pub proof fn lemma_join_preserves_inv(pre: PoolModel, post: PoolModel, w: int)
    requires
        inv(pre),
        join_step(pre, post, w),
    ensures
        inv(post),
{
}

/// Finishing disposal preserves the invariant: it requires every worker
/// joined, and a joined worker already witnesses the drained queue.
pub proof fn lemma_finish_preserves_inv(pre: PoolModel, post: PoolModel)
    requires
        inv(pre),
        finish_step(pre, post),
    ensures
        inv(post),
{
    assert(pre.joined[0]);
}

/// Every step preserves the invariant.
pub proof fn lemma_next_preserves_inv(pre: PoolModel, post: PoolModel)
    requires
        inv(pre),
        next(pre, post),
    ensures
        inv(post),
{
    if exists|job: nat| submit_step(pre, post, job) {
        let job = choose|job: nat| submit_step(pre, post, job);
        lemma_submit_preserves_inv(pre, post, job);
    } else if deliver_step(pre, post) {
        lemma_deliver_preserves_inv(pre, post);
    } else if begin_disposal_step(pre, post) {
        lemma_begin_disposal_preserves_inv(pre, post);
    } else if exists|w: int| join_step(pre, post, w) {
        let w = choose|w: int| join_step(pre, post, w);
        lemma_join_preserves_inv(pre, post, w);
    } else {
        lemma_finish_preserves_inv(pre, post);
    }
}

/// A run of the pool: consecutive states, each reached from the one before
/// by a single step.
pub open spec fn is_run(states: Seq<PoolModel>) -> bool {
    forall|i: int| 0 <= i < states.len() - 1 ==> next(#[trigger] states[i], states[i + 1])
}

/// Law: along any run of a freshly constructed pool, every state satisfies
/// the invariant — in particular, at every instant the submitted jobs are
/// exactly the pending plus the delivered ones.
pub proof fn lemma_run_satisfies_inv(size: nat, states: Seq<PoolModel>, i: int)
    requires
        size > 0,
        states.len() > 0,
        states[0] == init(size),
        is_run(states),
        0 <= i < states.len(),
    ensures
        inv(states[i]),
    decreases i,
{
    if i == 0 {
        lemma_init_satisfies_inv(size);
    } else {
        lemma_run_satisfies_inv(size, states, i - 1);
        lemma_next_preserves_inv(states[i - 1], states[i]);
    }
}

/// Law: for any single job, however often it was submitted, that is
/// exactly how often it is pending or delivered — no job is lost and none
/// is handed out more often than it came in.
pub proof fn lemma_job_conserved(m: PoolModel, job: nat)
    requires
        inv(m),
    ensures
        m.submitted.to_multiset().count(job) == m.pending.to_multiset().count(job)
            + m.delivered.count(job),
{
    broadcast use vstd::multiset::group_multiset_axioms;

}

/// Law: in any state of the pool's life where nothing is pending — for
/// instance after its workers have drained the queue — the delivered jobs
/// are exactly the submitted ones: none lost, none run twice.
pub proof fn lemma_drained_delivery_exact(m: PoolModel)
    requires
        inv(m),
        m.pending.len() == 0,
    ensures
        m.delivered =~= m.submitted.to_multiset(),
{
    broadcast use group_to_multiset_ensures;

    assert(m.pending.to_multiset().len() == 0);
    assert(m.pending.to_multiset().add(m.delivered) =~= m.delivered);
}

/// Law: when disposal has finished, every worker's thread has been joined
/// and every job submitted before disposal began was delivered to exactly
/// one worker — no job is abandoned mid-queue and no thread leaks.
pub proof fn lemma_disposed_is_clean(m: PoolModel)
    requires
        inv(m),
        m.phase is Disposed,
    ensures
        m.delivered =~= m.submitted.to_multiset(),
        forall|w: int| 0 <= w < m.joined.len() ==> m.joined[w],
{
    lemma_drained_delivery_exact(m);
}

/// Ghost labels `from`, `from + 1`, ..., `from + count - 1`, in order.
pub open spec fn label_range(from: nat, count: nat) -> Seq<nat> {
    Seq::new(count, |i: int| (from + i) as nat)
}

/// The abstract pool state a queue state stands for, labelling every job
/// by its submission index. The jobs delivered so far carry the labels
/// below the delivered tally; the queued ones carry the next labels, in
/// queue order; the submitted ones are all labels handed out so far. The
/// phase and the joined flags are the disposal side of the model, which
/// the queue does not hold.
pub open spec fn queue_abstraction<F: FnOnce()>(
    s: QueueState<F>,
    phase: Phase,
    joined: Seq<bool>,
) -> PoolModel {
    PoolModel {
        phase,
        pending: label_range(s.delivered@, s.jobs@.len() as nat),
        delivered: label_range(0, s.delivered@).to_multiset(),
        submitted: label_range(0, s.accepted@),
        joined,
    }
}

/// Law: a queue in its initial state — open, empty, nothing tallied —
/// abstracts to the model's initial state.
pub proof fn lemma_initial_refines_init<F: FnOnce()>(s: QueueState<F>, size: nat)
    requires
        s.jobs@ == Seq::<F>::empty(),
        s.accepted@ == 0,
        s.delivered@ == 0,
    ensures
        queue_abstraction(s, Phase::Running, Seq::new(size, |i: int| false)) == init(size),
{
    broadcast use group_to_multiset_ensures, group_multiset_axioms;

    let a = queue_abstraction(s, Phase::Running, Seq::new(size, |i: int| false));
    assert(a.pending =~= Seq::<nat>::empty());
    assert(a.submitted =~= Seq::<nat>::empty());
    assert(a.delivered =~= Multiset::<nat>::empty());
}

/// Law: an accepted send — the open case of the executable send
/// transition, as its contract states it — is one submit step of the
/// model, the new job carrying the next free label.
pub proof fn lemma_send_refines_submit<F: FnOnce()>(
    pre: QueueState<F>,
    post: QueueState<F>,
    f: F,
    phase: Phase,
    joined: Seq<bool>,
)
    requires
        queue_state_inv(pre),
        !pre.closed,
        phase is Running,
        post.jobs@ == pre.jobs@.push(f),
        post.closed == pre.closed,
        post.accepted@ == pre.accepted@ + 1,
        post.delivered@ == pre.delivered@,
    ensures
        submit_step(
            queue_abstraction(pre, phase, joined),
            queue_abstraction(post, phase, joined),
            pre.accepted@,
        ),
{
    let a = queue_abstraction(pre, phase, joined);
    let b = queue_abstraction(post, phase, joined);
    assert(b.pending =~= a.pending.push(pre.accepted@));
    assert(b.submitted =~= a.submitted.push(pre.accepted@));
    assert(b == (PoolModel {
        pending: a.pending.push(pre.accepted@),
        submitted: a.submitted.push(pre.accepted@),
        ..a
    }));
}

/// Law: a successful take — the non-empty case of the executable take
/// transition, as its contract states it — is one deliver step of the
/// model: the front label moves from pending to delivered.
pub proof fn lemma_take_refines_deliver<F: FnOnce()>(
    pre: QueueState<F>,
    post: QueueState<F>,
    phase: Phase,
    joined: Seq<bool>,
)
    requires
        queue_state_inv(pre),
        pre.jobs@.len() > 0,
        post.jobs@ == pre.jobs@.drop_first(),
        post.closed == pre.closed,
        post.accepted@ == pre.accepted@,
        post.delivered@ == pre.delivered@ + 1,
    ensures
        deliver_step(queue_abstraction(pre, phase, joined), queue_abstraction(post, phase, joined)),
{
    broadcast use group_to_multiset_ensures;

    let a = queue_abstraction(pre, phase, joined);
    let b = queue_abstraction(post, phase, joined);
    assert(a.pending.len() > 0);
    assert(a.pending[0] == pre.delivered@);
    assert(b.pending =~= a.pending.drop_first());
    assert(label_range(0, pre.delivered@ + 1) =~= label_range(0, pre.delivered@).push(
        pre.delivered@,
    ));
    assert(b.delivered =~= a.delivered.insert(pre.delivered@));
    assert(b == (PoolModel {
        pending: a.pending.drop_first(),
        delivered: a.delivered.insert(a.pending[0]),
        ..a
    }));
}

/// Law: closing the queue — the executable close transition, as its
/// contract states it — is the model's one-time transition into disposal:
/// no job moves, no label changes, only the phase advances.
pub proof fn lemma_close_refines_begin_disposal<F: FnOnce()>(
    pre: QueueState<F>,
    post: QueueState<F>,
    joined: Seq<bool>,
)
    requires
        post.jobs@ == pre.jobs@,
        post.closed,
        post.accepted@ == pre.accepted@,
        post.delivered@ == pre.delivered@,
    ensures
        begin_disposal_step(
            queue_abstraction(pre, Phase::Running, joined),
            queue_abstraction(post, Phase::Disposing, joined),
        ),
{
    let a = queue_abstraction(pre, Phase::Running, joined);
    let b = queue_abstraction(post, Phase::Disposing, joined);
    assert(b == (PoolModel { phase: Phase::Disposing, ..a }));
}

} // verus!
