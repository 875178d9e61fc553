//! Laws of the queue protocol. The queue hands out what the pool sent in
//! the order it was sent, each entry to exactly one worker; so after `k`
//! receives, across all workers, the received entries are the first `k`
//! sent, and each worker stops at the first `Terminate` it receives.
use crate::message::{terminates_in, Message};
use crate::pool::ThreadPool;
use vstd::prelude::*;

verus! {

/// Count of `Terminate`s received after `k` receives from a queue holding
/// `jobs` followed by `n` `Terminate`s: none until the jobs are gone, then
/// one per receive.
proof fn lemma_terminates_in_prefix<J>(jobs: Seq<Message<J>>, n: nat, k: int)
    requires
        forall|i: int| 0 <= i < jobs.len() ==> !(#[trigger] jobs[i]).is_terminate(),
        0 <= k <= jobs.len() + n,
    ensures
        terminates_in((jobs + Seq::new(n, |i: int| Message::<J>::Terminate)).take(k))
            == if k <= jobs.len() { 0 } else { k - jobs.len() },
    decreases k,
{
    let log = jobs + Seq::new(n, |i: int| Message::<J>::Terminate);
    if k > 0 {
        lemma_terminates_in_prefix(jobs, n, k - 1);
        assert(log.take(k).drop_last() =~= log.take(k - 1));
        assert(log.take(k).last() == log[k - 1]);
    }
}

/// Teardown drains the queue: once as many `Terminate`s have been received
/// as the pool has workers (every worker has stopped), every message that
/// teardown left in the queue has been received, so every job submitted
/// before teardown began has been handed to a worker.
pub proof fn lemma_teardown_drains_jobs<J, H>(
    before: ThreadPool<J, H>,
    after: ThreadPool<J, H>,
    received: nat,
)
    requires
        before.wf(),
        !before.is_closed(),
        after.sent() == before.sent() + Seq::new(before.size(), |i: int| Message::<J>::Terminate),
        received <= after.sent().len(),
        terminates_in(after.sent().take(received as int)) == before.size(),
    ensures
        received == after.sent().len(),
        forall|i: int|
            0 <= i < before.sent().len() ==> after.sent().take(received as int)[i] == #[trigger] (
            before.sent()[i]),
{
    lemma_terminates_in_prefix(before.sent(), before.size(), received as int);
}

/// Jobs submitted one after the other are queued in that order, so a
/// worker that takes both (the only worker of a pool of one) has received
/// the first before the second: whenever the second is among the first `k`
/// received messages, so is the first, at an earlier place.
pub proof fn lemma_submission_order<J, H>(
    p: ThreadPool<J, H>,
    q: ThreadPool<J, H>,
    r: ThreadPool<J, H>,
    a: J,
    b: J,
    k: int,
)
    requires
        q.sent() == p.sent().push(Message::NewJob(a)),
        r.sent() == q.sent().push(Message::NewJob(b)),
        0 <= k <= r.sent().len(),
        k > p.sent().len() + 1,
    ensures
        r.sent().take(k)[p.sent().len() as int] == Message::NewJob(a),
        r.sent().take(k)[p.sent().len() + 1int] == Message::NewJob(b),
{
}

} // verus!
