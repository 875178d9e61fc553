//! The pool: a fixed set of workers sharing the consumer end of one queue,
//! the producer end to submit jobs, and the teardown protocol.
use crate::channel::{open_channel, Producer, SharedReceiver};
use crate::error::PoolCreationError;
use crate::message::Message;
use crate::worker::Worker;
use vstd::prelude::*;

verus! {

/// A fixed-size pool of workers fed through one FIFO queue.
///
/// `J` is the job type and `H` the handle of a worker's thread. Threads are
/// started by the `spawn` function given to [`ThreadPool::new`] and joined by
/// the `join` function given to [`ThreadPool::teardown`].
#[verifier::reject_recursive_types(J)]
pub struct ThreadPool<J, H> {
    workers: Vec<Worker<H>>,
    sender: Producer<Message<J>>,
    closed: bool,
}

impl<J, H> ThreadPool<J, H> {
    pub closed spec fn spec_workers(&self) -> Seq<Worker<H>> {
        self.workers@
    }

    /// Every message handed to the queue so far, in order.
    pub closed spec fn sent(&self) -> Seq<Message<J>> {
        self.sender.log()
    }

    /// The channel that carries the pool's queue.
    pub closed spec fn channel(&self) -> int {
        self.sender.channel()
    }

    /// Whether teardown has run.
    pub closed spec fn is_closed(&self) -> bool {
        self.closed
    }

    pub open spec fn size(&self) -> nat {
        self.spec_workers().len()
    }

    /// The pool's invariant: at least one worker, ids `0..size` in order;
    /// while open every handle is held and only jobs were sent; once closed
    /// every handle has been taken.
    pub open spec fn wf(&self) -> bool {
        &&& self.size() > 0
        &&& forall|i: int| 0 <= i < self.size() ==> #[trigger] self.spec_workers()[i].spec_id() == i
        &&& !self.is_closed() ==> forall|i: int|
            0 <= i < self.size() ==> #[trigger] self.spec_workers()[i].spec_thread() is Some
        &&& !self.is_closed() ==> forall|i: int|
            0 <= i < self.sent().len() ==> !(#[trigger] self.sent()[i]).is_terminate()
        &&& self.is_closed() ==> forall|i: int|
            0 <= i < self.size() ==> #[trigger] self.spec_workers()[i].spec_thread() is None
    }

    /// Builds a pool of `size` workers, worker `id` running on the thread
    /// that `spawn(id, receiver)` starts; fails when `size` is zero.
    pub fn new<F>(size: usize, spawn: F) -> (r: Result<ThreadPool<J, H>, PoolCreationError>) where
        F: Fn(usize, SharedReceiver<Message<J>>) -> H,

        requires
            forall|id: usize, rx: SharedReceiver<Message<J>>| call_requires(spawn, (id, rx)),
        ensures
            r is Err <==> size == 0,
            r matches Ok(p) ==> {
                &&& p.wf()
                &&& p.size() == size
                &&& !p.is_closed()
                &&& p.sent() == Seq::<Message<J>>::empty()
                &&& forall|i: int|
                    #![trigger p.spec_workers()[i]]
                    0 <= i < size ==> exists|rx: SharedReceiver<Message<J>>|
                        rx.channel() == p.channel() && #[trigger] call_ensures(
                            spawn,
                            (i as usize, rx),
                            p.spec_workers()[i].spec_thread()->0,
                        )
            },
    {
        if size == 0 {
            return Err(PoolCreationError);
        }
        let (sender, receiver) = open_channel();
        let receiver = receiver.into_shared();
        let mut workers: Vec<Worker<H>> = Vec::with_capacity(size);
        let mut id: usize = 0;
        while id < size
            invariant
                id <= size,
                workers@.len() == id,
                receiver.channel() == sender.channel(),
                sender.log() == Seq::<Message<J>>::empty(),
                forall|rx: usize, r: SharedReceiver<Message<J>>| call_requires(spawn, (rx, r)),
                forall|i: int| 0 <= i < id ==> #[trigger] workers@[i].spec_id() == i,
                forall|i: int| 0 <= i < id ==> #[trigger] workers@[i].spec_thread() is Some,
                forall|i: int|
                    #![trigger workers@[i]]
                    0 <= i < id ==> exists|rx: SharedReceiver<Message<J>>|
                        rx.channel() == sender.channel() && #[trigger] call_ensures(
                            spawn,
                            (i as usize, rx),
                            workers@[i].spec_thread()->0,
                        ),
            decreases size - id,
        {
            let shared = receiver.share();
            let ghost handed = shared;
            let thread = spawn(id, shared);
            let ghost before = workers@;
            workers.push(Worker::new(id, thread));
            assert(call_ensures(spawn, ((id as int) as usize, handed), workers@[id as int].spec_thread()->0));
            assert(forall|i: int| 0 <= i < id ==> workers@[i] == before[i]);
            id = id + 1;
        }
        Ok(ThreadPool { workers, sender, closed: false })
    }

    /// Submits a job: it is handed to the queue as `NewJob`, after
    /// everything sent before it. Returns whether the queue accepted it
    /// (`false` only when every worker is gone; the job is then dropped).
    pub fn execute(&mut self, job: J) -> (accepted: bool)
        requires
            old(self).wf(),
        ensures
            final(self).wf(),
            final(self).sent() == old(self).sent().push(Message::NewJob(job)),
            final(self).channel() == old(self).channel(),
            final(self).spec_workers() == old(self).spec_workers(),
            final(self).is_closed() == old(self).is_closed(),
    {
        let ghost before = self.sender.log();
        let accepted = self.sender.send(Message::NewJob(job));
        assert forall|i: int|
            !self.closed && 0 <= i < self.sent().len() implies !self.sent()[i].is_terminate() by {
            if i < before.len() {
                assert(old(self).sent()[i] == self.sent()[i]);
            }
        }
        accepted
    }

    /// Tears the pool down: first one `Terminate` per worker, queued after
    /// every job sent so far, then, worker by worker in id order, the handle
    /// is taken out of its slot and handed to `join`, which is to wait for
    /// that thread to exit. A pool already torn down is left as it is.
    /// Returns whether the queue accepted every `Terminate`.
    pub fn teardown<F>(&mut self, join: F) -> (all_sent: bool) where F: Fn(H)
        requires
            old(self).wf(),
            forall|h: H| call_requires(join, (h,)),
        ensures
            final(self).wf(),
            final(self).is_closed(),
            final(self).size() == old(self).size(),
            final(self).channel() == old(self).channel(),
            !old(self).is_closed() ==> final(self).sent() == old(self).sent() + Seq::new(
                old(self).size(),
                |i: int| Message::<J>::Terminate,
            ),
            old(self).is_closed() ==> final(self).sent() == old(self).sent(),
            forall|i: int|
                0 <= i < old(self).size() && old(self).spec_workers()[i].spec_thread() is Some
                    ==> call_ensures(
                    join,
                    (#[trigger] old(self).spec_workers()[i].spec_thread()->0,),
                    (),
                ),
            forall|i: int|
                0 <= i < final(self).size() ==> #[trigger] final(self).spec_workers()[i].spec_thread() is None,
    {
        if self.closed {
            return true;
        }
        let n = self.workers.len();
        let ghost start = self.sender.log();
        let mut all_sent = true;
        let mut k: usize = 0;
        while k < n
            invariant
                k <= n,
                n == self.workers@.len(),
                self.sender.log() == start + Seq::new(k as nat, |i: int| Message::<J>::Terminate),
                self.sender.channel() == old(self).sender.channel(),
                self.workers@ == old(self).workers@,
                !self.closed,
            decreases n - k,
        {
            if !self.sender.send(Message::Terminate) {
                all_sent = false;
            }
            assert(self.sender.log() =~= start + Seq::new((k + 1) as nat, |i: int| Message::<J>::Terminate));
            k = k + 1;
        }
        let mut i: usize = 0;
        while i < n
            invariant
                i <= n,
                n == self.workers@.len(),
                n == old(self).workers@.len(),
                self.sender.log() == start + Seq::new(n as nat, |i: int| Message::<J>::Terminate),
                self.sender.channel() == old(self).sender.channel(),
                forall|h: H| call_requires(join, (h,)),
                forall|j: int| 0 <= j < n ==> #[trigger] self.workers@[j].spec_id() == j,
                forall|j: int| 0 <= j < i ==> #[trigger] self.workers@[j].spec_thread() is None,
                forall|j: int|
                    i <= j < n ==> #[trigger] self.workers@[j] == old(self).workers@[j],
                forall|j: int|
                    0 <= j < i ==> call_ensures(
                        join,
                        (#[trigger] old(self).workers@[j].spec_thread()->0,),
                        (),
                    ),
                old(self).wf(),
                !old(self).closed,
            decreases n - i,
        {
            let taken = self.workers[i].take_thread();
            if let Some(h) = taken {
                join(h);
            }
            i = i + 1;
        }
        self.closed = true;
        all_sent
    }

    /// The workers, in id order.
    pub fn workers(&self) -> (r: &Vec<Worker<H>>)
        ensures
            r@ == self.spec_workers(),
    {
        &self.workers
    }

    /// The number of workers.
    pub fn size_of(&self) -> (r: usize)
        ensures
            r == self.size(),
    {
        self.workers.len()
    }
}

} // verus!
