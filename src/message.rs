//! What travels through the queue, and how a worker reacts to it.
use vstd::prelude::*;

verus! {

/// One entry of the queue: a job to run, or the order to stop.
pub enum Message<J> {
    NewJob(J),
    Terminate,
}

impl<J> Message<J> {
    pub open spec fn is_terminate(self) -> bool {
        self is Terminate
    }
}

/// What a worker does after a receive.
pub enum WorkerAction<J> {
    /// Run this job, outside the lock, then receive again.
    Run(J),
    /// Leave the loop: the worker was told to terminate.
    Stop,
    /// Leave the loop abnormally: the producer end vanished before a
    /// `Terminate` arrived.
    Fail,
}

/// The number of `Terminate` entries in a run of messages.
pub open spec fn terminates_in<J>(log: Seq<Message<J>>) -> nat
    decreases log.len(),
{
    if log.len() == 0 {
        0
    } else {
        terminates_in(log.drop_last()) + if log.last().is_terminate() {
            1nat
        } else {
            0nat
        }
    }
}

/// The worker's decision on what one receive gave it (`None` when the
/// receive failed).
pub fn worker_step<J>(received: Option<Message<J>>) -> (action: WorkerAction<J>)
    ensures
        match received {
            Some(Message::NewJob(job)) => action == WorkerAction::Run(job),
            Some(Message::Terminate) => action is Stop,
            None => action is Fail,
        },
{
    match received {
        Some(Message::NewJob(job)) => WorkerAction::Run(job),
        Some(Message::Terminate) => WorkerAction::Stop,
        None => WorkerAction::Fail,
    }
}

} // verus!
