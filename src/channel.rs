//! The queue between the pool and its workers: std's multi-producer,
//! single-consumer channel, its consumer end shared behind a mutex.
//!
//! Each end carries, as ghost state, the identity of the channel it belongs
//! to; the producer end also carries every message it has handed to the
//! channel, in order.
use std::sync::mpsc::{Receiver, Sender};
use std::sync::{Arc, Mutex};
use vstd::prelude::*;

verus! {

#[verifier::external_type_specification]
#[verifier::external_body]
#[verifier::reject_recursive_types(T)]
pub struct ExSender<T>(Sender<T>);

#[verifier::external_type_specification]
#[verifier::external_body]
#[verifier::reject_recursive_types(T)]
pub struct ExReceiver<T>(Receiver<T>);

#[verifier::external_type_specification]
#[verifier::external_body]
#[verifier::reject_recursive_types(T)]
pub struct ExMutex<T: ?Sized>(Mutex<T>);

/// The producer end of a channel.
#[verifier::reject_recursive_types(T)]
pub struct Producer<T> {
    sender: Sender<T>,
    log: Ghost<Seq<T>>,
    channel: Ghost<int>,
}

/// The consumer end of a channel, before it is shared.
#[verifier::reject_recursive_types(T)]
pub struct Consumer<T> {
    receiver: Receiver<T>,
    channel: Ghost<int>,
}

/// The consumer end of a channel as every worker holds it: shared, and
/// locked for the duration of one receive.
#[verifier::reject_recursive_types(T)]
pub struct SharedReceiver<T> {
    receiver: Arc<Mutex<Receiver<T>>>,
    channel: Ghost<int>,
}

impl<T> Producer<T> {
    /// Every message handed to the channel through this end, in order.
    pub closed spec fn log(&self) -> Seq<T> {
        self.log@
    }

    /// The channel this end belongs to.
    pub closed spec fn channel(&self) -> int {
        self.channel@
    }

    /// Relies on std::sync::mpsc::Sender::send: hands `message` to the
    /// channel; `true` when it was queued, `false` when every consumer end is
    /// gone (the message is then dropped).
    #[verifier::external_body]
    pub(crate) fn send(&mut self, message: T) -> (r: bool)
        ensures
            final(self).log() == old(self).log().push(message),
            final(self).channel() == old(self).channel(),
    {
        self.sender.send(message).is_ok()
    }
}

impl<T> Consumer<T> {
    pub closed spec fn channel(&self) -> int {
        self.channel@
    }

    /// Puts this end behind a mutex, to be shared by several workers.
    pub fn into_shared(self) -> (r: SharedReceiver<T>)
        ensures
            r.channel() == self.channel(),
    {
        SharedReceiver { receiver: Arc::new(new_mutex(self.receiver)), channel: self.channel }
    }
}

impl<T> SharedReceiver<T> {
    /// The channel this end belongs to.
    pub closed spec fn channel(&self) -> int {
        self.channel@
    }

    /// Another handle on the same shared consumer end.
    pub fn share(&self) -> (r: SharedReceiver<T>)
        ensures
            r.channel() == self.channel(),
    {
        SharedReceiver { receiver: self.receiver.clone(), channel: self.channel }
    }

    /// The mutex around the consumer end; a worker locks it for one receive.
    pub fn queue(&self) -> &Arc<Mutex<Receiver<T>>> {
        &self.receiver
    }
}

/// Relies on std::sync::mpsc::channel: a fresh, unbounded FIFO channel,
/// split into its producer and its consumer end, nothing sent yet.
#[verifier::external_body]
pub(crate) fn open_channel<T>() -> (r: (Producer<T>, Consumer<T>))
    ensures
        r.0.log() == Seq::<T>::empty(),
        r.0.channel() == r.1.channel(),
{
    let (sender, receiver) = std::sync::mpsc::channel();
    (
        Producer { sender, log: Ghost(Seq::empty()), channel: Ghost(0) },
        Consumer { receiver, channel: Ghost(0) },
    )
}

/// Relies on std::sync::Mutex::new: a new, unlocked mutex around `value`.
#[verifier::external_body]
fn new_mutex<T>(value: T) -> Mutex<T> {
    Mutex::new(value)
}

} // verus!
