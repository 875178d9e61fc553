//! A worker: a stable id and the slot of its thread's handle.
use vstd::prelude::*;

verus! {

/// One long-lived execution thread of a pool, seen from the pool: its id
/// and, until it is joined, the handle of its thread.
pub struct Worker<H> {
    id: usize,
    thread: Option<H>,
}

impl<H> Worker<H> {
    pub closed spec fn spec_id(&self) -> nat {
        self.id as nat
    }

    /// The handle still held, or `None` once it has been taken for joining.
    pub closed spec fn spec_thread(&self) -> Option<H> {
        self.thread
    }

    pub fn new(id: usize, thread: H) -> (w: Worker<H>)
        ensures
            w.spec_id() == id,
            w.spec_thread() == Some(thread),
    {
        Worker { id, thread: Some(thread) }
    }

    pub fn id(&self) -> (r: usize)
        ensures
            r == self.spec_id(),
    {
        self.id
    }

    /// Whether the handle is still held (the thread has not been joined).
    pub fn has_thread(&self) -> (r: bool)
        ensures
            r == self.spec_thread() is Some,
    {
        self.thread.is_some()
    }

    /// Hands out the thread's handle, leaving the slot empty: a second call
    /// gives `None`.
    pub fn take_thread(&mut self) -> (r: Option<H>)
        ensures
            r == old(self).spec_thread(),
            final(self).spec_thread() is None,
            final(self).spec_id() == old(self).spec_id(),
    {
        self.thread.take()
    }
}

} // verus!
