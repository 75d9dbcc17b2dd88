//! Queue of interests delivered to the acceptor.
//!
//! Components push typed interests here to tell the acceptor what changed;
//! the acceptor drains the queue in FIFO order. In the running system each
//! push also fires the OS waker bound to the acceptor's poller so that its
//! blocking poll returns promptly; that wake-up is the runtime's concern and
//! carries no data, so the model keeps only the queued interests.

use vstd::prelude::*;

use crate::worker::WorkerHandleAccept;

verus! {

/// An interest the acceptor is asked to act on.
#[derive(Clone, Copy, PartialEq, Eq, Structural, Debug)]
pub enum WakerInterest {
    /// Some worker flipped from unavailable to available.
    WorkerAvailable,
    /// Stop accepting on all listeners until a `Resume` arrives.
    Pause,
    /// Re-register all listeners and accept again.
    Resume,
    /// Shut the acceptor down; `graceful` selects draining or immediate stop.
    Stop { graceful: bool },
    /// A new or replacement worker joined; add it to the round-robin ring.
    Worker(WorkerHandleAccept),
}

/// FIFO queue of interests, single consumer (the acceptor), many producers.
pub struct WakerQueue {
    items: Vec<WakerInterest>,
}

impl View for WakerQueue {
    type V = Seq<WakerInterest>;

    closed spec fn view(&self) -> Seq<WakerInterest> {
        self.items@
    }
}

impl WakerQueue {
    pub fn new() -> (q: WakerQueue)
        ensures
            q@ == Seq::<WakerInterest>::empty(),
    {
        WakerQueue { items: Vec::new() }
    }

    /// Enqueue one interest at the back.
    pub fn wake(&mut self, interest: WakerInterest)
        ensures
            final(self)@ == old(self)@.push(interest),
    {
        self.items.push(interest);
    }

    /// Dequeue the oldest interest, if any.
    pub fn pop(&mut self) -> (r: Option<WakerInterest>)
        ensures
            old(self)@.len() == 0 ==> r is None && final(self)@ == old(self)@,
            old(self)@.len() > 0 ==> (r matches Some(i) && i == old(self)@[0])
                && final(self)@ == old(self)@.drop_first(),
    {
        if self.items.len() == 0 {
            None
        } else {
            let i = self.items.remove(0);
            proof {
                assert(self.items@ =~= old(self)@.drop_first());
            }
            Some(i)
        }
    }

    pub fn len(&self) -> (n: usize)
        ensures
            n == self@.len(),
    {
        self.items.len()
    }
}

} // verus!
