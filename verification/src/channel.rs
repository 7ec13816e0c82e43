//! The sequential model of a multiple-producer, single-consumer hand-off
//! queue.
//!
//! Any number of cloned senders may enqueue; the single receiver drains in
//! arrival order. A receive returns a message whenever one is queued, and
//! reports the channel closed only when the queue is empty and every sender
//! has been dropped — so sends are never duplicated and never lost, and the
//! receive loop terminates exactly when the senders are gone.

use vstd::prelude::*;

verus! {

/// The pending messages in arrival order, and the number of senders still
/// alive (a fresh channel has one).
#[derive(Debug)]
pub struct Channel<T> {
    pub queue: Vec<T>,
    pub senders: u32,
}

impl<T> Channel<T> {
    /// A fresh, empty channel with its one original sender.
    pub fn new() -> (c: Channel<T>)
        ensures
            c.queue@.len() == 0,
            c.senders == 1,
    {
        Channel { queue: Vec::new(), senders: 1 }
    }

    /// Clones a sender handle.
    pub fn clone_sender(&mut self)
        requires
            old(self).senders >= 1,
            old(self).senders < u32::MAX,
        ensures
            final(self).senders == old(self).senders + 1,
            final(self).queue == old(self).queue,
    {
        self.senders = self.senders + 1;
    }

    /// Drops one sender handle.
    pub fn drop_sender(&mut self)
        requires
            old(self).senders >= 1,
        ensures
            final(self).senders == old(self).senders - 1,
            final(self).queue == old(self).queue,
    {
        self.senders = self.senders - 1;
    }

    /// A live sender enqueues exactly one message at the back.
    pub fn send(&mut self, message: T)
        requires
            old(self).senders >= 1,
        ensures
            final(self).queue@ == old(self).queue@.push(message),
            final(self).senders == old(self).senders,
    {
        self.queue.push(message);
    }

    /// The receiver takes the oldest message, or learns that the channel is
    /// closed: `None` comes exactly when the queue is empty and no sender
    /// is left. (A receive on an empty queue with senders alive would
    /// block, so the model leaves that case out.)
    pub fn recv(&mut self) -> (r: Option<T>)
        requires
            old(self).queue@.len() > 0 || old(self).senders == 0,
        ensures
            old(self).queue@.len() > 0 ==> (r matches Some(m) && m == old(self).queue@[0]
                && final(self).queue@ == old(self).queue@.drop_first()),
            old(self).queue@.len() == 0 ==> r is None && final(self).queue == old(self).queue,
            final(self).senders == old(self).senders,
    {
        if self.queue.len() > 0 {
            Some(self.queue.remove(0))
        } else {
            None
        }
    }

    /// Once all senders are dropped, the receive loop yields every pending
    /// message, in order, and then stops: nothing is duplicated, nothing is
    /// lost.
    pub fn drain(&mut self) -> (r: Vec<T>)
        requires
            old(self).senders == 0,
        ensures
            r@ == old(self).queue@,
            final(self).queue@.len() == 0,
            final(self).senders == 0,
    {
        let ghost orig = self.queue@;
        let mut received: Vec<T> = Vec::new();
        while self.queue.len() > 0
            invariant
                self.senders == 0,
                received@ + self.queue@ == orig,
            decreases self.queue@.len(),
        {
            let message = self.queue.remove(0);
            received.push(message);
            proof {
                assert(received@ + self.queue@ =~= orig);
            }
        }
        proof {
            assert(received@ =~= orig);
        }
        received
    }
}

} // verus!
