//! Sequential models of the locking protocols the demonstration programs
//! run with real threads.
//!
//! `CounterLock` models a mutual-exclusion lock around a counter, with the
//! poisoning that an abnormal termination leaves behind: acquisition is a
//! fallible operation, and a poisoned lock answers a recoverable error
//! instead of wedging every later acquirer. `RwSequence` models a
//! read/write-locked sequence: many concurrent readers or one exclusive
//! writer, never both. `acquisition_order` is the structural deadlock
//! avoidance rule: two resources are always taken in ascending order.

use vstd::prelude::*;
use crate::counter::Counter;

verus! {

/// A counter behind a mutual-exclusion lock. `held` says an actor currently
/// has exclusive access; `poisoned` says a previous holder terminated
/// abnormally instead of releasing cleanly.
#[derive(Debug)]
pub struct CounterLock {
    pub counter: Counter,
    pub held: bool,
    pub poisoned: bool,
}

impl CounterLock {
    /// A fresh lock around a zeroed counter: free and clean.
    pub fn new() -> (l: CounterLock)
        ensures
            l.counter.value == 0,
            !l.held,
            !l.poisoned,
    {
        CounterLock { counter: Counter::new(), held: false, poisoned: false }
    }

    /// Acquisition. An actor blocks until the lock is free (so the model
    /// takes a free lock), then either obtains exclusive access or, when a
    /// prior holder did not release cleanly, gets a recoverable error to
    /// log and route around.
    pub fn acquire(&mut self) -> (r: Result<(), String>)
        requires
            !old(self).held,
        ensures
            r is Ok <==> !old(self).poisoned,
            old(self).poisoned ==> *final(self) == *old(self),
            !old(self).poisoned ==> final(self).held && !final(self).poisoned,
            final(self).counter == old(self).counter,
            final(self).poisoned == old(self).poisoned,
            r matches Err(m) ==> m@ == "lock poisoned"@,
    {
        if self.poisoned {
            Err(String::from_str("lock poisoned"))
        } else {
            self.held = true;
            Ok(())
        }
    }

    /// One read-modify-write increment under the lock.
    pub fn increment(&mut self)
        requires
            old(self).held,
            old(self).counter.value < i32::MAX,
        ensures
            final(self).counter.value == old(self).counter.value + 1,
            final(self).held,
            final(self).poisoned == old(self).poisoned,
    {
        self.counter.increment();
    }

    /// A clean release of exclusive access.
    pub fn release(&mut self)
        requires
            old(self).held,
        ensures
            !final(self).held,
            final(self).counter == old(self).counter,
            final(self).poisoned == old(self).poisoned,
    {
        self.held = false;
    }

    /// What an abnormal termination while holding the lock leaves behind:
    /// the lock is free again but marked poisoned.
    pub fn poison(&mut self)
        requires
            old(self).held,
        ensures
            !final(self).held,
            final(self).poisoned,
            final(self).counter == old(self).counter,
    {
        self.held = false;
        self.poisoned = true;
    }

    /// The serialized effect of `n` actors that each acquire, increment
    /// once, and release. On a clean lock no update is lost: the counter
    /// ends exactly `n` higher. On a poisoned lock every actor gets the
    /// recoverable error and skips, leaving the counter untouched.
    pub fn run_actors(&mut self, n: u32)
        requires
            !old(self).held,
            old(self).counter.value + n <= i32::MAX,
        ensures
            !old(self).poisoned ==> final(self).counter.value == old(self).counter.value + n,
            old(self).poisoned ==> final(self).counter.value == old(self).counter.value,
            !final(self).held,
            final(self).poisoned == old(self).poisoned,
    {
        let ghost start: int = self.counter.value as int;
        let ghost was_poisoned: bool = self.poisoned;
        let mut i: u32 = 0;
        while i < n
            invariant
                i <= n,
                start + n <= i32::MAX,
                !self.held,
                self.poisoned == was_poisoned,
                !self.poisoned ==> self.counter.value == start + i,
                self.poisoned ==> self.counter.value == start,
            decreases n - i,
        {
            match self.acquire() {
                Ok(()) => {
                    self.increment();
                    self.release();
                },
                Err(_) => {
                    // Recoverable: the actor logs the poisoned lock and
                    // moves on.
                },
            }
            i = i + 1;
        }
    }
}

/// The compute step of the workers that share a locked sequence: the worker
/// that owns index `i` doubles that entry, and one whose index is out of
/// range changes nothing. The report says which of the two happened.
pub fn double_entry(data: &mut Vec<i32>, i: usize) -> (r: bool)
    requires
        i < old(data)@.len() ==> i32::MIN <= 2 * old(data)@[i as int] <= i32::MAX,
    ensures
        r == (i < old(data)@.len()),
        r ==> final(data)@ == old(data)@.update(i as int, (2 * old(data)@[i as int]) as i32),
        !r ==> final(data)@ == old(data)@,
{
    if i < data.len() {
        let value = data[i];
        data[i] = 2 * value;
        true
    } else {
        false
    }
}

/// A sequence behind a read/write lock: any number of concurrent readers,
/// or one exclusive writer, never both at once.
#[derive(Debug)]
pub struct RwSequence {
    pub items: Vec<i32>,
    pub readers: u32,
    pub writer: bool,
}

impl RwSequence {
    /// Readers and a writer never coexist.
    pub open spec fn exclusive(self) -> bool {
        !(self.writer && self.readers > 0)
    }

    /// A fresh read/write-locked sequence holding `items`, with no lock
    /// taken.
    pub fn with_items(items: Vec<i32>) -> (rw: RwSequence)
        ensures
            rw.items == items,
            rw.readers == 0,
            !rw.writer,
            rw.exclusive(),
    {
        RwSequence { items, readers: 0, writer: false }
    }

    /// A reader is admitted only while no writer holds the lock, so it can
    /// never observe a write in progress.
    pub fn begin_read(&mut self)
        requires
            !old(self).writer,
            old(self).readers < u32::MAX,
        ensures
            final(self).readers == old(self).readers + 1,
            final(self).items == old(self).items,
            !final(self).writer,
            final(self).exclusive(),
    {
        self.readers = self.readers + 1;
    }

    /// A reader leaves.
    pub fn end_read(&mut self)
        requires
            old(self).readers > 0,
        ensures
            final(self).readers == old(self).readers - 1,
            final(self).items == old(self).items,
            final(self).writer == old(self).writer,
    {
        self.readers = self.readers - 1;
    }

    /// What an admitted reader observes: a consistent snapshot, equal to
    /// the whole sequence. Every reader admitted at the same time observes
    /// this same sequence.
    pub fn snapshot(&self) -> (r: Vec<i32>)
        requires
            self.readers > 0,
        ensures
            r@ == self.items@,
    {
        let mut copy: Vec<i32> = Vec::new();
        let mut i: usize = 0;
        while i < self.items.len()
            invariant
                0 <= i <= self.items@.len(),
                copy@ == self.items@.subrange(0, i as int),
            decreases self.items@.len() - i,
        {
            copy.push(self.items[i]);
            proof {
                assert(copy@ =~= self.items@.subrange(0, i + 1));
            }
            i = i + 1;
        }
        proof {
            assert(copy@ =~= self.items@);
        }
        copy
    }

    /// The writer is admitted only when the lock is completely free.
    pub fn begin_write(&mut self)
        requires
            !old(self).writer,
            old(self).readers == 0,
        ensures
            final(self).writer,
            final(self).readers == 0,
            final(self).items == old(self).items,
            final(self).exclusive(),
    {
        self.writer = true;
    }

    /// The writer appends one value.
    pub fn push_item(&mut self, value: i32)
        requires
            old(self).writer,
        ensures
            final(self).items@ == old(self).items@.push(value),
            final(self).writer,
            final(self).readers == old(self).readers,
    {
        self.items.push(value);
    }

    /// The writer releases the lock; its pushes stay in the sequence.
    pub fn end_write(&mut self)
        requires
            old(self).writer,
        ensures
            !final(self).writer,
            final(self).items == old(self).items,
            final(self).readers == old(self).readers,
    {
        self.writer = false;
    }

    /// A writer's push is visible to every reader that begins after the
    /// writer releases: writing one value and then reading yields the old
    /// sequence with that value appended.
    pub fn push_then_snapshot(&mut self, value: i32) -> (r: Vec<i32>)
        requires
            !old(self).writer,
            old(self).readers == 0,
        ensures
            r@ == old(self).items@.push(value),
            final(self).items@ == old(self).items@.push(value),
            final(self).readers == 0,
            !final(self).writer,
    {
        self.begin_write();
        self.push_item(value);
        self.end_write();
        self.begin_read();
        let snap = self.snapshot();
        self.end_read();
        snap
    }
}

/// The structural deadlock-avoidance rule for two resources: whatever order
/// the caller names them in, they are acquired in ascending identifier
/// order. Two actors that both follow this rule take the same first
/// resource, so neither can hold one resource while waiting for the other —
/// no circular wait can form.
pub fn acquisition_order(first: u64, second: u64) -> (r: (u64, u64))
    ensures
        r.0 <= r.1,
        (r.0 == first && r.1 == second) || (r.0 == second && r.1 == first),
{
    if first <= second {
        (first, second)
    } else {
        (second, first)
    }
}

} // verus!
