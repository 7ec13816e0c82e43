//! A shared counter incremented one step at a time.
//!
//! The counter itself is plain sequential data; the demonstration programs
//! wrap it in a mutual-exclusion lock and hand it to worker threads. The
//! contracts here pin down the serialized effect of those workers: every
//! increment adds exactly one, so a run of `n` increments adds exactly `n`
//! and no update is lost.

use vstd::prelude::*;

verus! {

/// A single integer value, incremented under a mutual-exclusion lock by the
/// demonstration programs.
#[derive(Debug)]
pub struct Counter {
    pub value: i32,
}

impl Counter {
    /// A fresh counter starts at zero.
    pub fn new() -> (c: Counter)
        ensures
            c.value == 0,
    {
        Counter { value: 0 }
    }

    /// One read-modify-write step: the value grows by exactly one.
    pub fn increment(&mut self)
        requires
            old(self).value < i32::MAX,
        ensures
            final(self).value == old(self).value + 1,
    {
        self.value = self.value + 1;
    }

    /// The current value.
    pub fn get_value(&self) -> (v: i32)
        ensures
            v == self.value,
    {
        self.value
    }

    /// One read-modify-write step of an arbitrary amount.
    pub fn add(&mut self, amount: i32)
        requires
            i32::MIN <= old(self).value + amount <= i32::MAX,
        ensures
            final(self).value == old(self).value + amount,
    {
        self.value = self.value + amount;
    }

    /// The serialized effect of `n` actors where actor `i` adds its own
    /// index `i`: the final value is the initial value plus
    /// `0 + 1 + ... + (n - 1) = n * (n - 1) / 2`, with no lost updates.
    pub fn add_actors(&mut self, n: u32)
        requires
            n <= i32::MAX,
            old(self).value + n * (n - 1) / 2 <= i32::MAX,
        ensures
            final(self).value == old(self).value + n * (n - 1) / 2,
    {
        let ghost start: int = self.value as int;
        let mut i: u32 = 0;
        while i < n
            invariant
                i <= n,
                n <= i32::MAX,
                start >= i32::MIN,
                start + n * (n - 1) / 2 <= i32::MAX,
                self.value == start + i * (i - 1) / 2,
            decreases n - i,
        {
            proof {
                assert(i * (i - 1) / 2 >= 0) by (nonlinear_arith);
                assert(i * (i - 1) / 2 + i == (i + 1) * i / 2) by (nonlinear_arith);
                assert((i + 1) * i / 2 <= n * (n - 1) / 2) by (nonlinear_arith)
                    requires
                        0 <= i < n,
                ;
            }
            self.add(i as i32);
            i = i + 1;
        }
    }

    /// The serialized effect of `n` actors that each perform exactly one
    /// increment: the final value is the initial value plus `n`, with no
    /// lost updates.
    pub fn increment_n(&mut self, n: u32)
        requires
            old(self).value + n <= i32::MAX,
        ensures
            final(self).value == old(self).value + n,
    {
        let ghost start: int = self.value as int;
        let mut i: u32 = 0;
        while i < n
            invariant
                i <= n,
                start + n <= i32::MAX,
                self.value == start + i,
            decreases n - i,
        {
            self.increment();
            i = i + 1;
        }
    }
}

} // verus!
