//! Naive and memoized Fibonacci.
//!
//! Both executable forms return exactly `fib(n)`, so they agree wherever both
//! are defined; only their running times differ. Results accumulate in a
//! 64-bit unsigned integer, so inputs whose value would not fit (`n` beyond
//! 93) are out of scope, as `fib_fits_u64` states.

use vstd::prelude::*;

verus! {

/// The Fibonacci sequence: 0, 1, 1, 2, 3, 5, ...
pub open spec fn fib(n: nat) -> nat
    decreases n,
{
    if n == 0 {
        0
    } else if n == 1 {
        1
    } else {
        fib((n - 1) as nat) + fib((n - 2) as nat)
    }
}

/// The value `fib(n)` fits in the 64-bit accumulator. This holds for all
/// `n <= 93` and fails from 94 on.
pub open spec fn fib_fits_u64(n: nat) -> bool {
    fib(n) <= u64::MAX
}

/// Fibonacci never decreases, so every intermediate value of a computation
/// of `fib(n)` fits whenever `fib(n)` itself does.
pub proof fn lemma_fib_monotonic(i: nat, j: nat)
    requires
        i <= j,
    ensures
        fib(i) <= fib(j),
    decreases j - i,
{
    if i < j && j >= 2 {
        lemma_fib_monotonic(i, (j - 1) as nat);
    }
}

/// The anti-pattern kept for contrast: doubly recursive, exponential time.
/// It still returns exactly `fib(n)`.
pub fn fibonacci_inefficient(n: u32) -> (r: u64)
    requires
        fib_fits_u64(n as nat),
    ensures
        r == fib(n as nat),
    decreases n,
{
    if n <= 1 {
        n as u64
    } else {
        proof {
            lemma_fib_monotonic((n - 1) as nat, n as nat);
            lemma_fib_monotonic((n - 2) as nat, n as nat);
        }
        fibonacci_inefficient(n - 1) + fibonacci_inefficient(n - 2)
    }
}

/// Memoized Fibonacci: builds the table of partial results from index 0
/// upward, so it runs in time and storage proportional to `n`.
pub fn fibonacci_optimized(n: u32) -> (r: u64)
    requires
        fib_fits_u64(n as nat),
    ensures
        r == fib(n as nat),
{
    if n <= 1 {
        return n as u64;
    }
    let n_us: usize = n as usize;
    let mut memo: Vec<u64> = Vec::new();
    memo.push(0);
    memo.push(1);
    while memo.len() <= n_us
        invariant
            2 <= memo@.len() <= n_us + 1,
            n_us == n as usize,
            fib_fits_u64(n as nat),
            forall|k: int| 0 <= k < memo@.len() ==> memo@[k] == fib(k as nat),
        decreases n_us + 1 - memo@.len(),
    {
        let i = memo.len();
        proof {
            lemma_fib_monotonic(i as nat, n as nat);
        }
        let next: u64 = memo[i - 1] + memo[i - 2];
        memo.push(next);
    }
    memo[n_us]
}

/// The two variants agree wherever both are defined: any results the naive
/// and the memoized form can return for the same input are the same number
/// (in particular, they agree on every `n` up to 20).
pub proof fn lemma_fib_variants_agree(n: u32, slow: u64, fast: u64)
    requires
        call_ensures(fibonacci_inefficient, (n,), slow),
        call_ensures(fibonacci_optimized, (n,), fast),
    ensures
        slow == fast,
{
}

} // verus!
