//! Bounded recursion and a large, element-by-element allocation.
//!
//! Both recursions compute the sum 0 + 1 + ... + n. The unguarded form is
//! the exercise's stack-overflow demonstration and puts no ceiling on the
//! depth; the guarded form cuts off above 1000 and returns its argument
//! unchanged there, as the exercise prescribes.

use vstd::prelude::*;

verus! {

/// Unbounded recursive summation: `0 + 1 + ... + n`. The precondition only
/// keeps the sum inside the 32-bit result; deep inputs still exhaust the
/// call stack at run time, which is the point of the demonstration.
pub fn deep_recursion(n: u32) -> (r: u32)
    requires
        n * (n + 1) / 2 <= u32::MAX,
    ensures
        r == n * (n + 1) / 2,
    decreases n,
{
    if n == 0 {
        0
    } else {
        proof {
            assert((n - 1) * n / 2 + n == n * (n + 1) / 2) by (nonlinear_arith);
        }
        n + deep_recursion(n - 1)
    }
}

/// Depth-limited recursive summation: `0 + 1 + ... + n` for `n` up to 1000,
/// and `n` itself beyond the limit.
pub fn safe_recursion(n: u32) -> (r: u32)
    ensures
        n <= 1000 ==> r == n * (n + 1) / 2,
        n > 1000 ==> r == n,
    decreases n,
{
    if n == 0 {
        0
    } else if n > 1000 {
        n
    } else {
        let rest = safe_recursion(n - 1);
        proof {
            assert((n - 1) * n / 2 + n == n * (n + 1) / 2) by (nonlinear_arith);
            assert(n * (n + 1) / 2 <= 500500) by (nonlinear_arith)
                requires
                    n <= 1000,
            ;
        }
        n + rest
    }
}

/// Fills a million-byte buffer, each entry the low byte of its index.
/// Allocation is performed step by step, so success is owed on every run.
pub fn try_large_allocation() -> (r: Result<Vec<u8>, String>)
    ensures
        r matches Ok(data) && data@.len() == 1000000 && (forall|i: int|
            0 <= i < 1000000 ==> data@[i] as int == i % 256),
{
    let size: usize = 1000000;
    let mut data: Vec<u8> = Vec::with_capacity(size);
    let mut i: usize = 0;
    while i < size
        invariant
            0 <= i <= size,
            size == 1000000,
            data@.len() == i,
            forall|j: int| 0 <= j < i ==> data@[j] as int == j % 256,
        decreases size - i,
    {
        data.push((i % 256) as u8);
        i = i + 1;
    }
    Ok(data)
}

} // verus!
