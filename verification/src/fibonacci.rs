//! The Fibonacci sequence, computed iteratively and proved against its
//! recursive definition.

use vstd::prelude::*;

verus! {

/// The mathematical Fibonacci sequence: 0, 1, 1, 2, 3, 5, ...
pub open spec fn fib_value(n: nat) -> nat
    decreases n,
{
    if n == 0 {
        0
    } else if n == 1 {
        1
    } else {
        fib_value((n - 2) as nat) + fib_value((n - 1) as nat)
    }
}

/// Whether the `n`th Fibonacci number fits in a `u64`.
pub open spec fn fib_fits_u64(n: nat) -> bool {
    fib_value(n) <= u64::MAX
}

/// The sequence never decreases from one index to a later one.
pub proof fn lemma_fib_monotonic(i: nat, j: nat)
    requires
        i <= j,
    ensures
        fib_value(i) <= fib_value(j),
    decreases j - i,
{
    if i < 2 && j < 2 {
        if i < j {
            assert(fib_value(0) == 0);
            assert(fib_value(1) == 1);
        }
    } else if i == j {
    } else if i == j - 1 {
        lemma_fib_monotonic(i, (j - 1) as nat);
    } else {
        lemma_fib_monotonic(i, (j - 1) as nat);
        lemma_fib_monotonic(i, (j - 2) as nat);
    }
}

/// The `n`th Fibonacci number, computed with two running values.
pub fn fib(n: u32) -> (r: u64)
    requires
        fib_fits_u64(n as nat),
    ensures
        r == fib_value(n as nat),
{
    match n {
        0 => 0,
        1 => 1,
        _ => {
            let mut prev: u64 = 0;
            let mut cur: u64 = 1;
            let mut k: u32 = 1;
            while k < n
                invariant
                    1 <= k <= n,
                    fib_fits_u64(n as nat),
                    prev == fib_value((k - 1) as nat),
                    cur == fib_value(k as nat),
                decreases n - k,
            {
                proof {
                    lemma_fib_monotonic((k + 1) as nat, n as nat);
                }
                let next: u64 = prev + cur;
                prev = cur;
                cur = next;
                k = k + 1;
            }
            cur
        },
    }
}

} // verus!
