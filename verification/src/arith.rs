//! Small numeric helpers: addition, a couple of constants, and the
//! fibonacci sequence as this library counts it (starting 1, 2, 3, 5, ...).

use vstd::prelude::*;

verus! {

/// The sum of two numbers.
pub fn add(left: usize, right: usize) -> (sum: usize)
    requires
        left + right <= usize::MAX,
    ensures
        sum == left + right,
{
    left + right
}

/// The constant five.
pub fn five() -> (r: i32)
    ensures
        r == 5,
{
    5
}

/// One more than the argument.
pub fn plus_one(x: i32) -> (r: i32)
    requires
        x < i32::MAX,
    ensures
        r == x + 1,
{
    x + 1
}

/// The fibonacci sequence with `fib(1) == 1` and `fib(2) == 2`.
pub open spec fn fib(n: nat) -> nat
    decreases n,
{
    if n <= 1 {
        1
    } else if n == 2 {
        2
    } else {
        fib((n - 1) as nat) + fib((n - 2) as nat)
    }
}

/// The sequence never decreases as the index grows.
pub proof fn lemma_fib_is_monotonic(i: nat, j: nat)
    requires
        i <= j,
    ensures
        fib(i) <= fib(j),
    decreases j - i,
{
    if i < j {
        lemma_fib_is_monotonic(i, (j - 1) as nat);
        if j >= 3 {
            assert(fib(j) == fib((j - 1) as nat) + fib((j - 2) as nat));
        }
    }
}

/// The `n`th fibonacci number, computed by the direct recursion.
pub fn fibonacci_sequence(n: u32) -> (r: u32)
    requires
        1 <= n,
        fib(n as nat) <= u32::MAX,
    ensures
        r == fib(n as nat),
    decreases n,
{
    if n == 1 {
        return 1;
    }
    if n == 2 {
        return 2;
    }
    proof {
        lemma_fib_is_monotonic((n - 1) as nat, n as nat);
        lemma_fib_is_monotonic((n - 2) as nat, n as nat);
    }
    let a = fibonacci_sequence(n - 1);
    let b = fibonacci_sequence(n - 2);
    a + b
}

} // verus!
