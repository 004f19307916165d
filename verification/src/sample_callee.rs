//! The sample Rust library that calls are tried against.
use vstd::prelude::*;

verus! {

/// The Fibonacci numbers, continued below zero by the identity.
pub open spec fn fibonacci(n: int) -> int
    decreases n,
{
    if n < 2 {
        n
    } else {
        fibonacci(n - 1) + fibonacci(n - 2)
    }
}

proof fn lemma_fibonacci_monotonic(i: int, j: int)
    requires
        0 <= i <= j,
    ensures
        0 <= fibonacci(i) <= fibonacci(j),
    decreases j,
{
    if j >= 2 {
        lemma_fibonacci_monotonic(0, j - 1);
        lemma_fibonacci_monotonic(0, j - 2);
        if i < j {
            lemma_fibonacci_monotonic(i, j - 1);
        }
    }
}

/// The `n`-th Fibonacci number; `n` itself below two.
pub fn fib(n: i32) -> (f: i64)
    requires
        fibonacci(n as int) <= i64::MAX,
    ensures
        f == fibonacci(n as int),
    decreases n,
{
    if n < 2 {
        n as i64
    } else {
        proof {
            lemma_fibonacci_monotonic(n - 1, n as int);
            lemma_fibonacci_monotonic(n - 2, n as int);
        }
        fib(n - 1) + fib(n - 2)
    }
}

} // verus!
