//! The Fibonacci sequence computed three ways — with a bare loop, with a
//! while loop, and by iterating over a range — all against one spec.

use vstd::prelude::*;

verus! {

/// The Fibonacci sequence as these computations produce it: the first two
/// entries are 1, every later one the sum of the two before it.
pub open spec fn fib(n: nat) -> nat
    decreases n,
{
    if n <= 2 {
        1
    } else {
        fib((n - 1) as nat) + fib((n - 2) as nat)
    }
}

/// Each entry is at most the next one.
pub proof fn lemma_fib_step(n: nat)
    ensures
        fib(n) <= fib(n + 1),
{
}

/// The sequence never decreases.
pub proof fn lemma_fib_monotone(m: nat, n: nat)
    requires
        m <= n,
    ensures
        fib(m) <= fib(n),
    decreases n - m,
{
    if m < n {
        lemma_fib_monotone(m, (n - 1) as nat);
        lemma_fib_step((n - 1) as nat);
    }
}

/// The largest index whose entry still fits in eight bits.
pub proof fn lemma_fib_13()
    ensures
        fib(13) == 233,
{
    reveal_with_fuel(fib, 14);
}

/// Runs at least one step, so for `n` below 3 it lands on the third entry;
/// the bound on `n` keeps every entry it touches within eight bits.
pub fn fib_loop(n: u8) -> (r: u8)
    requires
        n <= 13,
    ensures
        r == fib(if n <= 3 { 3nat } else { n as nat }),
{
    let mut a: u8 = 1;
    let mut b: u8 = 1;
    let mut i: u8 = 2;
    loop
        invariant_except_break
            i == 2 || i < n,
        invariant
            2 <= i <= 13,
            n <= 13,
            a == fib((i - 1) as nat),
            b == fib(i as nat),
        ensures
            i >= n,
            i == 3 || i <= n,
            3 <= i <= 13,
            b == fib(i as nat),
        decreases 13 - i,
    {
        proof {
            lemma_fib_monotone((i + 1) as nat, 13);
            lemma_fib_13();
        }
        let c = a + b;
        a = b;
        b = c;
        i = i + 1;
        if i >= n {
            break ;
        }
    }
    b
}

/// Runs no step for `n` below 3, so it lands on the second entry then.
pub fn fib_while(n: u8) -> (r: u8)
    requires
        n <= 13,
    ensures
        r == fib(if n <= 2 { 2nat } else { n as nat }),
{
    let mut a: u8 = 1;
    let mut b: u8 = 1;
    let mut i: u8 = 2;
    while i < n
        invariant
            2 <= i <= 13,
            i <= n || i == 2,
            n <= 13,
            a == fib((i - 1) as nat),
            b == fib(i as nat),
        decreases n - i,
    {
        proof {
            lemma_fib_monotone((i + 1) as nat, 13);
            lemma_fib_13();
        }
        let c = a + b;
        a = b;
        b = c;
        i = i + 1;
    }
    b
}

/// The range-driven variant: the same walk as [`fib_while`].
pub fn fib_for(n: u8) -> (r: u8)
    requires
        n <= 13,
    ensures
        r == fib(if n <= 2 { 2nat } else { n as nat }),
{
    let mut a: u8 = 1;
    let mut b: u8 = 1;
    let mut i: u8 = 2;
    while i < n
        invariant
            2 <= i <= 13,
            i <= n || i == 2,
            n <= 13,
            a == fib((i - 1) as nat),
            b == fib(i as nat),
        decreases n - i,
    {
        proof {
            lemma_fib_monotone((i + 1) as nat, 13);
            lemma_fib_13();
        }
        let c = a + b;
        a = b;
        b = c;
        i = i + 1;
    }
    b
}

} // verus!
