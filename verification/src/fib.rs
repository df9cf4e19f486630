//! The Fibonacci function, as a mathematical definition and as several
//! executable implementations, each proved equal to the definition.

use std::collections::HashMap;
use vstd::prelude::*;

verus! {

broadcast use vstd::std_specs::hash::group_hash_axioms;

/// The Fibonacci sequence: 0, 1, 1, 2, 3, 5, 8, 13, 21, 34, ...
pub open spec fn fib(n: nat) -> nat
    decreases n,
{
    if n == 0 {
        0
    } else if n == 1 {
        1
    } else {
        fib((n - 2) as nat) + fib((n - 1) as nat)
    }
}

/// The sequence never decreases from one index to the next.
pub proof fn lemma_fib_monotonic(i: nat, j: nat)
    requires
        i <= j,
    ensures
        fib(i) <= fib(j),
    decreases j - i,
{
    if i < j {
        lemma_fib_monotonic(i, (j - 1) as nat);
        if j >= 2 {
            assert(fib(j) == fib((j - 2) as nat) + fib((j - 1) as nat));
        }
    }
}

/// From the sixth index on, the sequence grows past its index.
pub proof fn lemma_fib_exceeds_index(n: nat)
    requires
        n >= 6,
    ensures
        fib(n) > n,
    decreases n,
{
    if n == 6 {
        assert(fib(6) == 8) by {
            reveal_with_fuel(fib, 7);
        }
    } else if n == 7 {
        assert(fib(7) == 13) by {
            reveal_with_fuel(fib, 8);
        }
    } else {
        lemma_fib_exceeds_index((n - 1) as nat);
        lemma_fib_exceeds_index((n - 2) as nat);
    }
}

/// Powers of two, for bounding the growth of the sequence.
pub open spec fn two_pow(k: nat) -> nat
    decreases k,
{
    if k == 0 {
        1
    } else {
        2 * two_pow((k - 1) as nat)
    }
}

/// Powers of two never decrease with the exponent.
pub proof fn lemma_two_pow_monotonic(i: nat, j: nat)
    requires
        i <= j,
    ensures
        two_pow(i) <= two_pow(j),
    decreases j - i,
{
    if i < j {
        lemma_two_pow_monotonic(i, (j - 1) as nat);
    }
}

/// From the first index on, the sequence stays below the matching power
/// of two.
pub proof fn lemma_fib_lt_two_pow(n: nat)
    requires
        1 <= n,
    ensures
        fib(n) < two_pow(n),
    decreases n,
{
    if n <= 2 {
        assert(fib(2) == 1 && two_pow(1) == 2 && two_pow(2) == 4) by {
            reveal_with_fuel(fib, 3);
            reveal_with_fuel(two_pow, 3);
        }
    } else {
        lemma_fib_lt_two_pow((n - 1) as nat);
        lemma_fib_lt_two_pow((n - 2) as nat);
        assert(two_pow(n) == 2 * two_pow((n - 1) as nat));
        assert(two_pow((n - 1) as nat) == 2 * two_pow((n - 2) as nat));
    }
}

/// The sixty-third power of two, written out.
proof fn lemma_two_pow_63()
    ensures
        two_pow(63) == 0x8000000000000000,
{
    reveal_with_fuel(two_pow, 64);
}

/// Any input up to 63 keeps the value within 64-bit arithmetic.
pub proof fn lemma_fib_fits_u64(n: nat)
    requires
        n <= 63,
    ensures
        fib(n) <= u64::MAX,
{
    if n >= 1 {
        lemma_fib_lt_two_pow(n);
        lemma_two_pow_monotonic(n, 63);
        lemma_two_pow_63();
    }
}

/// Plain recursion, exactly as the definition reads.
pub fn fibonacci(n: u32) -> (r: u32)
    requires
        fib(n as nat) <= u32::MAX,
    ensures
        r == fib(n as nat),
    decreases n,
{
    if n < 2 {
        n
    } else {
        fibonacci(n - 1) + fibonacci(n - 2)
    }
}

/// Recursion written with a `match` on the argument.
pub fn fibonacci_match(n: u32) -> (r: u32)
    requires
        fib(n as nat) <= u32::MAX,
    ensures
        r == fib(n as nat),
{
    match n {
        0 => 0,
        1 => 1,
        _ => fibonacci(n - 1) + fibonacci(n - 2),
    }
}

/// Bottom-up dynamic programming over a table of all values up to `n`.
pub fn fibonacci_dp(n: u32) -> (r: u32)
    requires
        fib(n as nat) <= u32::MAX,
    ensures
        r == fib(n as nat),
{
    if n == 0 {
        return 0;
    }
    proof {
        if n >= 6 {
            lemma_fib_exceeds_index(n as nat);
        }
    }
    let mut table: Vec<u32> = vec![0; (n + 1) as usize];
    table[1] = 1;
    let mut i: usize = 2;
    while i <= n as usize
        invariant
            2 <= i <= n as usize + 1,
            table.len() == n as usize + 1,
            forall|k: int| 0 <= k < i ==> table[k] == fib(k as nat),
            fib(n as nat) <= u32::MAX,
        decreases n as usize + 1 - i,
    {
        proof {
            lemma_fib_monotonic(i as nat, n as nat);
        }
        let next = table[i - 1] + table[i - 2];
        table[i] = next;
        i = i + 1;
    }
    table[n as usize]
}

/// Every entry of the memo table is a correct value of the sequence.
pub open spec fn memo_valid(m: Map<u32, u32>) -> bool {
    forall|k: u32| m.contains_key(k) ==> m[k] == fib(k as nat)
}

/// Recursion with a memo table shared across calls. The table only ever
/// grows: every entry present before the call survives unchanged, the
/// requested index is present afterwards, and a call that hits the table
/// leaves it exactly as it was.
pub fn fibonacci_memo(n: u32, memo: &mut HashMap<u32, u32>) -> (r: u32)
    requires
        fib(n as nat) <= u32::MAX,
        memo_valid(old(memo)@),
    ensures
        r == fib(n as nat),
        memo_valid(final(memo)@),
        final(memo)@.contains_key(n),
        forall|k: u32| #[trigger]
            old(memo)@.contains_key(k) ==> final(memo)@.contains_key(k) && final(memo)@[k]
                == old(memo)@[k],
        old(memo)@.contains_key(n) ==> final(memo)@ == old(memo)@,
    decreases n,
{
    let ghost m0 = memo@;
    match memo.get(&n) {
        Some(result) => {
            return *result;
        },
        None => {},
    }
    assert(!m0.contains_key(n));
    let result = if n < 2 {
        n
    } else {
        let r1 = fibonacci_memo(n - 1, memo);
        let ghost m1 = memo@;
        let r2 = fibonacci_memo(n - 2, memo);
        proof {
            assert forall|k: u32| m0.contains_key(k) implies memo@.contains_key(k) && memo@[k]
                == m0[k] by {
                assert(m1.contains_key(k) && m1[k] == m0[k]);
            }
        }
        r1 + r2
    };
    let ghost m2 = memo@;
    memo.insert(n, result);
    proof {
        assert forall|k: u32| m0.contains_key(k) implies memo@.contains_key(k) && memo@[k]
            == m0[k] by {
            assert(m2.contains_key(k) && m2[k] == m0[k]);
            assert(k != n);
        }
    }
    result
}

/// Iteration over a sliding pair of values, constant extra space.
pub fn fibonacci_iterative(n: u32) -> (r: u32)
    requires
        fib(n as nat) <= u32::MAX,
    ensures
        r == fib(n as nat),
{
    if n == 0 {
        return 0;
    }
    let mut a: u32 = 0;
    let mut b: u32 = 1;
    let mut i: u32 = 1;
    while i < n
        invariant
            1 <= i <= n,
            a == fib((i - 1) as nat),
            b == fib(i as nat),
            fib(n as nat) <= u32::MAX,
        decreases n - i,
    {
        proof {
            lemma_fib_monotonic((i + 1) as nat, n as nat);
        }
        let temp = b;
        b = a + b;
        a = temp;
        i = i + 1;
    }
    b
}

/// The same iteration in 64-bit arithmetic, for the wider inputs the
/// service admits.
pub fn fibonacci_u64(n: u32) -> (r: u64)
    requires
        fib(n as nat) <= u64::MAX,
    ensures
        r == fib(n as nat),
{
    if n == 0 {
        return 0;
    }
    let mut a: u64 = 0;
    let mut b: u64 = 1;
    let mut i: u32 = 1;
    while i < n
        invariant
            1 <= i <= n,
            a == fib((i - 1) as nat),
            b == fib(i as nat),
            fib(n as nat) <= u64::MAX,
        decreases n - i,
    {
        proof {
            lemma_fib_monotonic((i + 1) as nat, n as nat);
        }
        let temp = b;
        b = a + b;
        a = temp;
        i = i + 1;
    }
    b
}

} // verus!
