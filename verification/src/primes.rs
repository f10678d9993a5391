//! A trial-division primality test and a counter built on it.

use vstd::prelude::*;

verus! {

/// Whether `n` has no divisor between 2 and `n / 2`.  This is the test the
/// counter applies; note that it holds vacuously of 0, 1, 2 and 3.
pub open spec fn spec_is_prime(n: u32) -> bool {
    forall|i: u32| 2 <= i <= n / 2 ==> #[trigger] (n as int % i as int) != 0
}

/// How many of the numbers 2, 3, .., `max - 1` pass the primality test.
pub open spec fn spec_prime_count(max: nat) -> nat
    decreases max,
{
    if max <= 2 {
        0
    } else {
        spec_prime_count((max - 1) as nat) + if spec_is_prime((max - 1) as u32) {
            1nat
        } else {
            0nat
        }
    }
}

/// Trial division: whether `n` has no divisor between 2 and `n / 2`.
pub fn is_prime(n: u32) -> (r: bool)
    ensures
        r == spec_is_prime(n),
{
    let mut i: u32 = 2;
    while i <= n / 2
        invariant
            2 <= i,
            forall|j: u32| 2 <= j < i ==> #[trigger] (n as int % j as int) != 0,
        decreases n / 2 + 1 - i,
    {
        if n % i == 0 {
            assert(!spec_is_prime(n));
            return false;
        }
        i = i + 1;
    }
    true
}

/// How many of the numbers 2, 3, .., `max - 1` pass the primality test.
pub fn count_primes(max: u32) -> (count: usize)
    ensures
        count == spec_prime_count(max as nat),
{
    let mut count: usize = 0;
    let mut n: u32 = 2;
    if max <= 2 {
        return 0;
    }
    while n < max
        invariant
            2 <= n <= max,
            count == spec_prime_count(n as nat),
            count < n,
        decreases max - n,
    {
        if is_prime(n) {
            count = count + 1;
        }
        n = n + 1;
    }
    count
}

} // verus!
