use vstd::arithmetic::mul::lemma_mul_inequality;
use vstd::prelude::*;

verus! {

/// Attempts past this one all wait as long as this one does (before the cap).
pub const DOUBLING_LIMIT: u64 = 16;

pub open spec fn pow2(n: nat) -> nat
    decreases n,
{
    if n == 0 {
        1
    } else {
        2 * pow2((n - 1) as nat)
    }
}

/// The exponent step used for a given attempt: `min(attempt, 16) - 1`.
pub open spec fn doubling_steps(attempt: nat) -> nat {
    if attempt < DOUBLING_LIMIT {
        (attempt - 1) as nat
    } else {
        (DOUBLING_LIMIT - 1) as nat
    }
}

/// `min(base_delay * 2^(min(attempt, 16) - 1), max_delay)`, over unbounded integers.
pub open spec fn backoff_spec(base_delay: u64, max_delay: u64, attempt: nat) -> nat {
    let raw: nat = (base_delay * pow2(doubling_steps(attempt))) as nat;
    if raw <= max_delay {
        raw
    } else {
        max_delay as nat
    }
}

pub proof fn lemma_pow2_monotone(a: nat, b: nat)
    requires
        a <= b,
    ensures
        1 <= pow2(a) <= pow2(b),
    decreases b,
{
    if b > a {
        lemma_pow2_monotone(a, (b - 1) as nat);
    } else if a > 0 {
        lemma_pow2_monotone((a - 1) as nat, (a - 1) as nat);
    }
}

/// Backoff delay for the given attempt (counted from 1), in seconds.
///
/// The product is computed without overflow: when it would not fit in `u64`
/// it is certainly above `max_delay`, so the cap is returned.
pub fn backoff_delay(base_delay: u64, max_delay: u64, attempt: u64) -> (r: u64)
    requires
        attempt >= 1,
    ensures
        r == backoff_spec(base_delay, max_delay, attempt as nat),
        r <= max_delay,
{
    let steps: u64 = if attempt < DOUBLING_LIMIT {
        attempt - 1
    } else {
        DOUBLING_LIMIT - 1
    };
    let mut factor: u64 = 1;
    let mut i: u64 = 0;
    while i < steps
        invariant
            i <= steps,
            steps == doubling_steps(attempt as nat),
            steps < DOUBLING_LIMIT,
            factor == pow2(i as nat),
        decreases steps - i,
    {
        proof {
            lemma_pow2_monotone(i as nat, 14);
            reveal_with_fuel(pow2, 15);
            assert(pow2(14) == 16384);
        }
        factor = factor * 2;
        i = i + 1;
    }
    match base_delay.checked_mul(factor) {
        Some(raw) => {
            if raw <= max_delay {
                raw
            } else {
                max_delay
            }
        },
        None => max_delay,
    }
}

/// The delay never shrinks as attempts accumulate, and never exceeds `max_delay`.
pub proof fn lemma_backoff_monotone_and_capped(base_delay: u64, max_delay: u64, a: nat, b: nat)
    requires
        1 <= a <= b,
    ensures
        backoff_spec(base_delay, max_delay, a) <= backoff_spec(base_delay, max_delay, b),
        backoff_spec(base_delay, max_delay, b) <= max_delay,
{
    let sa = doubling_steps(a);
    let sb = doubling_steps(b);
    lemma_pow2_monotone(sa, sb);
    lemma_mul_inequality(pow2(sa) as int, pow2(sb) as int, base_delay as int);
    assert(pow2(sa) * base_delay <= pow2(sb) * base_delay);
    assert(base_delay * pow2(sa) <= base_delay * pow2(sb)) by (nonlinear_arith)
        requires
            pow2(sa) * base_delay <= pow2(sb) * base_delay,
    ;
}

} // verus!
