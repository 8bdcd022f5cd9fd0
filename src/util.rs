use vstd::prelude::*;

verus! {

/// Ceiling of `n / d` over the integers.
pub open spec fn div_ceil(n: nat, d: nat) -> nat
    recommends
        d > 0,
{
    ((n + d - 1) as nat / d) as nat
}

/// Ceiling division on `usize`, computed without an intermediate overflow.
pub fn usize_div_ceil(numerator: usize, denominator: usize) -> (r: usize)
    requires
        denominator > 0,
    ensures
        r as nat == div_ceil(numerator as nat, denominator as nat),
{
    let q = numerator / denominator;
    proof {
        lemma_div_ceil_parts(numerator as nat, denominator as nat);
    }
    if numerator % denominator != 0 {
        q + 1
    } else {
        q
    }
}

/// Ceiling division on `u64`, computed without an intermediate overflow.
pub fn u64_div_ceil(numerator: u64, denominator: u64) -> (r: u64)
    requires
        denominator > 0,
    ensures
        r as nat == div_ceil(numerator as nat, denominator as nat),
{
    let q = numerator / denominator;
    proof {
        lemma_div_ceil_parts(numerator as nat, denominator as nat);
    }
    if numerator % denominator != 0 {
        q + 1
    } else {
        q
    }
}

/// The ceiling is the floor, plus one exactly when the division leaves a remainder.
pub proof fn lemma_div_ceil_parts(n: nat, d: nat)
    requires
        d > 0,
    ensures
        div_ceil(n, d) == n / d + (if n % d != 0 { 1nat } else { 0nat }),
        n / d <= n,
        n % d != 0 ==> n / d < n,
{
    let q = n / d;
    let m = n % d;
    assert(n == d * q + m) by (nonlinear_arith)
        requires
            d > 0,
            q == n / d,
            m == n % d,
    ;
    assert(0 <= m < d);
    if m != 0 {
        assert((n + d - 1) as nat / d == q + 1) by (nonlinear_arith)
            requires
                d > 0,
                n == d * q + m,
                0 < m < d,
        ;
    } else {
        assert((n + d - 1) as nat / d == q) by (nonlinear_arith)
            requires
                d > 0,
                n == d * q,
        ;
    }
    assert(n / d <= n) by (nonlinear_arith)
        requires
            d > 0,
            q == n / d,
            n == d * q + m,
            m >= 0,
            q >= 0,
    ;
    assert(m != 0 ==> q < n) by (nonlinear_arith)
        requires
            d > 0,
            n == d * q + m,
            m >= 0,
            q >= 0,
    ;
}

} // verus!
