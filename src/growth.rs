//! The growth curve that decides how many unmutated copies of successful
//! controllers go into the next generation.
//!
//! With `g` successful agents out of a population of `n`, the curve is
//! `x = 2n - 2n / (1 + sqrt(g / n))`, rounded half away from zero and clamped
//! to `[0, n]`. Multiplying through, `x = 2n·√g / (√n + √g)`, and for
//! `1 <= k <= n` the test `x >= k - 1/2` becomes
//! `√g·(4n - 2k + 1) >= √n·(2k - 1)`, where both sides are non-negative, so it
//! may be squared. The rounded and clamped value is the largest `k <= n` that
//! passes the test (or `0`), which is computed here exactly, in integers.
use vstd::prelude::*;

verus! {

/// Whether the unrounded curve value for `g` successes out of `n` is at least
/// `k - 1/2`, stated without square roots (valid for `1 <= k <= n`).
pub open spec fn reaches_half_below(g: int, n: int, k: int) -> bool {
    g * ((4 * n - 2 * k + 1) * (4 * n - 2 * k + 1)) >= n * ((2 * k - 1) * (2 * k - 1))
}

/// The largest `j <= k` whose half-point the curve reaches, or `0`.
pub open spec fn rounded_at_most(g: nat, n: nat, k: nat) -> nat
    decreases k,
{
    if k == 0 {
        0
    } else if reaches_half_below(g as int, n as int, k as int) {
        k
    } else {
        rounded_at_most(g, n, (k - 1) as nat)
    }
}

/// The growth curve: `round(2n - 2n / (1 + sqrt(g / n)))`, clamped to `[0, n]`.
pub open spec fn growth_spec(g: nat, n: nat) -> nat {
    rounded_at_most(g, n, n)
}

proof fn lemma_rounded_at_most_bound(g: nat, n: nat, k: nat)
    ensures
        rounded_at_most(g, n, k) <= k,
    decreases k,
{
    if k > 0 {
        lemma_rounded_at_most_bound(g, n, (k - 1) as nat);
    }
}

proof fn lemma_half_below_monotonic(g1: nat, g2: nat, n: nat, k: nat)
    requires
        g1 <= g2,
        reaches_half_below(g1 as int, n as int, k as int),
    ensures
        reaches_half_below(g2 as int, n as int, k as int),
{
    let a = (4 * n - 2 * k + 1) * (4 * n - 2 * k + 1);
    assert(a >= 0) by (nonlinear_arith)
        requires
            a == (4 * n - 2 * k + 1) * (4 * n - 2 * k + 1),
    ;
    assert(g1 * a <= g2 * a) by (nonlinear_arith)
        requires
            g1 <= g2,
            a >= 0,
    ;
}

proof fn lemma_rounded_at_most_monotonic(g1: nat, g2: nat, n: nat, k: nat)
    requires
        g1 <= g2,
    ensures
        rounded_at_most(g1, n, k) <= rounded_at_most(g2, n, k),
    decreases k,
{
    if k > 0 {
        lemma_rounded_at_most_monotonic(g1, g2, n, (k - 1) as nat);
        lemma_rounded_at_most_bound(g1, n, (k - 1) as nat);
        if reaches_half_below(g1 as int, n as int, k as int) {
            lemma_half_below_monotonic(g1, g2, n, k);
        } else if reaches_half_below(g2 as int, n as int, k as int) {
        }
    }
}

/// The growth curve never decreases as the number of successes grows, and it
/// is zero when nobody succeeded.
pub proof fn lemma_growth_monotonic(g1: nat, g2: nat, n: nat)
    requires
        g1 <= g2,
    ensures
        growth_spec(g1, n) <= growth_spec(g2, n),
        growth_spec(0, n) == 0,
{
    lemma_rounded_at_most_monotonic(g1, g2, n, n);
    lemma_growth_of_zero(n, n);
}

proof fn lemma_growth_of_zero(n: nat, k: nat)
    requires
        k <= n,
    ensures
        rounded_at_most(0, n, k) == 0,
    decreases k,
{
    if k > 0 {
        if n > 0 {
            let b = (2 * k - 1) * (2 * k - 1);
            assert(n * b > 0) by (nonlinear_arith)
                requires
                    n > 0,
                    k > 0,
                    b == (2 * k - 1) * (2 * k - 1),
            ;
        }
        lemma_growth_of_zero(n, (k - 1) as nat);
    }
}

/// Once every agent succeeded (or more successes than agents are counted),
/// the curve gives the whole population.
pub proof fn lemma_growth_saturates(g: nat, n: nat)
    requires
        g >= n,
    ensures
        growth_spec(g, n) == n,
{
    if n > 0 {
        let a = (4 * n - 2 * n + 1) * (4 * n - 2 * n + 1);
        let b = (2 * n - 1) * (2 * n - 1);
        assert(g * a >= n * b) by (nonlinear_arith)
            requires
                g >= n,
                n > 0,
                a == (2 * n + 1) * (2 * n + 1),
                b == (2 * n - 1) * (2 * n - 1),
        ;
    }
}

/// Number of unmutated copies of successful controllers to put into a
/// population of `population` agents when `reached` of them succeeded.
pub fn growth(reached: u32, population: u32) -> (r: u32)
    ensures
        r == growth_spec(reached as nat, population as nat),
        r <= population,
{
    let g = reached as u128;
    let n = population as u128;
    let mut k: u32 = population;
    while k > 0
        invariant
            k <= population,
            g == reached,
            n == population,
            rounded_at_most(reached as nat, population as nat, k as nat) == growth_spec(
                reached as nat,
                population as nat,
            ),
        decreases k,
    {
        let kk = k as u128;
        let a = 4 * n - 2 * kk + 1;
        let b = 2 * kk - 1;
        assert(a * a <= 0x4_0000_0000 * 0x4_0000_0000) by (nonlinear_arith)
            requires
                0 <= a <= 0x4_0000_0000,
        ;
        assert(g * (a * a) <= 0x1_0000_0000 * (0x4_0000_0000 * 0x4_0000_0000)) by (nonlinear_arith)
            requires
                0 <= g <= 0x1_0000_0000,
                0 <= a * a <= 0x4_0000_0000 * 0x4_0000_0000,
        ;
        assert(b * b <= 0x4_0000_0000 * 0x4_0000_0000) by (nonlinear_arith)
            requires
                0 <= b <= 0x4_0000_0000,
        ;
        assert(n * (b * b) <= 0x1_0000_0000 * (0x4_0000_0000 * 0x4_0000_0000)) by (nonlinear_arith)
            requires
                0 <= n <= 0x1_0000_0000,
                0 <= b * b <= 0x4_0000_0000 * 0x4_0000_0000,
        ;
        if g * (a * a) >= n * (b * b) {
            proof {
                lemma_rounded_at_most_bound(reached as nat, population as nat, k as nat);
            }
            return k;
        }
        k = k - 1;
    }
    proof {
        lemma_rounded_at_most_bound(reached as nat, population as nat, 0);
    }
    0
}

} // verus!
