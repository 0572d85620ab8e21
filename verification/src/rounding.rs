//! Rational powers of small integers, rounded to the nearest integer.
use crate::natural::Natural;
use vstd::prelude::*;

verus! {

/// `r` is `base^(num/den)` rounded to the nearest integer: the power lies
/// between `r - 1/2` and `r + 1/2`. Both sides are doubled and raised to the
/// power of `den`, which leaves integers only.
pub open spec fn rounds_to(base: int, num: nat, den: nat, r: int) -> bool {
    &&& 1 <= r
    &&& vstd::arithmetic::power::pow(2 * r - 1, den) <= doubled_power(base, num, den)
    &&& doubled_power(base, num, den) < vstd::arithmetic::power::pow(2 * r + 1, den)
}

/// `(2 * base^(num/den))^den`.
pub open spec fn doubled_power(base: int, num: nat, den: nat) -> int {
    vstd::arithmetic::power::pow(2, den) * vstd::arithmetic::power::pow(base, num)
}

/// `base^(num/den)` rounded to the nearest integer.
pub open spec fn rounded_power(base: int, num: nat, den: nat) -> int {
    choose|r: int| rounds_to(base, num, den, r)
}

/// A larger base gives a larger power.
pub proof fn lemma_pow_grows_with_base(a: int, b: int, e: nat)
    requires
        0 <= a < b,
        e > 0,
    ensures
        vstd::arithmetic::power::pow(a, e) < vstd::arithmetic::power::pow(b, e),
        0 <= vstd::arithmetic::power::pow(a, e),
    decreases e,
{
    reveal(vstd::arithmetic::power::pow);
    if e == 1 {
        vstd::arithmetic::power::lemma_pow1(a);
        vstd::arithmetic::power::lemma_pow1(b);
    } else {
        lemma_pow_grows_with_base(a, b, (e - 1) as nat);
        let p = vstd::arithmetic::power::pow(a, (e - 1) as nat);
        let q = vstd::arithmetic::power::pow(b, (e - 1) as nat);
        assert(0 <= a * p && a * p < b * q) by (nonlinear_arith)
            requires
                0 <= a < b,
                0 <= p < q,
        ;
    }
}

/// No power rounds to two integers.
pub proof fn lemma_rounding_is_unique(base: int, num: nat, den: nat, r: int, s: int)
    requires
        den > 0,
        rounds_to(base, num, den, r),
        rounds_to(base, num, den, s),
    ensures
        r == s,
{
    if r < s && 2 * r + 1 < 2 * s - 1 {
        lemma_pow_grows_with_base(2 * r + 1, 2 * s - 1, den);
    }
    if s < r && 2 * s + 1 < 2 * r - 1 {
        lemma_pow_grows_with_base(2 * s + 1, 2 * r - 1, den);
    }
}

/// What rounds to `r` is named `r`.
pub proof fn lemma_rounded_power(base: int, num: nat, den: nat, r: int)
    requires
        den > 0,
        rounds_to(base, num, den, r),
    ensures
        rounded_power(base, num, den) == r,
{
    lemma_rounding_is_unique(base, num, den, r, rounded_power(base, num, den));
}

/// The power of zero rounds to one.
pub proof fn lemma_power_zero(base: int, den: nat)
    requires
        den > 0,
    ensures
        rounds_to(base, 0, den, 1),
{
    vstd::arithmetic::power::lemma_pow0(base);
    lemma_pow_grows_with_base(1, 2, den);
    lemma_pow_grows_with_base(2, 3, den);
}

/// The power of one rounds to the base itself.
pub proof fn lemma_power_one(base: int, den: nat)
    requires
        den > 0,
        base >= 1,
    ensures
        rounds_to(base, den, den, base),
{
    vstd::arithmetic::power::lemma_pow_distributes(2, base, den);
    lemma_pow_grows_with_base(2 * base - 1, 2 * base, den);
    lemma_pow_grows_with_base(2 * base, 2 * base + 1, den);
}

/// A power of at most one keeps the doubled power below the next odd number's.
pub proof fn lemma_doubled_power_bound(base: int, num: nat, den: nat)
    requires
        den > 0,
        num <= den,
        base >= 1,
    ensures
        1 <= doubled_power(base, num, den),
        doubled_power(base, num, den) < vstd::arithmetic::power::pow(2 * base + 1, den),
{
    lemma_power_one(base, den);
    lemma_power_zero(base, den);
    lemma_doubled_power_grows(base, num, den, den);
    lemma_doubled_power_grows(base, 0, num, den);
    vstd::arithmetic::power::lemma1_pow(den);
}

/// A larger exponent gives at least as large a power.
pub proof fn lemma_doubled_power_grows(base: int, num: nat, more: nat, den: nat)
    requires
        base >= 1,
        num <= more,
    ensures
        doubled_power(base, num, den) <= doubled_power(base, more, den),
{
    vstd::arithmetic::power::lemma_pow_increases(base as nat, num, more);
    vstd::arithmetic::power::lemma_pow_positive(2, den);
    let t = vstd::arithmetic::power::pow(2, den);
    let p = vstd::arithmetic::power::pow(base, num);
    let q = vstd::arithmetic::power::pow(base, more);
    assert(t * p <= t * q) by (nonlinear_arith)
        requires
            0 < t,
            p <= q,
    ;
}

/// An exponent of at most one always rounds to some integer, at most the base.
pub proof fn lemma_rounding_exists(base: int, num: nat, den: nat) -> (r: int)
    requires
        den > 0,
        num <= den,
        base >= 1,
    ensures
        1 <= r <= base,
        rounds_to(base, num, den, r),
{
    lemma_doubled_power_bound(base, num, den);
    vstd::arithmetic::power::lemma1_pow(den);
    lemma_rounding_exists_up_to(base, num, den, base)
}

/// Some integer up to `top` is what the power rounds to, if it rounds to no
/// more than that.
proof fn lemma_rounding_exists_up_to(base: int, num: nat, den: nat, top: int) -> (r: int)
    requires
        den > 0,
        top >= 1,
        vstd::arithmetic::power::pow(1, den) <= doubled_power(base, num, den),
        doubled_power(base, num, den) < vstd::arithmetic::power::pow(2 * top + 1, den),
    ensures
        1 <= r <= top,
        rounds_to(base, num, den, r),
    decreases top,
{
    if vstd::arithmetic::power::pow(2 * top - 1, den) <= doubled_power(base, num, den) {
        top
    } else {
        lemma_rounding_exists_up_to(base, num, den, top - 1)
    }
}

/// A larger exponent never rounds to less.
pub proof fn lemma_rounding_grows(base: int, num: nat, more: nat, den: nat, r: int, s: int)
    requires
        den > 0,
        base >= 1,
        num <= more,
        rounds_to(base, num, den, r),
        rounds_to(base, more, den, s),
    ensures
        r <= s,
{
    lemma_doubled_power_grows(base, num, more, den);
    if s < r && 2 * s + 1 < 2 * r - 1 {
        lemma_pow_grows_with_base(2 * s + 1, 2 * r - 1, den);
    }
}

/// Multiplies `n` by `factor` `count` times.
fn scale_repeatedly(n: &mut Natural, factor: u32, count: u32)
    ensures
        final(n)@ == old(n)@ * vstd::arithmetic::power::pow(factor as int, count as nat),
{
    let ghost start = n@;
    let mut i: u32 = 0;
    proof {
        vstd::arithmetic::power::lemma_pow0(factor as int);
    }
    while i < count
        invariant
            i <= count,
            n@ == start * vstd::arithmetic::power::pow(factor as int, i as nat),
        decreases count - i,
    {
        n.scale(factor);
        proof {
            let f = factor as int;
            let p = vstd::arithmetic::power::pow(f, i as nat);
            assert(vstd::arithmetic::power::pow(f, (i + 1) as nat) == f * p) by {
                reveal(vstd::arithmetic::power::pow);
            }
            assert((start * p) * f == start * (f * p)) by (nonlinear_arith);
        }
        i = i + 1;
    }
}

/// `base^(num/den)` rounded to the nearest integer, for an exponent of at
/// most one.
pub fn nearest_power(base: u16, num: u32, den: u32) -> (r: u16)
    requires
        base >= 1,
        den >= 1,
        num <= den,
    ensures
        rounds_to(base as int, num as nat, den as nat, r as int),
        r == rounded_power(base as int, num as nat, den as nat),
        1 <= r <= base,
{
    let mut target: Natural = Natural::one();
    scale_repeatedly(&mut target, 2, den);
    scale_repeatedly(&mut target, base as u32, num);
    let ghost goal = doubled_power(base as int, num as nat, den as nat);
    proof {
        lemma_doubled_power_bound(base as int, num as nat, den as nat);
        vstd::arithmetic::power::lemma1_pow(den as nat);
        assert(1 * vstd::arithmetic::power::pow(2, den as nat) == vstd::arithmetic::power::pow(
            2,
            den as nat,
        ));
        assert(target@ == goal);
    }
    // The answer is the largest `r` for which `(2r - 1)^den` does not exceed
    // the target: `low` qualifies, `high` does not.
    let mut low: u32 = 1;
    let mut high: u32 = base as u32 + 1;
    while high - low > 1
        invariant
            1 <= low < high <= base + 1,
            den >= 1,
            target@ == goal,
            goal == doubled_power(base as int, num as nat, den as nat),
            vstd::arithmetic::power::pow(2 * low - 1, den as nat) <= goal,
            goal < vstd::arithmetic::power::pow(2 * high - 1, den as nat),
        decreases high - low,
    {
        let mid: u32 = low + (high - low) / 2;
        let mut odd: Natural = Natural::one();
        scale_repeatedly(&mut odd, 2 * mid - 1, den);
        if odd.at_most(&target) {
            low = mid;
        } else {
            high = mid;
        }
    }
    proof {
        lemma_rounded_power(base as int, num as nat, den as nat, low as int);
    }
    low as u16
}

} // verus!
