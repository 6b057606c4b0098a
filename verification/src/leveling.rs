//! Experience thresholds: how much experience each level asks for.

use vstd::prelude::*;

verus! {

/// `base` raised to `exponent`.
pub open spec fn power(base: nat, exponent: nat) -> nat
    decreases exponent,
{
    if exponent == 0 {
        1
    } else {
        base * power(base, (exponent - 1) as nat)
    }
}

/// The experience that a player of `level` needs to reach the next level:
/// one hundred times one and a half to the power `level - 1`, rounded down.
pub open spec fn exp_requirement(level: nat) -> nat {
    if level == 0 {
        66
    } else {
        (100 * power(3, (level - 1) as nat)) / power(2, (level - 1) as nat)
    }
}

/// The highest level whose requirement fits in 32 bits.
pub const LAST_BOUNDED_LEVEL: u32 = 44;

proof fn lemma_power_positive(base: nat, exponent: nat)
    requires
        base > 0,
    ensures
        power(base, exponent) > 0,
    decreases exponent,
{
    if exponent > 0 {
        lemma_power_positive(base, (exponent - 1) as nat);
        assert(base * power(base, (exponent - 1) as nat) > 0) by (nonlinear_arith)
            requires
                base > 0,
                power(base, (exponent - 1) as nat) > 0,
        ;
    }
}

proof fn lemma_three_dominates_two(exponent: nat)
    ensures
        power(3, exponent) >= power(2, exponent),
        power(2, exponent) > 0,
    decreases exponent,
{
    lemma_power_positive(2, exponent);
    if exponent > 0 {
        lemma_three_dominates_two((exponent - 1) as nat);
    }
}

/// `x / d >= m` whenever `x >= m * d`.
proof fn lemma_quotient_at_least(x: int, d: int, m: int)
    requires
        d > 0,
        x >= m * d,
    ensures
        x / d >= m,
{
    vstd::arithmetic::div_mod::lemma_div_is_ordered(m * d, x, d);
    vstd::arithmetic::div_mod::lemma_div_multiples_vanish(m, d);
    assert(m * d == d * m) by (nonlinear_arith);
}

/// From the first level on, the requirement is at least one hundred.
pub proof fn lemma_requirement_at_least_hundred(level: nat)
    requires
        level >= 1,
    ensures
        exp_requirement(level) >= 100,
{
    let k = (level - 1) as nat;
    lemma_three_dominates_two(k);
    let a = power(3, k) as int;
    let b = power(2, k) as int;
    assert(100 * a >= 100 * b);
    lemma_quotient_at_least(100 * a, b, 100);
}

/// Each level asks for at least half as much again as the one before,
/// rounded down.
pub proof fn lemma_requirement_grows(level: nat)
    requires
        level >= 1,
    ensures
        exp_requirement(level + 1) >= (3 * exp_requirement(level)) / 2,
{
    let k = (level - 1) as nat;
    lemma_three_dominates_two(k);
    let a = (100 * power(3, k)) as int;
    let b = power(2, k) as int;
    let q = a / b;
    let m = (3 * q) / 2;
    assert(power(3, k + 1) == 3 * power(3, k));
    assert(power(2, k + 1) == 2 * power(2, k));
    assert(exp_requirement(level + 1) == (3 * a) / (2 * b));
    vstd::arithmetic::div_mod::lemma_fundamental_div_mod(a, b);
    vstd::arithmetic::div_mod::lemma_mod_bound(a, b);
    assert(b * q <= a);
    assert(2 * m <= 3 * q);
    assert(m * (2 * b) <= 3 * a) by (nonlinear_arith)
        requires
            2 * m <= 3 * q,
            b * q <= a,
            b > 0,
    ;
    lemma_quotient_at_least(3 * a, 2 * b, m);
}

/// The requirement is strictly increasing in the level.
pub proof fn lemma_requirement_strictly_increasing(level: nat)
    ensures
        exp_requirement(level + 1) > exp_requirement(level),
{
    if level == 0 {
        assert(power(3, 0) == 1);
        assert(power(2, 0) == 1);
        assert(100int / 1 == 100);
        assert(exp_requirement(1) == (100 * power(3, 0)) / power(2, 0));
    } else {
        lemma_requirement_at_least_hundred(level);
        lemma_requirement_grows(level);
    }
}

/// A higher level never asks for less.
pub proof fn lemma_requirement_monotonic(low: nat, high: nat)
    requires
        low <= high,
    ensures
        exp_requirement(low) <= exp_requirement(high),
    decreases high - low,
{
    if low < high {
        lemma_requirement_monotonic(low, (high - 1) as nat);
        lemma_requirement_strictly_increasing((high - 1) as nat);
    }
}

proof fn lemma_power_monotonic(base: nat, low: nat, high: nat)
    requires
        base >= 1,
        low <= high,
    ensures
        power(base, low) <= power(base, high),
    decreases high - low,
{
    if low < high {
        lemma_power_monotonic(base, low, (high - 1) as nat);
        lemma_power_positive(base, (high - 1) as nat);
        assert(base * power(base, (high - 1) as nat) >= power(base, (high - 1) as nat))
            by (nonlinear_arith)
            requires
                base >= 1,
        ;
    }
}

proof fn lemma_power_values()
    ensures
        power(3, 43) == 328256967394537077627,
        power(2, 43) == 8796093022208,
{
    reveal_with_fuel(power, 45);
}

/// The requirement of the last bounded level fits in 32 bits; that of the
/// next one does not.
proof fn lemma_requirement_boundary()
    ensures
        exp_requirement(44) == 3731849658,
        exp_requirement(45) == 5597774487,
{
    lemma_power_values();
    assert(power(3, 44) == 3 * power(3, 43));
    assert(power(2, 44) == 2 * power(2, 43));
    assert(32825696739453707762700int / 8796093022208 == 3731849658);
    assert(98477090218361123288100int / 17592186044416 == 5597774487);
}

/// The requirement fits in 32 bits exactly up to the last bounded level.
pub proof fn lemma_requirement_fits(level: nat)
    ensures
        exp_requirement(level) <= u32::MAX <==> level <= LAST_BOUNDED_LEVEL,
{
    lemma_requirement_boundary();
    if level <= 44 {
        lemma_requirement_monotonic(level, 44);
    } else {
        lemma_requirement_monotonic(45, level);
    }
}

/// Up to the last bounded level the requirement grows with every level and
/// fits in 32 bits.
pub proof fn lemma_bounded_requirements_increase(level: nat)
    requires
        level < LAST_BOUNDED_LEVEL,
    ensures
        exp_requirement(level) < exp_requirement(level + 1) <= u32::MAX,
{
    lemma_requirement_strictly_increasing(level);
    lemma_requirement_fits(level + 1);
}

/// The experience needed at `level`, held at the largest 32-bit value from
/// the level on at which it no longer fits.
pub fn calculate_exp_requirement(level: u32) -> (r: u32)
    ensures
        level <= LAST_BOUNDED_LEVEL ==> r == exp_requirement(level as nat),
        level > LAST_BOUNDED_LEVEL ==> r == u32::MAX && exp_requirement(level as nat) > u32::MAX,
{
    proof {
        lemma_requirement_fits(level as nat);
    }
    if level == 0 {
        return 66;
    }
    if level > LAST_BOUNDED_LEVEL {
        return u32::MAX;
    }
    let steps: u32 = level - 1;
    let mut numerator: u128 = 100;
    let mut denominator: u128 = 1;
    let mut done: u32 = 0;
    while done < steps
        invariant
            done <= steps <= 43,
            numerator == 100 * power(3, done as nat),
            denominator == power(2, done as nat),
        decreases steps - done,
    {
        proof {
            lemma_power_values();
            lemma_power_monotonic(3, done as nat, 43);
            lemma_power_monotonic(2, done as nat, 43);
            assert(power(3, (done + 1) as nat) == 3 * power(3, done as nat));
            assert(power(2, (done + 1) as nat) == 2 * power(2, done as nat));
        }
        numerator = numerator * 3;
        denominator = denominator * 2;
        done = done + 1;
    }
    proof {
        lemma_power_positive(2, steps as nat);
    }
    let quotient: u128 = numerator / denominator;
    quotient as u32
}

/// Whether `experience` is enough to leave `level`.
pub fn should_level_up(experience: u32, level: u32) -> (r: bool)
    ensures
        r == (experience >= exp_requirement(level as nat)),
{
    if level > LAST_BOUNDED_LEVEL {
        proof {
            lemma_requirement_fits(level as nat);
        }
        false
    } else {
        let required = calculate_exp_requirement(level);
        experience >= required
    }
}

} // verus!
