//! Integer conversions between a token amount in its smallest unit and the
//! same amount scaled by ten to the token's number of decimals.

use vstd::prelude::*;
use vstd::arithmetic::power::pow;
use vstd::arithmetic::power::lemma_pow_positive;
use vstd::arithmetic::power::lemma_pow_increases;
use vstd::arithmetic::div_mod::lemma_div_multiples_vanish;
use vstd::arithmetic::div_mod::lemma_fundamental_div_mod;
use vstd::arithmetic::div_mod::lemma_mod_bound;
use vstd::arithmetic::div_mod::lemma_div_denominator;
use vstd::arithmetic::mul::lemma_mul_is_commutative;

verus! {

/// The largest value of a `u64`, plus one.
pub open spec fn u64_modulus() -> int {
    0x1_0000_0000_0000_0000
}

/// Ten to the power `decimals`: the factor between a scaled value and an
/// amount in the smallest unit.
pub open spec fn scale_factor(decimals: u8) -> int {
    pow(10, decimals as nat)
}

/// What `to_integer_scaled` returns: the amount times the scale factor.
pub open spec fn integer_scaled(value: u64, decimals: u8) -> int {
    value * scale_factor(decimals)
}

/// What `from_integer_scaled` returns: the scaled value divided by the scale
/// factor, rounded down, then cut to its low 64 bits (the `as u64` cast).
pub open spec fn integer_unscaled(scaled_value: u128, decimals: u8) -> int {
    (scaled_value as int / scale_factor(decimals)) % u64_modulus()
}

/// Ten to the power `decimals` as a `u128`.
fn scale_factor_u128(decimals: u8) -> (factor: u128)
    requires
        scale_factor(decimals) <= u128::MAX,
    ensures
        factor == scale_factor(decimals),
{
    let mut factor: u128 = 1;
    let mut i: u8 = 0;
    proof {
        reveal(pow);
    }
    while i < decimals
        invariant
            i <= decimals,
            factor == pow(10, i as nat),
            scale_factor(decimals) <= u128::MAX,
        decreases decimals - i,
    {
        proof {
            reveal(pow);
            lemma_pow_increases(10, (i + 1) as nat, decimals as nat);
            assert(pow(10, (i + 1) as nat) == 10 * pow(10, i as nat));
        }
        factor = factor * 10;
        i = i + 1;
    }
    factor
}

/// Convert to integer scaled value using u128 for precision.
pub fn to_integer_scaled(value: u64, decimals: u8) -> (scaled: u128)
    requires
        scale_factor(decimals) <= u128::MAX,
        integer_scaled(value, decimals) <= u128::MAX,
    ensures
        scaled == integer_scaled(value, decimals),
{
    let factor = scale_factor_u128(decimals);
    (value as u128) * factor
}

/// Convert from integer scaled value back to smallest unit.
pub fn from_integer_scaled(scaled_value: u128, decimals: u8) -> (value: u64)
    requires
        scale_factor(decimals) <= u128::MAX,
    ensures
        value == integer_unscaled(scaled_value, decimals),
{
    let divisor = scale_factor_u128(decimals);
    proof {
        lemma_pow_positive(10, decimals as nat);
    }
    let quotient: u128 = scaled_value / divisor;
    assert(quotient as u64 == quotient % 0x1_0000_0000_0000_0000) by (bit_vector);
    quotient as u64
}

/// Scaling an amount and converting it back gives the amount again.
pub proof fn lemma_scaled_round_trip(value: u64, decimals: u8)
    requires
        integer_scaled(value, decimals) <= u128::MAX,
    ensures
        integer_unscaled(integer_scaled(value, decimals) as u128, decimals) == value,
{
    let f = scale_factor(decimals);
    lemma_pow_positive(10, decimals as nat);
    lemma_mul_is_commutative(value as int, f);
    lemma_div_multiples_vanish(value as int, f);
    assert(integer_scaled(value, decimals) / f == value as int);
    assert((value as int) % u64_modulus() == value as int);
}

/// Converting back rounds down: scaling the result again gives at most the
/// scaled value, and less than one scale factor below it, as long as the
/// quotient fits in a `u64`.
pub proof fn lemma_unscaled_rounds_down(scaled_value: u128, decimals: u8)
    requires
        scaled_value as int / scale_factor(decimals) < u64_modulus(),
    ensures
        integer_unscaled(scaled_value, decimals) * scale_factor(decimals) <= scaled_value,
        scaled_value < (integer_unscaled(scaled_value, decimals) + 1) * scale_factor(decimals),
{
    let f = scale_factor(decimals);
    lemma_pow_positive(10, decimals as nat);
    let q: int = scaled_value as int / f;
    lemma_fundamental_div_mod(scaled_value as int, f);
    lemma_mod_bound(scaled_value as int, f);
    assert(q % u64_modulus() == q);
    lemma_mul_is_commutative(q, f);
    assert((q + 1) * f == q * f + f) by (nonlinear_arith);
}

/// The scale factor is ten to the number of decimals: one for no decimals,
/// and ten times more for each decimal more. Scaling multiplies the amount by
/// it; converting back divides by it (rounding down) and keeps the low 64
/// bits.
pub proof fn lemma_scale_by_powers_of_ten(value: u64, scaled_value: u128, decimals: u8)
    ensures
        scale_factor(0) == 1,
        integer_scaled(value, 0) == value,
        integer_unscaled(scaled_value, 0) == scaled_value as int % u64_modulus(),
        decimals < 255 ==> scale_factor((decimals + 1) as u8) == 10 * scale_factor(decimals),
        decimals < 255 ==> integer_scaled(value, (decimals + 1) as u8) == 10 * integer_scaled(
            value,
            decimals,
        ),
        decimals < 255 ==> integer_unscaled(scaled_value, (decimals + 1) as u8) == (
        scaled_value as int / scale_factor(decimals) / 10) % u64_modulus(),
        scale_factor(decimals) > 0,
        integer_scaled(value, decimals) == value * scale_factor(decimals),
        integer_unscaled(scaled_value, decimals) == (scaled_value as int / scale_factor(decimals))
            % u64_modulus(),
{
    reveal(pow);
    lemma_pow_positive(10, decimals as nat);
    assert(scale_factor(0) == 1);
    assert(scaled_value as int / 1 == scaled_value as int);
    if decimals < 255 {
        let s = scale_factor(decimals);
        assert(scale_factor((decimals + 1) as u8) == 10 * s);
        assert(value * (10 * s) == 10 * (value * s)) by (nonlinear_arith);
        lemma_div_denominator(scaled_value as int, s, 10);
        assert(s * 10 == 10 * s);
    }
}

} // verus!
