//! Which integers are doubles: those that a double holds without rounding.

use vstd::prelude::*;
use vstd::arithmetic::mul::lemma_mul_equality_converse;
use vstd::arithmetic::power2::{
    lemma2_to64_rest, lemma_pow2_adds, lemma_pow2_pos, lemma_pow2_unfold, pow2,
};
use vstd::math::abs;

verus! {

/// The least magnitude from which on an odd integer is no double: two to the
/// power of 53.
pub const MANTISSA_LIMIT: u128 = 9_007_199_254_740_992;

/// The integer is a double without rounding: its magnitude is a number below
/// two to the power of 53, times a power of two.
pub open spec fn is_exact_double(value: int) -> bool {
    exists|mantissa: nat, exponent: nat|
        mantissa < pow2(53) && abs(value) == #[trigger] (mantissa * pow2(exponent))
}

/// An odd number is the product of two numbers only if both are odd: a number
/// times a positive power of two is even.
proof fn power_of_two_is_even(factor: nat, exponent: nat)
    requires
        exponent > 0,
    ensures
        (factor * pow2(exponent)) % 2 == 0,
{
    lemma_pow2_unfold(exponent);
    let half = pow2((exponent - 1) as nat);
    assert(factor * (2 * half) == 2 * (factor * half)) by (nonlinear_arith);
}

/// An odd number of 53 bits or more, times a power of two, is no double.
proof fn odd_and_large_is_inexact(value: int, rest: nat, halvings: nat)
    requires
        abs(value) == rest * pow2(halvings),
        rest >= pow2(53),
        rest % 2 == 1,
    ensures
        !is_exact_double(value),
{
    assert forall|mantissa: nat, exponent: nat| mantissa < pow2(53) implies abs(value)
        != #[trigger] (mantissa * pow2(exponent)) by {
        if abs(value) == mantissa * pow2(exponent) {
            if exponent <= halvings {
                let more = (halvings - exponent) as nat;
                lemma_pow2_adds(more, exponent);
                lemma_pow2_pos(exponent);
                lemma_pow2_pos(more);
                assert(pow2(exponent) * mantissa == pow2(exponent) * (rest * pow2(more)))
                    by (nonlinear_arith)
                    requires
                        mantissa * pow2(exponent) == rest * pow2(halvings),
                        pow2(halvings) == pow2(more) * pow2(exponent),
                ;
                lemma_mul_equality_converse(
                    pow2(exponent) as int,
                    mantissa as int,
                    (rest * pow2(more)) as int,
                );
                assert(rest * pow2(more) >= rest) by (nonlinear_arith)
                    requires
                        pow2(more) >= 1,
                ;
            } else {
                let more = (exponent - halvings) as nat;
                lemma_pow2_adds(more, halvings);
                lemma_pow2_pos(halvings);
                assert(pow2(halvings) * rest == pow2(halvings) * (mantissa * pow2(more)))
                    by (nonlinear_arith)
                    requires
                        mantissa * pow2(exponent) == rest * pow2(halvings),
                        pow2(exponent) == pow2(more) * pow2(halvings),
                ;
                lemma_mul_equality_converse(
                    pow2(halvings) as int,
                    rest as int,
                    (mantissa * pow2(more)) as int,
                );
                power_of_two_is_even(mantissa, more);
            }
        }
    }
}

/// Whether an integer is a double without rounding.
pub fn has_exact_double(value: i128) -> (r: bool)
    ensures
        r == is_exact_double(value as int),
{
    let magnitude: u128 = if value >= 0 {
        value as u128
    } else {
        (-(value + 1)) as u128 + 1
    };
    let mut rest: u128 = magnitude;
    let ghost mut halvings: nat = 0;
    proof {
        lemma2_to64_rest();
        assert(pow2(0) == 1) by {
            vstd::arithmetic::power2::lemma2_to64();
        }
    }
    while rest >= MANTISSA_LIMIT && rest % 2 == 0
        invariant
            abs(value as int) == rest * pow2(halvings),
            pow2(53) == MANTISSA_LIMIT,
        decreases rest,
    {
        proof {
            lemma_pow2_unfold(halvings + 1);
            assert((rest / 2) * pow2(halvings + 1) == rest * pow2(halvings)) by (nonlinear_arith)
                requires
                    rest % 2 == 0,
                    pow2(halvings + 1) == 2 * pow2(halvings),
            ;
            halvings = halvings + 1;
        }
        rest = rest / 2;
    }
    proof {
        if rest < MANTISSA_LIMIT {
        } else {
            odd_and_large_is_inexact(value as int, rest as nat, halvings);
        }
    }
    rest < MANTISSA_LIMIT
}

} // verus!
