//! Creator royalty arithmetic.
//!
//! A collection's royalty share is a fixed-point fraction with eighteen
//! decimal places, stored as its raw atomics. The payout for a balance is
//! the share of its amount, rounded down.

use vstd::prelude::*;

use vstd::arithmetic::div_mod::{lemma_div_is_ordered, lemma_div_multiples_vanish};
use vstd::arithmetic::mul::lemma_mul_inequality;

verus! {

/// Atomics of a fixed-point fraction equal to one: ten to the eighteenth.
pub const DECIMAL_FRACTIONAL: u128 = 1_000_000_000_000_000_000;

/// The creator's share of `amount`: `amount * share_atomics / 10^18`,
/// rounded down.
pub open spec fn spec_share_of(amount: u128, share_atomics: u128) -> int {
    (amount * share_atomics) / (DECIMAL_FRACTIONAL as int)
}

/// Relies on `cosmwasm_std::Uint128::mul_floor` with a `cosmwasm_std::Decimal`
/// share rebuilt from its raw atomics: the result is
/// `amount * share_atomics / 10^18`, rounded down. `mul_floor` widens to 256
/// bits for the product, so it only panics when the final quotient exceeds
/// the 128-bit range, which the precondition rules out.
#[verifier::external_body]
pub fn share_mul_floor(amount: u128, share_atomics: u128) -> (r: u128)
    requires
        spec_share_of(amount, share_atomics) <= u128::MAX,
    ensures
        r == spec_share_of(amount, share_atomics),
{
    cosmwasm_std::Uint128::new(amount)
        .mul_floor(cosmwasm_std::Decimal::new(cosmwasm_std::Uint128::new(share_atomics)))
        .u128()
}

/// A share of at most one never pays out more than the amount itself.
pub proof fn lemma_share_le_amount(amount: u128, share_atomics: u128)
    requires
        share_atomics <= DECIMAL_FRACTIONAL,
    ensures
        0 <= spec_share_of(amount, share_atomics) <= amount,
{
    let d = DECIMAL_FRACTIONAL as int;
    lemma_mul_inequality(share_atomics as int, d, amount as int);
    assert(amount * share_atomics == share_atomics * amount) by (nonlinear_arith);
    assert(amount * share_atomics <= d * amount);
    lemma_div_is_ordered(0, amount * share_atomics, d);
    lemma_div_is_ordered(amount * share_atomics, d * amount, d);
    lemma_div_multiples_vanish(amount as int, d);
}

} // verus!
