//! The attached-funds check used at offer creation.
//!
//! A balance escrowed with an offer must actually have been paid into the
//! engine with the creating call; the check below is the host ecosystem's
//! standard payment helper.

use vstd::prelude::*;

use crate::error::{PaymentError, PaymentErrorV};
use crate::msg::MessageInfo;
use crate::state::CoinV;

verus! {

/// What the payment helper returns: with no coin attached or a zero amount
/// the failure is `NoFunds`; with more than one coin it is `MultipleDenoms`;
/// with exactly one non-zero coin of the wrong denomination it is
/// `MissingDenom` naming the requested denomination; otherwise the attached
/// amount is returned.
pub open spec fn spec_must_pay(funds: Seq<CoinV>, denom: Seq<char>) -> Result<u128, PaymentErrorV> {
    if funds.len() == 0 {
        Err(PaymentErrorV::NoFunds)
    } else if funds.len() > 1 {
        Err(PaymentErrorV::MultipleDenoms)
    } else if funds[0].amount == 0 {
        Err(PaymentErrorV::NoFunds)
    } else if funds[0].denom != denom {
        Err(PaymentErrorV::MissingDenom(denom))
    } else {
        Ok(funds[0].amount)
    }
}

/// Relies on `cw_utils::must_pay` and its `one_coin` helper: exactly one
/// attached coin with a non-zero amount and the requested denomination is
/// accepted and its amount returned; otherwise the error is `NoFunds`,
/// `MultipleDenoms` or `MissingDenom(denom)` exactly as [`spec_must_pay`]
/// states. The amount returned is one of the attached amounts, so it fits
/// back into the plain width it was built from.
#[verifier::external_body]
pub fn must_pay(info: &MessageInfo, denom: &String) -> (r: Result<u128, PaymentError>)
    ensures
        match r {
            Ok(a) => spec_must_pay(info@.funds, denom@) == Ok::<u128, PaymentErrorV>(a),
            Err(e) => spec_must_pay(info@.funds, denom@) == Err::<u128, PaymentErrorV>(e@),
        },
{
    let funds: Vec<cosmwasm_std::Coin> =
        info.funds.iter().map(|c| cosmwasm_std::Coin::new(c.amount, &c.denom)).collect();
    let cw_info = cosmwasm_std::MessageInfo { sender: cosmwasm_std::Addr::unchecked(""), funds };
    match cw_utils::must_pay(&cw_info, denom) {
        Ok(a) => Ok(cosmwasm_std::Uint128::try_from(a).unwrap().u128()),
        Err(cw_utils::PaymentError::NoFunds {}) => Err(PaymentError::NoFunds),
        Err(cw_utils::PaymentError::MultipleDenoms {}) => Err(PaymentError::MultipleDenoms),
        Err(cw_utils::PaymentError::MissingDenom(d)) => Err(PaymentError::MissingDenom(d)),
        Err(cw_utils::PaymentError::ExtraDenom(d)) => Err(PaymentError::ExtraDenom(d)),
        Err(cw_utils::PaymentError::NonPayable {}) => Err(PaymentError::NonPayable),
    }
}

} // verus!
