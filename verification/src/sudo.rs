//! Governance-only parameter updates.
//!
//! Each field of the request is optional: present fields overwrite the
//! stored parameters, absent fields are left untouched. A supplied expiry
//! range must be ordered and must stay inside the process-wide floor and
//! ceiling before it is accepted.

use vstd::prelude::*;

use crate::error::{ContractError, ContractErrorV};
use crate::helpers::{ExpiryRange, ExpiryRangeError};
use crate::msg::{Response, SubMsgV};
use crate::state::{SudoParamsV, TradeState, MAX_EXPIRY, MIN_EXPIRY};

verus! {

/// A partial parameter update.
pub struct ParamInfo {
    pub offer_expiry: Option<ExpiryRange>,
    pub maintainer: Option<String>,
    pub max_offers: Option<u64>,
    pub bundle_limit: Option<u64>,
}

/// Ghost view of [`ParamInfo`].
pub struct ParamInfoV {
    pub offer_expiry: Option<ExpiryRange>,
    pub maintainer: Option<Seq<char>>,
    pub max_offers: Option<u64>,
    pub bundle_limit: Option<u64>,
}

impl View for ParamInfo {
    type V = ParamInfoV;

    open spec fn view(&self) -> ParamInfoV {
        ParamInfoV {
            offer_expiry: self.offer_expiry,
            maintainer: match &self.maintainer {
                Some(m) => Some(m@),
                None => None,
            },
            max_offers: self.max_offers,
            bundle_limit: self.bundle_limit,
        }
    }
}

/// What a partial update decides: a supplied expiry range must be ordered
/// and inside the absolute floor and ceiling; present fields overwrite,
/// absent fields stay.
pub open spec fn spec_update_params(p: SudoParamsV, u: ParamInfoV) -> Result<SudoParamsV, ContractErrorV> {
    let range_check: Option<ContractErrorV> = match u.offer_expiry {
        Some(range) => if range.min > range.max {
            Some(ContractErrorV::ExpiryRange(ExpiryRangeError::InvalidExpiry))
        } else if range.min < MIN_EXPIRY || range.max > MAX_EXPIRY {
            Some(ContractErrorV::ExpiryRange(ExpiryRangeError::InvalidExpirationRange))
        } else {
            None
        },
        None => None,
    };
    match range_check {
        Some(e) => Err(e),
        None => Ok(
            SudoParamsV {
                offer_expiry: match u.offer_expiry {
                    Some(range) => range,
                    None => p.offer_expiry,
                },
                maintainer: match u.maintainer {
                    Some(m) => m,
                    None => p.maintainer,
                },
                max_offers: match u.max_offers {
                    Some(m) => m,
                    None => p.max_offers,
                },
                bundle_limit: match u.bundle_limit {
                    Some(b) => b,
                    None => p.bundle_limit,
                },
            },
        ),
    }
}

/// Applies a partial parameter update. Only governance reaches this
/// transition; the host routes it through its privileged entry point.
pub fn sudo_update_params(state: &mut TradeState, param_info: ParamInfo) -> (r: Result<Response, ContractError>)
    requires
        old(state).inv(),
    ensures
        final(state).inv(),
        ({
            let sc = spec_update_params(old(state)@.params, param_info@);
            match r {
                Ok(resp) => sc matches Ok(p) && final(state)@.params == p && final(state)@.ledger
                    == old(state)@.ledger && resp@.messages == Seq::<SubMsgV>::empty(),
                Err(e) => sc matches Err(ev) && e@ == ev && *final(state) == *old(state),
            }
        }),
{
    let ParamInfo { offer_expiry, maintainer, max_offers, bundle_limit } = param_info;

    if let Some(range) = offer_expiry {
        match range.validate() {
            Err(e) => {
                return Err(ContractError::ExpiryRange(e));
            },
            Ok(()) => {},
        }
        if range.min < MIN_EXPIRY || range.max > MAX_EXPIRY {
            return Err(ContractError::ExpiryRange(ExpiryRangeError::InvalidExpirationRange));
        }
        state.params.offer_expiry = range;
    }

    if let Some(m) = maintainer {
        state.params.maintainer = m;
    }

    if let Some(m) = max_offers {
        state.params.max_offers = m;
    }

    if let Some(b) = bundle_limit {
        state.params.bundle_limit = b;
    }

    Ok(Response::new())
}

} // verus!
