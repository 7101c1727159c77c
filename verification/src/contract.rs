//! Engine setup and the transition entry points.

use vstd::prelude::*;

use crate::error::{ContractError, ContractErrorV};
use crate::execute::{
    execute_accept_offer, execute_create_offer, execute_reject_offer, execute_remove_offer,
    execute_remove_stale_offer, spec_accept_offer, spec_create_offer, spec_reject_offer,
    spec_remove_offer, spec_remove_stale_offer,
};
use crate::helpers::ExpiryRangeError;
use crate::msg::{Env, ExecuteMsg, InstantiateMsg, MessageInfo, Response, SubMsgV, SudoMsg};
use crate::registry::TokenRegistry;
use crate::state::{
    spec_find_offer, time_ok, OfferLedger, OfferV, SudoParams, SudoParamsV, TradeState, MAX_EXPIRY,
    MIN_EXPIRY,
};
use crate::sudo::{spec_update_params, sudo_update_params, ParamInfo, ParamInfoV};

verus! {

/// Sets the engine up: the expiry range must be ordered and inside the
/// process-wide floor and ceiling; the ledger starts empty with its counter
/// at zero, so the first offer gets id one.
pub fn instantiate(msg: InstantiateMsg) -> (r: Result<TradeState, ContractError>)
    ensures
        ({
            let e = msg.offer_expiry;
            if e.min > e.max {
                r matches Err(err) && err@ == ContractErrorV::ExpiryRange(
                    ExpiryRangeError::InvalidExpiry,
                )
            } else if e.min < MIN_EXPIRY || e.max > MAX_EXPIRY {
                r matches Err(err) && err@ == ContractErrorV::ExpiryRange(
                    ExpiryRangeError::InvalidExpirationRange,
                )
            } else {
                r matches Ok(state) && state.inv() && state@.params == (SudoParamsV {
                    offer_expiry: msg.offer_expiry,
                    maintainer: msg.maintainer@,
                    max_offers: msg.max_offers,
                    bundle_limit: msg.bundle_limit,
                }) && state@.ledger.offers == Seq::<OfferV>::empty() && state@.ledger.id_counter
                    == 0
            }
        }),
{
    match msg.offer_expiry.validate() {
        Err(e) => {
            return Err(ContractError::ExpiryRange(e));
        },
        Ok(()) => {},
    }
    if msg.offer_expiry.min < MIN_EXPIRY {
        return Err(ContractError::ExpiryRange(ExpiryRangeError::InvalidExpirationRange));
    }
    if msg.offer_expiry.max > MAX_EXPIRY {
        return Err(ContractError::ExpiryRange(ExpiryRangeError::InvalidExpirationRange));
    }

    let params = SudoParams {
        offer_expiry: msg.offer_expiry,
        maintainer: msg.maintainer,
        max_offers: msg.max_offers,
        bundle_limit: msg.bundle_limit,
    };
    Ok(TradeState { params, ledger: OfferLedger::new() })
}

/// Routes a lifecycle request to its transition. The contract of each
/// branch is the corresponding transition's contract.
pub fn execute(state: &mut TradeState, env: &Env, info: &MessageInfo, msg: ExecuteMsg, registry: &TokenRegistry) -> (r: Result<Response, ContractError>)
    requires
        old(state).inv(),
        registry.wf(),
        time_ok(env.block_time),
        old(state)@.ledger.id_counter < u64::MAX,
    ensures
        final(state).inv(),
        ({
            match msg {
                ExecuteMsg::CreateOffer {
                    offered_nfts,
                    wanted_nfts,
                    offered_balances,
                    message,
                    peer,
                    expires_at,
                } => {
                    let sc = spec_create_offer(
                        old(state)@,
                        env@,
                        info@,
                        offered_nfts.deep_view(),
                        wanted_nfts.deep_view(),
                        offered_balances.deep_view(),
                        message.deep_view(),
                        peer@,
                        expires_at,
                        registry@,
                    );
                    match r {
                        Ok(resp) => sc matches Ok(o)
                            && final(state)@.ledger.offers == old(state)@.ledger.offers.push(o)
                            && final(state)@.ledger.id_counter == old(state)@.ledger.id_counter + 1
                            && final(state)@.params == old(state)@.params
                            && resp@.messages == Seq::<SubMsgV>::empty(),
                        Err(e) => sc matches Err(ev) && e@ == ev && *final(state) == *old(state),
                    }
                },
                ExecuteMsg::RemoveOffer { id } => {
                    let sc = spec_remove_offer(old(state)@, info@.sender, id);
                    match r {
                        Ok(resp) => sc matches Ok((offer, msgs))
                            && resp@.messages == msgs
                            && final(state)@.params == old(state)@.params
                            && final(state)@.ledger.id_counter == old(state)@.ledger.id_counter
                            && spec_find_offer(final(state)@.ledger.offers, id) == None::<OfferV>
                            && (forall|id2: u64| id2 != id ==> spec_find_offer(
                                final(state)@.ledger.offers,
                                id2,
                            ) == spec_find_offer(old(state)@.ledger.offers, id2)),
                        Err(e) => sc matches Err(ev) && e@ == ev && *final(state) == *old(state),
                    }
                },
                ExecuteMsg::AcceptOffer { id } => {
                    let sc = spec_accept_offer(
                        old(state)@,
                        env@.block_time,
                        env@.contract,
                        info@.sender,
                        id,
                        registry@,
                    );
                    match r {
                        Ok(resp) => sc matches Ok((offer, msgs))
                            && resp@.messages == msgs
                            && final(state)@.params == old(state)@.params
                            && final(state)@.ledger.id_counter == old(state)@.ledger.id_counter
                            && spec_find_offer(final(state)@.ledger.offers, id) == None::<OfferV>
                            && (forall|id2: u64| id2 != id ==> spec_find_offer(
                                final(state)@.ledger.offers,
                                id2,
                            ) == spec_find_offer(old(state)@.ledger.offers, id2)),
                        Err(e) => sc matches Err(ev) && e@ == ev && *final(state) == *old(state),
                    }
                },
                ExecuteMsg::RejectOffer { id } => {
                    let sc = spec_reject_offer(old(state)@, info@.sender, id);
                    match r {
                        Ok(resp) => sc matches Ok((offer, msgs))
                            && resp@.messages == msgs
                            && final(state)@.params == old(state)@.params
                            && final(state)@.ledger.id_counter == old(state)@.ledger.id_counter
                            && spec_find_offer(final(state)@.ledger.offers, id) == None::<OfferV>
                            && (forall|id2: u64| id2 != id ==> spec_find_offer(
                                final(state)@.ledger.offers,
                                id2,
                            ) == spec_find_offer(old(state)@.ledger.offers, id2)),
                        Err(e) => sc matches Err(ev) && e@ == ev && *final(state) == *old(state),
                    }
                },
                ExecuteMsg::RemoveStaleOffer { id } => {
                    let sc = spec_remove_stale_offer(
                        old(state)@,
                        env@.block_time,
                        info@.sender,
                        id,
                    );
                    match r {
                        Ok(resp) => sc matches Ok((offer, msgs))
                            && resp@.messages == msgs
                            && final(state)@.params == old(state)@.params
                            && final(state)@.ledger.id_counter == old(state)@.ledger.id_counter
                            && spec_find_offer(final(state)@.ledger.offers, id) == None::<OfferV>
                            && (forall|id2: u64| id2 != id ==> spec_find_offer(
                                final(state)@.ledger.offers,
                                id2,
                            ) == spec_find_offer(old(state)@.ledger.offers, id2)),
                        Err(e) => sc matches Err(ev) && e@ == ev && *final(state) == *old(state),
                    }
                },
            }
        }),
{
    match msg {
        ExecuteMsg::CreateOffer {
            offered_nfts,
            wanted_nfts,
            offered_balances,
            message,
            peer,
            expires_at,
        } => execute_create_offer(
            state,
            env,
            info,
            offered_nfts,
            wanted_nfts,
            offered_balances,
            message,
            peer,
            expires_at,
            registry,
        ),
        ExecuteMsg::RemoveOffer { id } => execute_remove_offer(state, info, id),
        ExecuteMsg::AcceptOffer { id } => execute_accept_offer(state, env, info, id, registry),
        ExecuteMsg::RejectOffer { id } => execute_reject_offer(state, info, id),
        ExecuteMsg::RemoveStaleOffer { id } => execute_remove_stale_offer(state, env, info, id),
    }
}

/// Routes a governance request to its transition.
pub fn sudo(state: &mut TradeState, msg: SudoMsg) -> (r: Result<Response, ContractError>)
    requires
        old(state).inv(),
    ensures
        final(state).inv(),
        ({
            match msg {
                SudoMsg::UpdateParams { offer_expiry, maintainer, max_offers, bundle_limit } => {
                    let u = ParamInfoV {
                        offer_expiry,
                        maintainer: match maintainer {
                            Some(m) => Some(m@),
                            None => None,
                        },
                        max_offers,
                        bundle_limit,
                    };
                    let sc = spec_update_params(old(state)@.params, u);
                    match r {
                        Ok(resp) => sc matches Ok(p)
                            && final(state)@.params == p
                            && final(state)@.ledger == old(state)@.ledger
                            && resp@.messages == Seq::<SubMsgV>::empty(),
                        Err(e) => sc matches Err(ev) && e@ == ev && *final(state) == *old(state),
                    }
                },
            }
        }),
{
    match msg {
        SudoMsg::UpdateParams { offer_expiry, maintainer, max_offers, bundle_limit } => {
            sudo_update_params(
                state,
                ParamInfo { offer_expiry, maintainer, max_offers, bundle_limit },
            )
        },
    }
}

} // verus!
