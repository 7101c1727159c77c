//! The offer lifecycle controller.
//!
//! Five transitions: create, accept, reject, remove, and remove-stale. Each
//! one validates its request, re-verifies ownership and approval facts
//! against the registry snapshot taken for this very call, and then either
//! mutates the ledger and emits transfer instructions, or fails leaving the
//! state exactly as it was.
//!
//! Every transition's contract is phrased against a spec-level twin
//! (`spec_create_offer`, `spec_accept_offer`, ...) that pins down, for every
//! input, both the exact error returned and the exact state change and
//! emitted instructions on success.

use vstd::prelude::*;

use crate::error::{ContractError, ContractErrorV, StdErrorV};
use crate::helpers::{ExpiryRange, ExpiryRangeError};
use crate::state::MAX_EXPIRY;
use vstd::arithmetic::mul::lemma_mul_inequality;
use crate::msg::{Env, EnvV, MessageInfo, MessageInfoV, Response, SubMsg, SubMsgV, TokenMsg};
use crate::payment::{must_pay, spec_must_pay};
use crate::registry::{
    spec_is_approved, spec_owner_of, spec_royalty_of, RoyaltyInfo, RoyaltyInfoV, TokenRegistry,
    TokenRegistryV,
};
use crate::royalty::{lemma_share_le_amount, share_mul_floor, spec_share_of, DECIMAL_FRACTIONAL};
use crate::state::{
    offer_shape_wf, offers_sorted, spec_by_sender, spec_find_offer, spec_has_offer, time_ok, Coin,
    CoinV, Offer, OfferV, Royalty, RoyaltyV, Token, TokenV, TradeState, TradeStateV,
};
use crate::time::{Timestamp, NANOS_PER_SECOND};

verus! {

/// The record kind a failed ledger load reports.
pub open spec fn offer_not_found() -> ContractErrorV {
    ContractErrorV::Std(StdErrorV::NotFound { kind: "pegasus::state::Offer"@ })
}

/// The passthrough error for an owner query the snapshot could not answer.
pub open spec fn owner_query_failed() -> ContractErrorV {
    ContractErrorV::Std(StdErrorV::GenericErr { msg: "owner query failed"@ })
}

/// The passthrough error for a collection-info query the snapshot could not
/// answer.
pub open spec fn collection_query_failed() -> ContractErrorV {
    ContractErrorV::Std(StdErrorV::GenericErr { msg: "collection info query failed"@ })
}

/// One transfer instruction per token, to one recipient, in bundle order.
pub open spec fn spec_transfer_msgs(nfts: Seq<TokenV>, recipient: Seq<char>) -> Seq<SubMsgV> {
    nfts.map_values(
        |t: TokenV| SubMsgV::TransferNft {
            collection: t.collection,
            token_id: t.token_id,
            recipient,
        },
    )
}

/// One payout instruction per balance, to one recipient, in order.
pub open spec fn spec_send_msgs(balances: Seq<CoinV>, to: Seq<char>) -> Seq<SubMsgV> {
    balances.map_values(|b: CoinV| SubMsgV::BankSend { to_address: to, amount: b })
}

/// One payout instruction per royalty, each to its creator, in order.
pub open spec fn spec_royalty_msgs(royalties: Seq<RoyaltyV>) -> Seq<SubMsgV> {
    royalties.map_values(
        |r: RoyaltyV| SubMsgV::BankSend { to_address: r.creator, amount: r.amount },
    )
}

/// What a terminal transition other than accept refunds: the escrowed
/// balances, then the royalty escrow, all back to the offer's sender.
pub open spec fn spec_refund_msgs(offer: OfferV) -> Seq<SubMsgV> {
    spec_send_msgs(offer.offered_balances, offer.sender) + spec_royalty_msgs(offer.royalties)
}

/// A bank-send instruction for one balance.
pub fn send_tokens(to: &String, balance: Coin) -> (r: SubMsg)
    ensures
        r@ == (SubMsgV::BankSend { to_address: to@, amount: balance@ }),
{
    SubMsg::BankSend { to_address: to.clone(), amount: balance }
}

/// Appends one transfer instruction per token to the response.
pub fn transfer_nfts(recipient: &String, nfts: &Vec<Token>, res: &mut Response)
    ensures
        final(res)@.messages == old(res)@.messages + spec_transfer_msgs(
            nfts.deep_view(),
            recipient@,
        ),
{
    let ghost m0 = res@.messages;
    let ghost target = spec_transfer_msgs(nfts.deep_view(), recipient@);
    let mut i: usize = 0;
    while i < nfts.len()
        invariant
            i <= nfts.len(),
            target == spec_transfer_msgs(nfts.deep_view(), recipient@),
            res@.messages == m0 + target.take(i as int),
        decreases nfts.len() - i,
    {
        let msg = SubMsg::TransferNft {
            collection: nfts[i].collection.clone(),
            token_id: nfts[i].token_id,
            recipient: recipient.clone(),
        };
        let ghost mv = msg@;
        let ghost before = res@.messages;
        res.messages.push(msg);
        proof {
            assert(mv == target[i as int]);
            assert(res@.messages =~= before.push(mv));
            assert(before.push(mv) =~= m0 + target.take(i as int + 1));
        }
        i = i + 1;
    }
    proof {
        assert(target.take(nfts.len() as int) =~= target);
        assert(res@.messages == m0 + target);
    }
}

/// Fails unless the caller is the snapshot's current owner of the token.
pub fn only_owner(registry: &TokenRegistry, info: &MessageInfo, collection: &String, token_id: u32) -> (r: Result<(), ContractError>)
    ensures
        match spec_owner_of(registry@, collection@, token_id) {
            None => r matches Err(e) && e@ == owner_query_failed(),
            Some(owner) => if owner == info@.sender {
                r is Ok
            } else {
                r matches Err(e) && e@ == ContractErrorV::UnauthorizedSender
            },
        },
{
    match registry.owner_of(collection, token_id) {
        None => Err(ContractError::Std(crate::error::StdError::GenericErr {
            msg: String::from_str("owner query failed"),
        })),
        Some(owner) => {
            if owner == info.sender {
                Ok(())
            } else {
                Err(ContractError::UnauthorizedSender)
            }
        },
    }
}

/// Whether the bundle contains the token.
pub open spec fn spec_token_in_bundle(bundle: Seq<TokenV>, t: TokenV) -> bool {
    exists|j: int| 0 <= j < bundle.len() && bundle[j] == t
}

/// The id of the first offer, from `from` on, whose offered bundle already
/// holds the token.
pub open spec fn spec_find_conflict(offers: Seq<OfferV>, from: int, t: TokenV) -> Option<u64>
    decreases offers.len() - from,
{
    if from < 0 || from >= offers.len() {
        None
    } else if spec_token_in_bundle(offers[from].offered_nfts, t) {
        Some(offers[from].id)
    } else {
        spec_find_conflict(offers, from + 1, t)
    }
}

/// Whether the bundle contains the token.
pub fn bundle_contains(bundle: &Vec<Token>, t: &Token) -> (r: bool)
    ensures
        r == spec_token_in_bundle(bundle.deep_view(), t@),
{
    let mut j: usize = 0;
    while j < bundle.len()
        invariant
            j <= bundle.len(),
            forall|k: int| 0 <= k < j ==> bundle.deep_view()[k] != t@,
        decreases bundle.len() - j,
    {
        if bundle[j].same_asset(t) {
            proof {
                assert(bundle.deep_view()[j as int] == t@);
            }
            return true;
        }
        j = j + 1;
    }
    false
}

/// The first offer among `offers` that already locks the token, if any.
pub fn find_conflict(offers: &Vec<Offer>, t: &Token) -> (r: Option<u64>)
    ensures
        r == spec_find_conflict(offers.deep_view(), 0, t@),
{
    let mut i: usize = 0;
    while i < offers.len()
        invariant
            i <= offers.len(),
            spec_find_conflict(offers.deep_view(), 0, t@) == spec_find_conflict(
                offers.deep_view(),
                i as int,
                t@,
            ),
        decreases offers.len() - i,
    {
        if bundle_contains(&offers[i].offered_nfts, t) {
            return Some(offers[i].id);
        }
        i = i + 1;
    }
    None
}

/// Royalties owed under one policy, one per balance from `from` on: each
/// balance must have been paid in full and must cover the creator's share.
pub open spec fn spec_policy_royalties(ri: RoyaltyInfoV, balances: Seq<CoinV>, from: int, funds: Seq<CoinV>) -> Result<Seq<RoyaltyV>, ContractErrorV>
    decreases balances.len() - from,
{
    if from < 0 || from >= balances.len() {
        Ok(Seq::empty())
    } else {
        let b = balances[from];
        let to_pay = spec_share_of(b.amount, ri.share_atomics);
        match spec_must_pay(funds, b.denom) {
            Err(e) => Err(ContractErrorV::Payment(e)),
            Ok(paid) => if paid < to_pay {
                Err(ContractErrorV::InsufficientRoyalties)
            } else {
                match spec_policy_royalties(ri, balances, from + 1, funds) {
                    Err(e) => Err(e),
                    Ok(rest) => Ok(
                        seq![
                            RoyaltyV {
                                creator: ri.payment_address,
                                amount: CoinV { denom: b.denom, amount: to_pay as u128 },
                            },
                        ] + rest,
                    ),
                }
            },
        }
    }
}

/// Royalties owed for one token's collection. Nothing is owed while
/// royalties are not enforced or the collection has no policy; an
/// unanswerable collection query is a fatal passthrough error.
pub open spec fn spec_token_royalties(reg: TokenRegistryV, collection: Seq<char>, enforced: bool, balances: Seq<CoinV>, funds: Seq<CoinV>) -> Result<Seq<RoyaltyV>, ContractErrorV> {
    if !enforced {
        Ok(Seq::empty())
    } else {
        match spec_royalty_of(reg, collection) {
            None => Err(collection_query_failed()),
            Some(None) => Ok(Seq::empty()),
            Some(Some(ri)) => spec_policy_royalties(ri, balances, 0, funds),
        }
    }
}

/// Accumulates the royalties owed under one policy, in order, appending to
/// `royalties`. On failure the partial accumulation is meaningless and the
/// caller discards it.
fn accumulate_royalties(ri: &RoyaltyInfo, balances: &Vec<Coin>, info: &MessageInfo, royalties: &mut Vec<Royalty>) -> (r: Result<(), ContractError>)
    requires
        ri.share_atomics <= DECIMAL_FRACTIONAL,
    ensures
        match r {
            Ok(()) => spec_policy_royalties(ri@, balances.deep_view(), 0, info@.funds) matches Ok(rs)
                && final(royalties).deep_view() == old(royalties).deep_view() + rs,
            Err(e) => spec_policy_royalties(ri@, balances.deep_view(), 0, info@.funds) matches Err(ev)
                && e@ == ev,
        },
{
    let ghost r0 = royalties.deep_view();
    let ghost bv = balances.deep_view();
    let ghost fv = info@.funds;
    let mut i: usize = 0;
    proof {
        assert(r0 + royalties.deep_view().skip(r0.len() as int) =~= r0);
    }
    while i < balances.len()
        invariant
            i <= balances.len(),
            ri.share_atomics <= DECIMAL_FRACTIONAL,
            bv == balances.deep_view(),
            fv == info@.funds,
            r0.len() <= royalties.deep_view().len(),
            royalties.deep_view().take(r0.len() as int) == r0,
            spec_policy_royalties(ri@, bv, 0, fv) == (match spec_policy_royalties(
                ri@,
                bv,
                i as int,
                fv,
            ) {
                Ok(rest) => Ok::<Seq<RoyaltyV>, ContractErrorV>(
                    royalties.deep_view().skip(r0.len() as int) + rest,
                ),
                Err(e) => Err::<Seq<RoyaltyV>, ContractErrorV>(e),
            }),
        decreases balances.len() - i,
    {
        let b = &balances[i];
        proof {
            lemma_share_le_amount(b.amount, ri.share_atomics);
        }
        let to_pay = share_mul_floor(b.amount, ri.share_atomics);
        let paid = match must_pay(info, &b.denom) {
            Ok(a) => a,
            Err(e) => {
                return Err(ContractError::Payment(e));
            },
        };
        if paid < to_pay {
            return Err(ContractError::InsufficientRoyalties);
        }
        let ghost before = royalties.deep_view();
        royalties.push(
            Royalty {
                creator: ri.payment_address.clone(),
                amount: Coin { denom: b.denom.clone(), amount: to_pay },
            },
        );
        proof {
            assert(royalties.deep_view() =~= before.push(
                RoyaltyV {
                    creator: ri@.payment_address,
                    amount: CoinV { denom: bv[i as int].denom, amount: to_pay },
                },
            ));
            assert(royalties.deep_view().take(r0.len() as int) =~= r0);
            let elem = seq![
                RoyaltyV {
                    creator: ri@.payment_address,
                    amount: CoinV { denom: bv[i as int].denom, amount: to_pay },
                },
            ];
            assert(royalties.deep_view().skip(r0.len() as int) =~= before.skip(r0.len() as int)
                + elem);
            match spec_policy_royalties(ri@, bv, i as int + 1, fv) {
                Ok(rest) => {
                    assert(spec_policy_royalties(ri@, bv, i as int, fv) == Ok::<
                        Seq<RoyaltyV>,
                        ContractErrorV,
                    >(elem + rest));
                    assert((before.skip(r0.len() as int) + elem) + rest =~= before.skip(
                        r0.len() as int,
                    ) + (elem + rest));
                },
                Err(_) => {},
            }
        }
        i = i + 1;
    }
    proof {
        assert(royalties.deep_view().skip(r0.len() as int) + Seq::<RoyaltyV>::empty()
            =~= royalties.deep_view().skip(r0.len() as int));
        assert(r0 + royalties.deep_view().skip(r0.len() as int) =~= royalties.deep_view());
    }
    Ok(())
}

/// Appends one payout instruction per balance to the response.
pub fn push_send_msgs(to: &String, balances: &Vec<Coin>, res: &mut Response)
    ensures
        final(res)@.messages == old(res)@.messages + spec_send_msgs(balances.deep_view(), to@),
{
    let ghost m0 = res@.messages;
    let ghost target = spec_send_msgs(balances.deep_view(), to@);
    let mut i: usize = 0;
    proof {
        assert(m0 + target.take(0) =~= m0);
    }
    while i < balances.len()
        invariant
            i <= balances.len(),
            target == spec_send_msgs(balances.deep_view(), to@),
            res@.messages == m0 + target.take(i as int),
        decreases balances.len() - i,
    {
        let msg = send_tokens(to, balances[i].duplicate());
        let ghost mv = msg@;
        let ghost before = res@.messages;
        res.messages.push(msg);
        proof {
            assert(mv == target[i as int]);
            assert(res@.messages =~= before.push(mv));
            assert(before.push(mv) =~= m0 + target.take(i as int + 1));
        }
        i = i + 1;
    }
    proof {
        assert(target.take(balances.len() as int) =~= target);
    }
}

/// Appends one payout instruction per royalty to the response, each to its
/// creator.
pub fn push_royalty_msgs(royalties: &Vec<Royalty>, res: &mut Response)
    ensures
        final(res)@.messages == old(res)@.messages + spec_royalty_msgs(royalties.deep_view()),
{
    let ghost m0 = res@.messages;
    let ghost target = spec_royalty_msgs(royalties.deep_view());
    let mut i: usize = 0;
    proof {
        assert(m0 + target.take(0) =~= m0);
    }
    while i < royalties.len()
        invariant
            i <= royalties.len(),
            target == spec_royalty_msgs(royalties.deep_view()),
            res@.messages == m0 + target.take(i as int),
        decreases royalties.len() - i,
    {
        let msg = send_tokens(&royalties[i].creator, royalties[i].amount.duplicate());
        let ghost mv = msg@;
        let ghost before = res@.messages;
        res.messages.push(msg);
        proof {
            assert(mv == target[i as int]);
            assert(res@.messages =~= before.push(mv));
            assert(before.push(mv) =~= m0 + target.take(i as int + 1));
        }
        i = i + 1;
    }
    proof {
        assert(target.take(royalties.len() as int) =~= target);
    }
}

/// The refund package of a terminal transition other than accept: escrowed
/// balances, then royalty escrow, all back to the sender.
fn refund_response(offer: &Offer) -> (r: Response)
    ensures
        r@.messages == spec_refund_msgs(offer@),
{
    let mut res = Response::new();
    push_send_msgs(&offer.sender, &offer.offered_balances, &mut res);
    push_royalty_msgs(&offer.royalties, &mut res);
    proof {
        assert(Seq::<SubMsgV>::empty() + spec_send_msgs(offer@.offered_balances, offer@.sender)
            =~= spec_send_msgs(offer@.offered_balances, offer@.sender));
    }
    res
}

/// What removal by the sender decides: the offer must exist and the caller
/// must be its sender; the refunds then owed are the escrowed balances and
/// royalty escrow, and the offer is deleted.
pub open spec fn spec_remove_offer(state: TradeStateV, caller: Seq<char>, id: u64) -> Result<(OfferV, Seq<SubMsgV>), ContractErrorV> {
    match spec_find_offer(state.ledger.offers, id) {
        None => Err(offer_not_found()),
        Some(offer) => if offer.sender != caller {
            Err(ContractErrorV::UnauthorizedSender)
        } else {
            Ok((offer, spec_refund_msgs(offer)))
        },
    }
}

/// What rejection by the peer decides: as removal, but only the peer may
/// reject, and a wrong caller is an operator error.
pub open spec fn spec_reject_offer(state: TradeStateV, caller: Seq<char>, id: u64) -> Result<(OfferV, Seq<SubMsgV>), ContractErrorV> {
    match spec_find_offer(state.ledger.offers, id) {
        None => Err(offer_not_found()),
        Some(offer) => if offer.peer != caller {
            Err(ContractErrorV::UnauthorizedOperator)
        } else {
            Ok((offer, spec_refund_msgs(offer)))
        },
    }
}

/// What stale removal by the maintainer decides: only the configured
/// maintainer may call it, the offer must exist, and it must actually be
/// past its expiry — the block time strictly after its `expires_at`. An
/// offer not yet expired is left alone with the expiry-range error; a stale
/// one is refunded to its sender and deleted.
pub open spec fn spec_remove_stale_offer(state: TradeStateV, now: Timestamp, caller: Seq<char>, id: u64) -> Result<(OfferV, Seq<SubMsgV>), ContractErrorV> {
    if caller != state.params.maintainer {
        Err(ContractErrorV::UnauthorizedOperator)
    } else {
        match spec_find_offer(state.ledger.offers, id) {
            None => Err(offer_not_found()),
            Some(offer) => if now.nanos <= offer.expires_at.nanos {
                Err(ContractErrorV::ExpiryRange(ExpiryRangeError::InvalidExpirationRange))
            } else {
                Ok((offer, spec_refund_msgs(offer)))
            },
        }
    }
}

/// Runs the conditional royalty step for one token's collection, appending
/// any royalties owed.
fn token_royalties(registry: &TokenRegistry, collection: &String, enforced: bool, balances: &Vec<Coin>, info: &MessageInfo, royalties: &mut Vec<Royalty>) -> (r: Result<(), ContractError>)
    requires
        registry.wf(),
    ensures
        match r {
            Ok(()) => spec_token_royalties(
                registry@,
                collection@,
                enforced,
                balances.deep_view(),
                info@.funds,
            ) matches Ok(rs) && final(royalties).deep_view() == old(royalties).deep_view() + rs,
            Err(e) => spec_token_royalties(
                registry@,
                collection@,
                enforced,
                balances.deep_view(),
                info@.funds,
            ) matches Err(ev) && e@ == ev,
        },
{
    if !enforced {
        proof {
            assert(royalties.deep_view() + Seq::<RoyaltyV>::empty() =~= royalties.deep_view());
        }
        return Ok(());
    }
    match registry.royalty_of(collection) {
        None => Err(ContractError::Std(crate::error::StdError::GenericErr {
            msg: String::from_str("collection info query failed"),
        })),
        Some(None) => {
            proof {
                assert(royalties.deep_view() + Seq::<RoyaltyV>::empty() =~= royalties.deep_view());
            }
            Ok(())
        },
        Some(Some(ri)) => {
            proof {
                crate::registry::lemma_find_collection_in_range(
                    registry@.collections,
                    collection@,
                    0,
                );
                assert(ri.share_atomics <= DECIMAL_FRACTIONAL);
            }
            accumulate_royalties(&ri, balances, info, royalties)
        },
    }
}

/// The two timestamps fed to the expiry check leave room for the window
/// arithmetic.
proof fn lemma_expiry_args_ok(range: ExpiryRange, now: Timestamp, created: Timestamp)
    requires
        range.min <= MAX_EXPIRY,
        range.max <= MAX_EXPIRY,
        time_ok(now),
        time_ok(created),
    ensures
        created.nanos + range.min * NANOS_PER_SECOND <= u64::MAX,
        now.nanos + range.max * NANOS_PER_SECOND <= u64::MAX,
{
    lemma_mul_inequality(range.min as int, (MAX_EXPIRY + 1) as int, NANOS_PER_SECOND as int);
    lemma_mul_inequality(range.max as int, (MAX_EXPIRY + 1) as int, NANOS_PER_SECOND as int);
}

/// Dropping one offer keeps every remaining offer's id behind the counter
/// and its shape intact.
proof fn lemma_offers_remove_preserves(s0: Seq<OfferV>, s1: Seq<OfferV>, counter: u64, i: int)
    requires
        0 <= i < s0.len(),
        s1 == s0.remove(i),
        forall|k: int| 0 <= k < s0.len() ==> (#[trigger] s0[k]).id <= counter && offer_shape_wf(
            s0[k],
        ),
    ensures
        forall|k: int| 0 <= k < s1.len() ==> (#[trigger] s1[k]).id <= counter && offer_shape_wf(
            s1[k],
        ),
{
    assert forall|k: int| 0 <= k < s1.len() implies (#[trigger] s1[k]).id <= counter
        && offer_shape_wf(s1[k]) by {
        if k < i {
            assert(s1[k] == s0[k]);
        } else {
            assert(s1[k] == s0[k + 1]);
        }
    }
}

/// The offer found for an id is one of the ledger's offers.
proof fn lemma_found_offer_is_member(s: Seq<OfferV>, id: u64, offer: OfferV)
    requires
        spec_find_offer(s, id) == Some(offer),
    ensures
        exists|k: int| 0 <= k < s.len() && s[k] == offer,
{
    let k = choose|k: int| 0 <= k < s.len() && s[k].id == id;
    assert(0 <= k < s.len() && s[k] == offer);
}

/// Removal, by the offer's sender only: refund the escrowed balances and
/// royalty escrow to the sender, then delete the offer.
pub fn execute_remove_offer(state: &mut TradeState, info: &MessageInfo, id: u64) -> (r: Result<Response, ContractError>)
    requires
        old(state).inv(),
    ensures
        final(state).inv(),
        ({
            let sc = spec_remove_offer(old(state)@, info@.sender, id);
            match r {
                Ok(resp) => sc matches Ok((offer, msgs))
                    && resp@.messages == msgs
                    && final(state)@.params == old(state)@.params
                    && final(state)@.ledger.id_counter == old(state)@.ledger.id_counter
                    && spec_find_offer(final(state)@.ledger.offers, id) == None::<OfferV>
                    && (forall|id2: u64| id2 != id ==> spec_find_offer(
                        final(state)@.ledger.offers,
                        id2,
                    ) == spec_find_offer(old(state)@.ledger.offers, id2))
                    && (exists|i: int| 0 <= i < old(state)@.ledger.offers.len()
                        && old(state)@.ledger.offers[i].id == id
                        && final(state)@.ledger.offers == old(state)@.ledger.offers.remove(i)),
                Err(e) => sc matches Err(ev) && e@ == ev && *final(state) == *old(state),
            }
        }),
{
    let offer = match state.ledger.load(id) {
        Ok(o) => o,
        Err(e) => {
            return Err(ContractError::Std(e));
        },
    };
    if offer.sender != info.sender {
        return Err(ContractError::UnauthorizedSender);
    }
    let res = refund_response(&offer);
    state.ledger.remove(id);
    proof {
        let s0 = old(state)@.ledger.offers;
        let i = choose|i: int| 0 <= i < s0.len() && s0[i].id == id && final(state)@.ledger.offers == s0.remove(i);
        lemma_offers_remove_preserves(
            s0,
            final(state)@.ledger.offers,
            old(state)@.ledger.id_counter,
            i,
        );
    }
    Ok(res)
}

/// Rejection, by the offer's peer only: the same refund-then-delete pattern
/// as removal.
pub fn execute_reject_offer(state: &mut TradeState, info: &MessageInfo, id: u64) -> (r: Result<Response, ContractError>)
    requires
        old(state).inv(),
    ensures
        final(state).inv(),
        ({
            let sc = spec_reject_offer(old(state)@, info@.sender, id);
            match r {
                Ok(resp) => sc matches Ok((offer, msgs))
                    && resp@.messages == msgs
                    && final(state)@.params == old(state)@.params
                    && final(state)@.ledger.id_counter == old(state)@.ledger.id_counter
                    && spec_find_offer(final(state)@.ledger.offers, id) == None::<OfferV>
                    && (forall|id2: u64| id2 != id ==> spec_find_offer(
                        final(state)@.ledger.offers,
                        id2,
                    ) == spec_find_offer(old(state)@.ledger.offers, id2))
                    && (exists|i: int| 0 <= i < old(state)@.ledger.offers.len()
                        && old(state)@.ledger.offers[i].id == id
                        && final(state)@.ledger.offers == old(state)@.ledger.offers.remove(i)),
                Err(e) => sc matches Err(ev) && e@ == ev && *final(state) == *old(state),
            }
        }),
{
    let offer = match state.ledger.load(id) {
        Ok(o) => o,
        Err(e) => {
            return Err(ContractError::Std(e));
        },
    };
    if offer.peer != info.sender {
        return Err(ContractError::UnauthorizedOperator);
    }
    let res = refund_response(&offer);
    state.ledger.remove(id);
    proof {
        let s0 = old(state)@.ledger.offers;
        let i = choose|i: int| 0 <= i < s0.len() && s0[i].id == id && final(state)@.ledger.offers == s0.remove(i);
        lemma_offers_remove_preserves(
            s0,
            final(state)@.ledger.offers,
            old(state)@.ledger.id_counter,
            i,
        );
    }
    Ok(res)
}

/// Incentivized cleanup, by the configured maintainer only: an offer whose
/// expiry time lies strictly behind the current block time is refunded to
/// its sender and deleted. An offer not yet expired is left alone.
pub fn execute_remove_stale_offer(state: &mut TradeState, env: &Env, info: &MessageInfo, id: u64) -> (r: Result<Response, ContractError>)
    requires
        old(state).inv(),
    ensures
        final(state).inv(),
        ({
            let sc = spec_remove_stale_offer(old(state)@, env@.block_time, info@.sender, id);
            match r {
                Ok(resp) => sc matches Ok((offer, msgs))
                    && resp@.messages == msgs
                    && final(state)@.params == old(state)@.params
                    && final(state)@.ledger.id_counter == old(state)@.ledger.id_counter
                    && spec_find_offer(final(state)@.ledger.offers, id) == None::<OfferV>
                    && (forall|id2: u64| id2 != id ==> spec_find_offer(
                        final(state)@.ledger.offers,
                        id2,
                    ) == spec_find_offer(old(state)@.ledger.offers, id2))
                    && (exists|i: int| 0 <= i < old(state)@.ledger.offers.len()
                        && old(state)@.ledger.offers[i].id == id
                        && final(state)@.ledger.offers == old(state)@.ledger.offers.remove(i)),
                Err(e) => sc matches Err(ev) && e@ == ev && *final(state) == *old(state),
            }
        }),
{
    if info.sender != state.params.maintainer {
        return Err(ContractError::UnauthorizedOperator);
    }
    let offer = match state.ledger.load(id) {
        Ok(o) => o,
        Err(e) => {
            return Err(ContractError::Std(e));
        },
    };
    if env.block_time.nanos() <= offer.expires_at.nanos() {
        return Err(ContractError::ExpiryRange(ExpiryRangeError::InvalidExpirationRange));
    }
    let res = refund_response(&offer);
    state.ledger.remove(id);
    proof {
        let s0 = old(state)@.ledger.offers;
        let i = choose|i: int| 0 <= i < s0.len() && s0[i].id == id && final(state)@.ledger.offers == s0.remove(i);
        lemma_offers_remove_preserves(
            s0,
            final(state)@.ledger.offers,
            old(state)@.ledger.id_counter,
            i,
        );
    }
    Ok(res)
}

/// The live re-checks on the wanted bundle at acceptance: the caller (the
/// peer) must still own each token and the engine must be approved to move
/// it. The first violation, from `from` on, wins.
pub open spec fn spec_accept_checks_wanted(tokens: Seq<TokenV>, from: int, caller: Seq<char>, contract: Seq<char>, reg: TokenRegistryV) -> Option<ContractErrorV>
    decreases tokens.len() - from,
{
    if from < 0 || from >= tokens.len() {
        None
    } else {
        let t = tokens[from];
        match spec_owner_of(reg, t.collection, t.token_id) {
            None => Some(owner_query_failed()),
            Some(owner) => if owner != caller {
                Some(ContractErrorV::UnauthorizedSender)
            } else if !spec_is_approved(reg, t.collection, t.token_id, contract) {
                Some(
                    ContractErrorV::Unauthorized {
                        collection: t.collection,
                        token_id: t.token_id,
                    },
                )
            } else {
                spec_accept_checks_wanted(tokens, from + 1, caller, contract, reg)
            },
        }
    }
}

/// The live re-checks on the offered bundle at acceptance: the offer's
/// sender must still own each token and the engine must be approved to move
/// it.
pub open spec fn spec_accept_checks_offered(tokens: Seq<TokenV>, from: int, sender: Seq<char>, contract: Seq<char>, reg: TokenRegistryV) -> Option<ContractErrorV>
    decreases tokens.len() - from,
{
    if from < 0 || from >= tokens.len() {
        None
    } else {
        let t = tokens[from];
        match spec_owner_of(reg, t.collection, t.token_id) {
            None => Some(owner_query_failed()),
            Some(owner) => if owner != sender {
                Some(
                    ContractErrorV::UnauthorizedPeer {
                        collection: t.collection,
                        token_id: t.token_id,
                        peer: sender,
                    },
                )
            } else if !spec_is_approved(reg, t.collection, t.token_id, contract) {
                Some(ContractErrorV::UnauthorizedOperator)
            } else {
                spec_accept_checks_offered(tokens, from + 1, sender, contract, reg)
            },
        }
    }
}

/// What acceptance emits on success: the offered bundle to the peer, the
/// wanted bundle to the sender, the escrowed balances to the peer, and each
/// royalty to its creator, in that order.
pub open spec fn spec_accept_msgs(offer: OfferV) -> Seq<SubMsgV> {
    spec_transfer_msgs(offer.offered_nfts, offer.peer) + spec_transfer_msgs(
        offer.wanted_nfts,
        offer.sender,
    ) + spec_send_msgs(offer.offered_balances, offer.peer) + spec_royalty_msgs(offer.royalties)
}

/// What acceptance decides: the offer must exist, the caller must be its
/// peer, the offer's expiry must satisfy the window rule re-measured at the
/// current block time (strictly more than `min` seconds after its creation,
/// at most `max` seconds from now), and both sides' live ownership and
/// approval checks must pass at acceptance time — regardless of what held
/// at creation. The window rule does not compare the block time with the
/// expiry time itself, so an offer whose `expires_at` has passed can still
/// be accepted; clearing such offers is the maintainer's stale removal. On
/// success the offer is deleted and the swap instructions are emitted.
pub open spec fn spec_accept_offer(state: TradeStateV, now: Timestamp, contract: Seq<char>, caller: Seq<char>, id: u64, reg: TokenRegistryV) -> Result<(OfferV, Seq<SubMsgV>), ContractErrorV> {
    match spec_find_offer(state.ledger.offers, id) {
        None => Err(offer_not_found()),
        Some(offer) => if offer.peer != caller {
            Err(ContractErrorV::UnauthorizedSender)
        } else if !state.params.offer_expiry.spec_is_valid(now, offer.created_at, offer.expires_at) {
            Err(ContractErrorV::ExpiryRange(ExpiryRangeError::InvalidExpirationRange))
        } else {
            match spec_accept_checks_wanted(offer.wanted_nfts, 0, caller, contract, reg) {
                Some(e) => Err(e),
                None => match spec_accept_checks_offered(
                    offer.offered_nfts,
                    0,
                    offer.sender,
                    contract,
                    reg,
                ) {
                    Some(e) => Err(e),
                    None => Ok((offer, spec_accept_msgs(offer))),
                },
            }
        },
    }
}

/// Acceptance, by the offer's peer only: re-validate expiry and both sides'
/// live ownership and approvals, then delete the offer and emit the swap.
pub fn execute_accept_offer(state: &mut TradeState, env: &Env, info: &MessageInfo, id: u64, registry: &TokenRegistry) -> (r: Result<Response, ContractError>)
    requires
        old(state).inv(),
        time_ok(env.block_time),
    ensures
        final(state).inv(),
        ({
            let sc = spec_accept_offer(
                old(state)@,
                env@.block_time,
                env@.contract,
                info@.sender,
                id,
                registry@,
            );
            match r {
                Ok(resp) => sc matches Ok((offer, msgs))
                    && resp@.messages == msgs
                    && final(state)@.params == old(state)@.params
                    && final(state)@.ledger.id_counter == old(state)@.ledger.id_counter
                    && spec_find_offer(final(state)@.ledger.offers, id) == None::<OfferV>
                    && (forall|id2: u64| id2 != id ==> spec_find_offer(
                        final(state)@.ledger.offers,
                        id2,
                    ) == spec_find_offer(old(state)@.ledger.offers, id2))
                    && (exists|i: int| 0 <= i < old(state)@.ledger.offers.len()
                        && old(state)@.ledger.offers[i].id == id
                        && final(state)@.ledger.offers == old(state)@.ledger.offers.remove(i)),
                Err(e) => sc matches Err(ev) && e@ == ev && *final(state) == *old(state),
            }
        }),
{
    let offer = match state.ledger.load(id) {
        Ok(o) => o,
        Err(e) => {
            return Err(ContractError::Std(e));
        },
    };
    if offer.peer != info.sender {
        return Err(ContractError::UnauthorizedSender);
    }
    proof {
        lemma_found_offer_is_member(old(state)@.ledger.offers, id, offer@);
        lemma_expiry_args_ok(state.params.offer_expiry, env.block_time, offer.created_at);
    }
    match state.params.offer_expiry.is_valid(env.block_time, offer.created_at, offer.expires_at) {
        Err(_) => {
            return Err(ContractError::ExpiryRange(ExpiryRangeError::InvalidExpirationRange));
        },
        Ok(()) => {},
    }
    let ghost wv = offer@.wanted_nfts;
    let ghost ov = offer@.offered_nfts;
    let mut i: usize = 0;
    while i < offer.wanted_nfts.len()
        invariant
            i <= offer.wanted_nfts.len(),
            old(state).inv(),
            *state == *old(state),
            spec_find_offer(old(state)@.ledger.offers, id) == Some(offer@),
            offer@.peer == info@.sender,
            old(state)@.params.offer_expiry.spec_is_valid(
                env@.block_time,
                offer@.created_at,
                offer@.expires_at,
            ),
            wv == offer.wanted_nfts.deep_view(),
            spec_accept_checks_wanted(wv, 0, info@.sender, env@.contract, registry@)
                == spec_accept_checks_wanted(wv, i as int, info@.sender, env@.contract, registry@),
        decreases offer.wanted_nfts.len() - i,
    {
        let t = &offer.wanted_nfts[i];
        proof {
            assert(wv[i as int] == t@);
        }
        match only_owner(registry, info, &t.collection, t.token_id) {
            Err(e) => {
                return Err(e);
            },
            Ok(()) => {},
        }
        if !registry.is_approved(&t.collection, t.token_id, &env.contract) {
            return Err(
                ContractError::Unauthorized {
                    collection: t.collection.clone(),
                    token_id: t.token_id,
                },
            );
        }
        i = i + 1;
    }
    let mut i: usize = 0;
    while i < offer.offered_nfts.len()
        invariant
            i <= offer.offered_nfts.len(),
            old(state).inv(),
            *state == *old(state),
            spec_find_offer(old(state)@.ledger.offers, id) == Some(offer@),
            offer@.peer == info@.sender,
            old(state)@.params.offer_expiry.spec_is_valid(
                env@.block_time,
                offer@.created_at,
                offer@.expires_at,
            ),
            ov == offer.offered_nfts.deep_view(),
            spec_accept_checks_wanted(wv, 0, info@.sender, env@.contract, registry@)
                == None::<ContractErrorV>,
            wv == offer.wanted_nfts.deep_view(),
            spec_accept_checks_offered(ov, 0, offer@.sender, env@.contract, registry@)
                == spec_accept_checks_offered(
                ov,
                i as int,
                offer@.sender,
                env@.contract,
                registry@,
            ),
        decreases offer.offered_nfts.len() - i,
    {
        let t = &offer.offered_nfts[i];
        proof {
            assert(ov[i as int] == t@);
        }
        match registry.owner_of(&t.collection, t.token_id) {
            None => {
                return Err(
                    ContractError::Std(
                        crate::error::StdError::GenericErr {
                            msg: String::from_str("owner query failed"),
                        },
                    ),
                );
            },
            Some(owner) => {
                if owner != offer.sender {
                    return Err(
                        ContractError::UnauthorizedPeer {
                            collection: t.collection.clone(),
                            token_id: t.token_id,
                            peer: offer.sender.clone(),
                        },
                    );
                }
            },
        }
        if !registry.is_approved(&t.collection, t.token_id, &env.contract) {
            return Err(ContractError::UnauthorizedOperator);
        }
        i = i + 1;
    }
    state.ledger.remove(id);
    proof {
        let s0 = old(state)@.ledger.offers;
        let i = choose|i: int| 0 <= i < s0.len() && s0[i].id == id && final(state)@.ledger.offers == s0.remove(i);
        lemma_offers_remove_preserves(
            s0,
            final(state)@.ledger.offers,
            old(state)@.ledger.id_counter,
            i,
        );
    }
    let mut res = Response::new();
    transfer_nfts(&offer.peer, &offer.offered_nfts, &mut res);
    transfer_nfts(&offer.sender, &offer.wanted_nfts, &mut res);
    push_send_msgs(&offer.peer, &offer.offered_balances, &mut res);
    push_royalty_msgs(&offer.royalties, &mut res);
    proof {
        assert(Seq::<SubMsgV>::empty() + spec_transfer_msgs(offer@.offered_nfts, offer@.peer)
            =~= spec_transfer_msgs(offer@.offered_nfts, offer@.peer));
        assert(res@.messages == spec_accept_msgs(offer@));
    }
    Ok(res)
}

/// The escrow check at creation: every balance named in the offer must have
/// been attached to the call in full. The first violation, from `from` on,
/// wins; an underpaid balance fails like missing funds.
pub open spec fn spec_check_balances(balances: Seq<CoinV>, from: int, funds: Seq<CoinV>) -> Option<ContractErrorV>
    decreases balances.len() - from,
{
    if from < 0 || from >= balances.len() {
        None
    } else {
        match spec_must_pay(funds, balances[from].denom) {
            Err(e) => Some(ContractErrorV::Payment(e)),
            Ok(paid) => if paid < balances[from].amount {
                Some(ContractErrorV::Payment(crate::error::PaymentErrorV::NoFunds))
            } else {
                spec_check_balances(balances, from + 1, funds)
            },
        }
    }
}

/// The creation-time checks on the wanted bundle, from `from` on: the peer
/// must currently own each token, and royalties accumulate per token when
/// enforced.
pub open spec fn spec_check_wanted(tokens: Seq<TokenV>, from: int, peer: Seq<char>, reg: TokenRegistryV, enforced: bool, balances: Seq<CoinV>, funds: Seq<CoinV>) -> Result<Seq<RoyaltyV>, ContractErrorV>
    decreases tokens.len() - from,
{
    if from < 0 || from >= tokens.len() {
        Ok(Seq::empty())
    } else {
        let t = tokens[from];
        match spec_owner_of(reg, t.collection, t.token_id) {
            None => Err(owner_query_failed()),
            Some(owner) => if owner != peer {
                Err(
                    ContractErrorV::UnauthorizedPeer {
                        collection: t.collection,
                        token_id: t.token_id,
                        peer,
                    },
                )
            } else {
                match spec_token_royalties(reg, t.collection, enforced, balances, funds) {
                    Err(e) => Err(e),
                    Ok(rs) => match spec_check_wanted(
                        tokens,
                        from + 1,
                        peer,
                        reg,
                        enforced,
                        balances,
                        funds,
                    ) {
                        Err(e) => Err(e),
                        Ok(rest) => Ok(rs + rest),
                    },
                }
            },
        }
    }
}

/// The creation-time checks on the offered bundle, from `from` on: the
/// sender must currently own each token, the engine must be approved to
/// move it, no active offer of the same sender may already lock it, and
/// royalties accumulate per token when enforced.
pub open spec fn spec_check_offered(tokens: Seq<TokenV>, from: int, sender: Seq<char>, contract: Seq<char>, sender_offers: Seq<OfferV>, reg: TokenRegistryV, enforced: bool, balances: Seq<CoinV>, funds: Seq<CoinV>) -> Result<Seq<RoyaltyV>, ContractErrorV>
    decreases tokens.len() - from,
{
    if from < 0 || from >= tokens.len() {
        Ok(Seq::empty())
    } else {
        let t = tokens[from];
        match spec_owner_of(reg, t.collection, t.token_id) {
            None => Err(owner_query_failed()),
            Some(owner) => if owner != sender {
                Err(ContractErrorV::UnauthorizedSender)
            } else if !spec_is_approved(reg, t.collection, t.token_id, contract) {
                Err(
                    ContractErrorV::Unauthorized {
                        collection: t.collection,
                        token_id: t.token_id,
                    },
                )
            } else {
                match spec_find_conflict(sender_offers, 0, t) {
                    Some(cid) => Err(
                        ContractErrorV::TokenAlreadyOffered {
                            collection: t.collection,
                            token_id: t.token_id,
                            offer_id: cid,
                        },
                    ),
                    None => match spec_token_royalties(reg, t.collection, enforced, balances, funds) {
                        Err(e) => Err(e),
                        Ok(rs) => match spec_check_offered(
                            tokens,
                            from + 1,
                            sender,
                            contract,
                            sender_offers,
                            reg,
                            enforced,
                            balances,
                            funds,
                        ) {
                            Err(e) => Err(e),
                            Ok(rest) => Ok(rs + rest),
                        },
                    },
                }
            },
        }
    }
}

/// The expiry an offer gets when the sender supplies none: one second more
/// than the window's minimum after now.
pub open spec fn spec_default_expiry(now: Timestamp, range: ExpiryRange) -> Timestamp {
    Timestamp { nanos: (now.nanos + (range.min + 1) * NANOS_PER_SECOND) as u64 }
}

/// What creation decides, for every input: the fail-fast validation order is
/// self-trade, empty bundle, the sender's offer-count limit, the bundle-size
/// limit, the escrow check, the expiry check, the wanted-bundle checks and
/// the offered-bundle checks; the first violation names the error. On
/// success the new offer carries the next counter id, the royalties
/// accumulated over the wanted then the offered bundle, and the caller's
/// identities and times.
pub open spec fn spec_create_offer(state: TradeStateV, env: EnvV, info: MessageInfoV, offered: Seq<TokenV>, wanted: Seq<TokenV>, balances: Seq<CoinV>, message: Option<Seq<char>>, peer: Seq<char>, expires_at: Option<Timestamp>, reg: TokenRegistryV) -> Result<OfferV, ContractErrorV> {
    let params = state.params;
    let sender_offers = spec_by_sender(state.ledger.offers, info.sender);
    let enforced = balances.len() > 1;
    if info.sender == peer {
        Err(ContractErrorV::AlreadyOwned)
    } else if offered.len() == 0 || wanted.len() == 0 {
        Err(ContractErrorV::EmptyTokenVector)
    } else if sender_offers.len() + 1 > params.max_offers {
        Err(ContractErrorV::MaxOffers { addr: info.sender, max_offers: params.max_offers })
    } else if offered.len() > params.bundle_limit || wanted.len() > params.bundle_limit {
        Err(ContractErrorV::MaxBundle { limit: params.bundle_limit })
    } else {
        match spec_check_balances(balances, 0, info.funds) {
            Some(e) => Err(e),
            None => {
                let expires = match expires_at {
                    Some(t) => t,
                    None => spec_default_expiry(env.block_time, params.offer_expiry),
                };
                if !params.offer_expiry.spec_is_valid(env.block_time, env.block_time, expires) {
                    Err(ContractErrorV::ExpiryRange(ExpiryRangeError::InvalidExpirationRange))
                } else {
                    match spec_check_wanted(wanted, 0, peer, reg, enforced, balances, info.funds) {
                        Err(e) => Err(e),
                        Ok(wr) => match spec_check_offered(
                            offered,
                            0,
                            info.sender,
                            env.contract,
                            sender_offers,
                            reg,
                            enforced,
                            balances,
                            info.funds,
                        ) {
                            Err(e) => Err(e),
                            Ok(or) => Ok(
                                OfferV {
                                    id: (state.ledger.id_counter + 1) as u64,
                                    offered_nfts: offered,
                                    wanted_nfts: wanted,
                                    offered_balances: balances,
                                    message,
                                    royalties: wr + or,
                                    sender: info.sender,
                                    peer,
                                    created_at: env.block_time,
                                    expires_at: expires,
                                },
                            ),
                        },
                    }
                }
            },
        }
    }
}

/// Creation: the full validation pipeline of the engine, in fail-fast
/// order, then the atomic assignment of the next id and the ledger write.
/// No transfer is emitted at creation; the escrowed balances were already
/// paid in with this very call.
#[verifier::loop_isolation(false)]
pub fn execute_create_offer(state: &mut TradeState, env: &Env, info: &MessageInfo, offered_tokens: Vec<TokenMsg>, wanted_tokens: Vec<TokenMsg>, offered_balances: Vec<Coin>, message: Option<String>, peer: String, expires_at: Option<Timestamp>, registry: &TokenRegistry) -> (r: Result<Response, ContractError>)
    requires
        old(state).inv(),
        registry.wf(),
        time_ok(env.block_time),
        old(state)@.ledger.id_counter < u64::MAX,
    ensures
        final(state).inv(),
        ({
            let sc = spec_create_offer(
                old(state)@,
                env@,
                info@,
                offered_tokens.deep_view(),
                wanted_tokens.deep_view(),
                offered_balances.deep_view(),
                message.deep_view(),
                peer@,
                expires_at,
                registry@,
            );
            match r {
                Ok(resp) => sc matches Ok(o)
                    && final(state)@.ledger.offers == old(state)@.ledger.offers.push(o)
                    && final(state)@.ledger.id_counter == old(state)@.ledger.id_counter + 1
                    && final(state)@.params == old(state)@.params
                    && resp@.messages == Seq::<SubMsgV>::empty(),
                Err(e) => sc matches Err(ev) && e@ == ev && *final(state) == *old(state),
            }
        }),
{
    let ghost odv = offered_tokens.deep_view();
    let ghost wdv = wanted_tokens.deep_view();
    let ghost bv = offered_balances.deep_view();
    let ghost mv = message.deep_view();
    let ghost pv = peer@;
    let ghost fv = info@.funds;
    let ghost regv = registry@;

    if info.sender == peer {
        return Err(ContractError::AlreadyOwned);
    }
    if offered_tokens.len() == 0 {
        return Err(ContractError::EmptyTokenVector);
    }
    if wanted_tokens.len() == 0 {
        return Err(ContractError::EmptyTokenVector);
    }

    let offers_from_sender = state.ledger.list_by_sender(&info.sender);
    let ghost so = offers_from_sender.deep_view();

    if offers_from_sender.len() as u64 >= state.params.max_offers {
        return Err(
            ContractError::MaxOffers {
                addr: info.sender.clone(),
                max_offers: state.params.max_offers,
            },
        );
    }
    if offered_tokens.len() as u64 > state.params.bundle_limit || wanted_tokens.len() as u64
        > state.params.bundle_limit {
        return Err(ContractError::MaxBundle { limit: state.params.bundle_limit });
    }

    let mut bi: usize = 0;
    while bi < offered_balances.len()
        invariant
            bi <= offered_balances.len(),
            spec_check_balances(bv, 0, fv) == spec_check_balances(bv, bi as int, fv),
        decreases offered_balances.len() - bi,
    {
        let b = &offered_balances[bi];
        proof {
            assert(bv[bi as int] == b@);
        }
        match must_pay(info, &b.denom) {
            Err(e) => {
                return Err(ContractError::Payment(e));
            },
            Ok(paid) => {
                if paid < b.amount {
                    return Err(ContractError::Payment(crate::error::PaymentError::NoFunds));
                }
            },
        }
        bi = bi + 1;
    }

    let expires = match expires_at {
        Some(t) => t,
        None => {
            proof {
                lemma_mul_inequality(
                    (state.params.offer_expiry.min + 1) as int,
                    (MAX_EXPIRY + 1) as int,
                    NANOS_PER_SECOND as int,
                );
            }
            env.block_time.plus_seconds(state.params.offer_expiry.min + 1)
        },
    };
    proof {
        lemma_expiry_args_ok(state.params.offer_expiry, env.block_time, env.block_time);
    }
    match state.params.offer_expiry.is_valid(env.block_time, env.block_time, expires) {
        Err(_) => {
            return Err(ContractError::ExpiryRange(ExpiryRangeError::InvalidExpirationRange));
        },
        Ok(()) => {},
    }

    let enforced = offered_balances.len() > 1;
    let mut royalties: Vec<Royalty> = Vec::new();
    let mut wanted_nfts: Vec<Token> = Vec::new();
    let mut i: usize = 0;
    proof {
        assert(royalties.deep_view() =~= Seq::<RoyaltyV>::empty());
        assert(wanted_nfts.deep_view() =~= wdv.take(0));
    }
    while i < wanted_tokens.len()
        invariant
            i <= wanted_tokens.len(),
            wanted_nfts.deep_view() == wdv.take(i as int),
            spec_check_wanted(wdv, 0, pv, regv, enforced, bv, fv) == (match spec_check_wanted(
                wdv,
                i as int,
                pv,
                regv,
                enforced,
                bv,
                fv,
            ) {
                Ok(rest) => Ok::<Seq<RoyaltyV>, ContractErrorV>(royalties.deep_view() + rest),
                Err(e) => Err::<Seq<RoyaltyV>, ContractErrorV>(e),
            }),
        decreases wanted_tokens.len() - i,
    {
        let tm = &wanted_tokens[i];
        let token = Token { collection: tm.collection.clone(), token_id: tm.token_id };
        proof {
            assert(token@ == wdv[i as int]);
        }
        wanted_nfts.push(token.duplicate());
        proof {
            assert(wanted_nfts.deep_view() =~= wdv.take(i as int + 1));
        }
        match registry.owner_of(&token.collection, token.token_id) {
            None => {
                return Err(
                    ContractError::Std(
                        crate::error::StdError::GenericErr {
                            msg: String::from_str("owner query failed"),
                        },
                    ),
                );
            },
            Some(owner) => {
                if owner != peer {
                    return Err(
                        ContractError::UnauthorizedPeer {
                            collection: token.collection.clone(),
                            token_id: token.token_id,
                            peer: peer.clone(),
                        },
                    );
                }
            },
        }
        let ghost racc = royalties.deep_view();
        match token_royalties(
            registry,
            &token.collection,
            enforced,
            &offered_balances,
            info,
            &mut royalties,
        ) {
            Err(e) => {
                return Err(e);
            },
            Ok(()) => {},
        }
        proof {
            match spec_token_royalties(regv, wdv[i as int].collection, enforced, bv, fv) {
                Ok(rs) => {
                    assert(royalties.deep_view() == racc + rs);
                    match spec_check_wanted(wdv, i as int + 1, pv, regv, enforced, bv, fv) {
                        Ok(rest) => {
                            assert((racc + rs) + rest =~= racc + (rs + rest));
                        },
                        Err(_) => {},
                    }
                },
                Err(_) => {
                    assert(false);
                },
            }
        }
        i = i + 1;
    }
    proof {
        assert(wdv.take(wanted_tokens.len() as int) =~= wdv);
        match spec_check_wanted(wdv, wanted_tokens.len() as int, pv, regv, enforced, bv, fv) {
            Ok(rest) => {
                assert(rest =~= Seq::<RoyaltyV>::empty());
                assert(royalties.deep_view() + rest =~= royalties.deep_view());
            },
            Err(_) => {
                assert(false);
            },
        }
    }
    let ghost wroyal = royalties.deep_view();

    let mut offered_nfts: Vec<Token> = Vec::new();
    let mut oi: usize = 0;
    proof {
        assert(offered_nfts.deep_view() =~= odv.take(0));
        assert(royalties.deep_view().take(wroyal.len() as int) =~= wroyal);
        assert(royalties.deep_view().skip(wroyal.len() as int) =~= Seq::<RoyaltyV>::empty());
    }
    while oi < offered_tokens.len()
        invariant
            oi <= offered_tokens.len(),
            offered_nfts.deep_view() == odv.take(oi as int),
            wroyal.len() <= royalties.deep_view().len(),
            royalties.deep_view().take(wroyal.len() as int) == wroyal,
            spec_check_offered(odv, 0, info@.sender, env@.contract, so, regv, enforced, bv, fv)
                == (match spec_check_offered(
                odv,
                oi as int,
                info@.sender,
                env@.contract,
                so,
                regv,
                enforced,
                bv,
                fv,
            ) {
                Ok(rest) => Ok::<Seq<RoyaltyV>, ContractErrorV>(
                    royalties.deep_view().skip(wroyal.len() as int) + rest,
                ),
                Err(e) => Err::<Seq<RoyaltyV>, ContractErrorV>(e),
            }),
        decreases offered_tokens.len() - oi,
    {
        let tm = &offered_tokens[oi];
        let token = Token { collection: tm.collection.clone(), token_id: tm.token_id };
        proof {
            assert(token@ == odv[oi as int]);
        }
        offered_nfts.push(token.duplicate());
        proof {
            assert(offered_nfts.deep_view() =~= odv.take(oi as int + 1));
        }
        match only_owner(registry, info, &token.collection, token.token_id) {
            Err(e) => {
                return Err(e);
            },
            Ok(()) => {},
        }
        if !registry.is_approved(&token.collection, token.token_id, &env.contract) {
            return Err(
                ContractError::Unauthorized {
                    collection: token.collection.clone(),
                    token_id: token.token_id,
                },
            );
        }
        match find_conflict(&offers_from_sender, &token) {
            Some(cid) => {
                return Err(
                    ContractError::TokenAlreadyOffered {
                        collection: token.collection.clone(),
                        token_id: token.token_id,
                        offer_id: cid,
                    },
                );
            },
            None => {},
        }
        let ghost racc = royalties.deep_view();
        match token_royalties(
            registry,
            &token.collection,
            enforced,
            &offered_balances,
            info,
            &mut royalties,
        ) {
            Err(e) => {
                return Err(e);
            },
            Ok(()) => {},
        }
        proof {
            match spec_token_royalties(regv, odv[oi as int].collection, enforced, bv, fv) {
                Ok(rs) => {
                    assert(royalties.deep_view() == racc + rs);
                    assert(royalties.deep_view().take(wroyal.len() as int) =~= wroyal);
                    assert(royalties.deep_view().skip(wroyal.len() as int) =~= racc.skip(
                        wroyal.len() as int,
                    ) + rs);
                    match spec_check_offered(
                        odv,
                        oi as int + 1,
                        info@.sender,
                        env@.contract,
                        so,
                        regv,
                        enforced,
                        bv,
                        fv,
                    ) {
                        Ok(rest) => {
                            assert((racc.skip(wroyal.len() as int) + rs) + rest =~= racc.skip(
                                wroyal.len() as int,
                            ) + (rs + rest));
                        },
                        Err(_) => {},
                    }
                },
                Err(_) => {
                    assert(false);
                },
            }
        }
        oi = oi + 1;
    }
    proof {
        assert(odv.take(offered_tokens.len() as int) =~= odv);
        match spec_check_offered(
            odv,
            offered_tokens.len() as int,
            info@.sender,
            env@.contract,
            so,
            regv,
            enforced,
            bv,
            fv,
        ) {
            Ok(rest) => {
                assert(rest =~= Seq::<RoyaltyV>::empty());
                assert(royalties.deep_view().skip(wroyal.len() as int) + rest =~= royalties
                    .deep_view().skip(wroyal.len() as int));
            },
            Err(_) => {
                assert(false);
            },
        }
        assert(wroyal + royalties.deep_view().skip(wroyal.len() as int) =~= royalties.deep_view());
    }

    let id = state.ledger.next_offer_id();
    let sender = info.sender.clone();
    let offer = Offer {
        id,
        offered_nfts,
        wanted_nfts,
        offered_balances,
        message,
        royalties,
        sender,
        peer,
        created_at: env.block_time,
        expires_at: expires,
    };
    let ghost offv = offer@;
    proof {
        match spec_create_offer(old(state)@, env@, info@, odv, wdv, bv, mv, pv, expires_at, regv) {
            Ok(o) => {
                assert(offv.royalties =~= o.royalties);
                assert(offv.offered_nfts =~= o.offered_nfts);
                assert(offv.wanted_nfts =~= o.wanted_nfts);
                assert(offv.offered_balances =~= o.offered_balances);
                assert(offv == o);
            },
            Err(_) => {
                assert(false);
            },
        }
    }
    state.ledger.save(offer);
    proof {
        let s0 = old(state)@.ledger.offers;
        assert(forall|k: int| 0 <= k < s0.len() ==> (#[trigger] s0[k]).id < offv.id);
        assert(!spec_has_offer(s0, offv.id));
        let i2 = choose|i2: int| 0 <= i2 <= s0.len() && state@.ledger.offers == s0.insert(
            i2,
            offv,
        );
        if i2 < s0.len() {
            assert(state@.ledger.offers[i2] == offv);
            assert(state@.ledger.offers[i2 + 1] == s0[i2]);
            assert(false);
        }
        assert(state@.ledger.offers =~= s0.push(offv));
        assert forall|k: int| 0 <= k < state@.ledger.offers.len() implies (#[trigger] state@.ledger.offers[k]).id
            <= state@.ledger.id_counter && offer_shape_wf(state@.ledger.offers[k]) by {
            if k < s0.len() {
                assert(state@.ledger.offers[k] == s0[k]);
            } else {
                assert(state@.ledger.offers[k] == offv);
            }
        }
    }
    Ok(Response::new())
}

} // verus!
