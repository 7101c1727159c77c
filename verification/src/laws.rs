//! Engine-wide laws, stated and proved once over the spec-level twins that
//! every transition's contract is phrased against.

use vstd::prelude::*;

use crate::execute::{
    offer_not_found, spec_accept_checks_offered, spec_accept_checks_wanted, spec_accept_offer,
    spec_create_offer, spec_reject_offer, spec_remove_offer, spec_remove_stale_offer,
};
use crate::msg::{EnvV, MessageInfoV};
use crate::registry::{spec_is_approved, spec_owner_of, TokenRegistryV};
use crate::state::{
    offer_shape_wf, offers_sorted, spec_by_sender, spec_find_offer, CoinV, OfferLedgerV, OfferV,
    TokenV, TradeState, TradeStateV,
};
use crate::time::Timestamp;

verus! {

/// Every offer that creation accepts is well-formed: the sender and peer
/// differ, both bundles are non-empty and neither exceeds the bundle limit,
/// and the identities and times are the caller's.
pub proof fn lemma_created_offer_well_formed(
    state: TradeStateV,
    env: EnvV,
    info: MessageInfoV,
    offered: Seq<TokenV>,
    wanted: Seq<TokenV>,
    balances: Seq<CoinV>,
    message: Option<Seq<char>>,
    peer: Seq<char>,
    expires_at: Option<Timestamp>,
    reg: TokenRegistryV,
    o: OfferV,
)
    requires
        state.ledger.id_counter < u64::MAX,
        spec_create_offer(state, env, info, offered, wanted, balances, message, peer, expires_at, reg)
            == Ok::<OfferV, crate::error::ContractErrorV>(o),
    ensures
        o.sender != o.peer,
        1 <= o.offered_nfts.len() <= state.params.bundle_limit,
        1 <= o.wanted_nfts.len() <= state.params.bundle_limit,
        o.sender == info.sender,
        o.peer == peer,
        o.created_at == env.block_time,
        o.id == state.ledger.id_counter + 1,
        o.expires_at.nanos > o.created_at.nanos + state.params.offer_expiry.min
            * crate::time::NANOS_PER_SECOND,
        o.expires_at.nanos <= o.created_at.nanos + state.params.offer_expiry.max
            * crate::time::NANOS_PER_SECOND,
{
}

/// In every state satisfying the invariant, every persisted offer has a
/// sender distinct from its peer and two non-empty bundles.
pub proof fn lemma_state_offers_well_shaped(state: TradeState)
    requires
        state.inv(),
    ensures
        forall|i: int| 0 <= i < state@.ledger.offers.len() ==> offer_shape_wf(
            #[trigger] state@.ledger.offers[i],
        ),
{
}

/// The offer-count limit, stated on its own: once a sender's active offers
/// have reached `max_offers`, creating one more fails with the offer-limit
/// error naming that sender and the limit. The fail-fast order makes this
/// error reachable only past the self-trade and empty-bundle checks, which
/// is why those appear as preconditions; that the failing call also leaves
/// the state untouched is the error branch of the creation contract.
pub proof fn lemma_offer_limit_enforced(
    state: TradeStateV,
    env: EnvV,
    info: MessageInfoV,
    offered: Seq<TokenV>,
    wanted: Seq<TokenV>,
    balances: Seq<CoinV>,
    message: Option<Seq<char>>,
    peer: Seq<char>,
    expires_at: Option<Timestamp>,
    reg: TokenRegistryV,
)
    requires
        info.sender != peer,
        offered.len() >= 1,
        wanted.len() >= 1,
        spec_by_sender(state.ledger.offers, info.sender).len() + 1 > state.params.max_offers,
    ensures
        spec_create_offer(state, env, info, offered, wanted, balances, message, peer, expires_at, reg)
            == Err::<OfferV, crate::error::ContractErrorV>(
            crate::error::ContractErrorV::MaxOffers {
                addr: info.sender,
                max_offers: state.params.max_offers,
            },
        ),
{
}

/// Ids are never reused: in any state satisfying the invariant, the id the
/// counter will hand out next differs from every stored offer's id — and
/// since deletion leaves the counter unchanged, from every id ever handed
/// out.
pub proof fn lemma_next_id_is_fresh(state: TradeState)
    requires
        state.inv(),
        state@.ledger.id_counter < u64::MAX,
    ensures
        forall|i: int| 0 <= i < state@.ledger.offers.len() ==> (#[trigger] state@.ledger.offers[i]).id
            != state@.ledger.id_counter + 1,
{
}

/// An offer that is gone from the ledger — in particular one just deleted
/// by a terminal transition — is unreachable by every further transition
/// naming its id: each fails with the not-found error before any refund or
/// transfer is computed.
pub proof fn lemma_removed_offer_unfetchable(
    state: TradeStateV,
    now: Timestamp,
    contract: Seq<char>,
    caller: Seq<char>,
    id: u64,
    reg: TokenRegistryV,
)
    requires
        spec_find_offer(state.ledger.offers, id) == None::<OfferV>,
    ensures
        spec_remove_offer(state, caller, id) == Err::<(OfferV, Seq<crate::msg::SubMsgV>), _>(
            offer_not_found(),
        ),
        spec_reject_offer(state, caller, id) == Err::<(OfferV, Seq<crate::msg::SubMsgV>), _>(
            offer_not_found(),
        ),
        spec_accept_offer(state, now, contract, caller, id, reg) == Err::<
            (OfferV, Seq<crate::msg::SubMsgV>),
            _,
        >(offer_not_found()),
        caller == state.params.maintainer ==> spec_remove_stale_offer(state, now, caller, id)
            == Err::<(OfferV, Seq<crate::msg::SubMsgV>), _>(offer_not_found()),
{
}

/// The wanted-bundle re-checks at acceptance pass exactly when, for every
/// token of the bundle, the caller is the live owner and the engine is
/// approved to move it.
pub proof fn lemma_accept_checks_wanted_exact(
    tokens: Seq<TokenV>,
    from: int,
    caller: Seq<char>,
    contract: Seq<char>,
    reg: TokenRegistryV,
)
    requires
        0 <= from <= tokens.len(),
    ensures
        spec_accept_checks_wanted(tokens, from, caller, contract, reg)
            == None::<crate::error::ContractErrorV> <==> forall|j: int|
            from <= j < tokens.len() ==> spec_owner_of(
                reg,
                (#[trigger] tokens[j]).collection,
                tokens[j].token_id,
            ) == Some(caller) && spec_is_approved(
                reg,
                tokens[j].collection,
                tokens[j].token_id,
                contract,
            ),
    decreases tokens.len() - from,
{
    if from < tokens.len() {
        lemma_accept_checks_wanted_exact(tokens, from + 1, caller, contract, reg);
    }
}

/// The offered-bundle re-checks at acceptance pass exactly when, for every
/// token of the bundle, the offer's sender is the live owner and the engine
/// is approved to move it.
pub proof fn lemma_accept_checks_offered_exact(
    tokens: Seq<TokenV>,
    from: int,
    sender: Seq<char>,
    contract: Seq<char>,
    reg: TokenRegistryV,
)
    requires
        0 <= from <= tokens.len(),
    ensures
        spec_accept_checks_offered(tokens, from, sender, contract, reg)
            == None::<crate::error::ContractErrorV> <==> forall|j: int|
            from <= j < tokens.len() ==> spec_owner_of(
                reg,
                (#[trigger] tokens[j]).collection,
                tokens[j].token_id,
            ) == Some(sender) && spec_is_approved(
                reg,
                tokens[j].collection,
                tokens[j].token_id,
                contract,
            ),
    decreases tokens.len() - from,
{
    if from < tokens.len() {
        lemma_accept_checks_offered_exact(tokens, from + 1, sender, contract, reg);
    }
}

/// Acceptance succeeds exactly when the offer exists, the caller is its
/// peer, the offer is still inside its expiry window, and both sides' live
/// ownership and approval facts hold in the snapshot taken at acceptance
/// time — whatever held when the offer was created plays no role.
pub proof fn lemma_accept_success_exact(
    state: TradeStateV,
    now: Timestamp,
    contract: Seq<char>,
    caller: Seq<char>,
    id: u64,
    reg: TokenRegistryV,
)
    ensures
        spec_accept_offer(state, now, contract, caller, id, reg) is Ok <==> ({
            match spec_find_offer(state.ledger.offers, id) {
                None => false,
                Some(offer) => offer.peer == caller && state.params.offer_expiry.spec_is_valid(
                    now,
                    offer.created_at,
                    offer.expires_at,
                ) && (forall|j: int|
                    0 <= j < offer.wanted_nfts.len() ==> spec_owner_of(
                        reg,
                        (#[trigger] offer.wanted_nfts[j]).collection,
                        offer.wanted_nfts[j].token_id,
                    ) == Some(caller) && spec_is_approved(
                        reg,
                        offer.wanted_nfts[j].collection,
                        offer.wanted_nfts[j].token_id,
                        contract,
                    )) && (forall|j: int|
                    0 <= j < offer.offered_nfts.len() ==> spec_owner_of(
                        reg,
                        (#[trigger] offer.offered_nfts[j]).collection,
                        offer.offered_nfts[j].token_id,
                    ) == Some(offer.sender) && spec_is_approved(
                        reg,
                        offer.offered_nfts[j].collection,
                        offer.offered_nfts[j].token_id,
                        contract,
                    )),
            }
        }),
{
    match spec_find_offer(state.ledger.offers, id) {
        None => {},
        Some(offer) => {
            lemma_accept_checks_wanted_exact(offer.wanted_nfts, 0, caller, contract, reg);
            lemma_accept_checks_offered_exact(offer.offered_nfts, 0, offer.sender, contract, reg);
        },
    }
}

/// Round trip: saving an offer makes its id resolve to exactly that offer,
/// and a load after the save returns exactly what the id resolves to — so
/// what comes back is the offer that went in, field for field.
pub proof fn lemma_put_get_round_trip(after: OfferLedgerV, offer: OfferV, got: OfferV)
    requires
        spec_find_offer(after.offers, offer.id) == Some(offer),
        spec_find_offer(after.offers, offer.id) == Some(got),
    ensures
        got == offer,
{
}

/// Every element a filter keeps is an element of the filtered sequence.
proof fn lemma_filter_members(s: Seq<OfferV>, pred: spec_fn(OfferV) -> bool)
    ensures
        forall|i: int| 0 <= i < s.filter(pred).len() ==> s.contains(#[trigger] s.filter(pred)[i]),
    decreases s.len(),
{
    reveal(Seq::filter);
    if s.len() > 0 {
        let prefix = s.drop_last();
        lemma_filter_members(prefix, pred);
        assert forall|i: int| 0 <= i < s.filter(pred).len() implies s.contains(
            #[trigger] s.filter(pred)[i],
        ) by {
            if i < prefix.filter(pred).len() {
                assert(s.filter(pred)[i] == prefix.filter(pred)[i]);
                let k = choose|k: int| 0 <= k < prefix.len() && prefix[k] == prefix.filter(pred)[i];
                assert(s[k] == s.filter(pred)[i]);
            } else {
                assert(s.filter(pred)[i] == s.last());
                assert(s[s.len() - 1] == s.last());
            }
        }
    }
}

/// The by-sender listing holds exactly the ledger's offers whose sender
/// matches: nothing is lost, nothing is invented.
pub proof fn lemma_by_sender_exact(s: Seq<OfferV>, sender: Seq<char>, o: OfferV)
    ensures
        spec_by_sender(s, sender).contains(o) <==> s.contains(o) && o.sender == sender,
{
    let pred = |x: OfferV| x.sender == sender;
    lemma_filter_members(s, pred);
    if spec_by_sender(s, sender).contains(o) {
        let i = choose|i: int| 0 <= i < s.filter(pred).len() && s.filter(pred)[i] == o;
        s.lemma_filter_pred(pred, i);
    }
    if s.contains(o) && o.sender == sender {
        let i = choose|i: int| 0 <= i < s.len() && s[i] == o;
        s.lemma_filter_contains(pred, i);
    }
}

/// Filtering a ledger sorted by ascending id keeps it sorted: the by-sender
/// and by-peer listings come back in creation order.
pub proof fn lemma_filter_keeps_order(s: Seq<OfferV>, pred: spec_fn(OfferV) -> bool)
    requires
        offers_sorted(s),
    ensures
        offers_sorted(s.filter(pred)),
    decreases s.len(),
{
    reveal(Seq::filter);
    if s.len() > 0 {
        let prefix = s.drop_last();
        assert(offers_sorted(prefix));
        lemma_filter_keeps_order(prefix, pred);
        lemma_filter_members(prefix, pred);
        if pred(s.last()) {
            let f = s.filter(pred);
            assert forall|i: int, j: int| 0 <= i < j < f.len() implies f[i].id < f[j].id by {
                if j < f.len() - 1 {
                    assert(f[i] == prefix.filter(pred)[i]);
                    assert(f[j] == prefix.filter(pred)[j]);
                } else {
                    assert(f[j] == s.last());
                    assert(f[i] == prefix.filter(pred)[i]);
                    let k = choose|k: int| 0 <= k < prefix.len() && prefix[k] == f[i];
                    assert(s[k] == f[i]);
                    assert(s[k].id < s[s.len() - 1].id);
                }
            }
        }
    }
}

} // verus!
