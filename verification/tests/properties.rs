//! Concrete pins for the engine's laws: offer-count limit, validation
//! order, payment and royalty semantics, terminal deletions, stale removal,
//! governance updates, and the ledger round trip.

use pegasus::contract::{execute, instantiate, sudo};
use pegasus::error::{ContractError, PaymentError, StdError};
use pegasus::execute::{execute_remove_stale_offer, execute_remove_offer};
use pegasus::helpers::{ExpiryRange, ExpiryRangeError};
use pegasus::msg::{Env, ExecuteMsg, InstantiateMsg, MessageInfo, SudoMsg, TokenMsg};
use pegasus::query::{query_offer, query_offers_by_peer, query_offers_by_sender, query_params};
use pegasus::registry::{CollectionEntry, RoyaltyInfo, TokenEntry, TokenRegistry};
use pegasus::state::{Coin, Offer, Token, TradeState};
use pegasus::time::Timestamp;

const COLLECTION_A: &str = "collection-a";
const SENDER: &str = "sender";
const PEER: &str = "peer";
const CREATOR: &str = "creator";
const TRADE_CONTRACT: &str = "trade-contract";
const DENOM: &str = "ustars";

fn env_at_seconds(seconds: u64) -> Env {
    Env {
        block_time: Timestamp::from_seconds(seconds),
        contract: TRADE_CONTRACT.to_string(),
    }
}

fn info(sender: &str, funds: Vec<Coin>) -> MessageInfo {
    MessageInfo { sender: sender.to_string(), funds }
}

fn setup(max_offers: u64, bundle_limit: u64) -> TradeState {
    instantiate(InstantiateMsg {
        offer_expiry: ExpiryRange { min: 86400, max: 604800 },
        maintainer: CREATOR.to_string(),
        max_offers,
        bundle_limit,
    })
    .unwrap()
}

fn token_entry(collection: &str, token_id: u32, owner: &str, approved: bool) -> TokenEntry {
    TokenEntry {
        collection: collection.to_string(),
        token_id,
        owner: owner.to_string(),
        approvals: if approved { vec![TRADE_CONTRACT.to_string()] } else { vec![] },
    }
}

fn token_msg(token_id: u32) -> TokenMsg {
    TokenMsg { collection: COLLECTION_A.to_string(), token_id }
}

fn plain_create(offered_id: u32, wanted_id: u32) -> ExecuteMsg {
    ExecuteMsg::CreateOffer {
        offered_nfts: vec![token_msg(offered_id)],
        wanted_nfts: vec![token_msg(wanted_id)],
        offered_balances: vec![],
        message: None,
        peer: PEER.to_string(),
        expires_at: None,
    }
}

// A snapshot where the sender owns the even-numbered tokens, the peer the
// odd-numbered ones, and everything is approved to the engine.
fn registry_for(ids: &[u32]) -> TokenRegistry {
    let mut registry = TokenRegistry::new();
    for id in ids {
        let owner = if id % 2 == 0 { SENDER } else { PEER };
        registry.tokens.push(token_entry(COLLECTION_A, *id, owner, true));
    }
    registry
}

#[test]
fn created_offers_stay_within_limits() {
    // Every created offer has distinct sender and peer and two non-empty
    // bundles within the bundle limit.
    let mut state = setup(16, 3);
    let env = env_at_seconds(1_000_000);
    let registry = registry_for(&[2, 3]);

    // Self-trade is rejected outright.
    let self_msg = ExecuteMsg::CreateOffer {
        offered_nfts: vec![token_msg(2)],
        wanted_nfts: vec![token_msg(3)],
        offered_balances: vec![],
        message: None,
        peer: SENDER.to_string(),
        expires_at: None,
    };
    let err = execute(&mut state, &env, &info(SENDER, vec![]), self_msg, &registry).unwrap_err();
    assert_eq!(err, ContractError::AlreadyOwned);

    execute(&mut state, &env, &info(SENDER, vec![]), plain_create(2, 3), &registry).unwrap();
    let offers = query_offers_by_sender(&state, SENDER.to_string()).offers;
    assert_eq!(offers.len(), 1);
    let offer = &offers[0];
    assert_ne!(offer.sender, offer.peer);
    assert!(!offer.offered_nfts.is_empty() && offer.offered_nfts.len() <= 3);
    assert!(!offer.wanted_nfts.is_empty() && offer.wanted_nfts.len() <= 3);
}

#[test]
fn offer_count_limit_leaves_ledger_unchanged() {
    // With a limit of two offers per sender, the third creation fails with
    // the offer-limit error and the ledger is exactly as before.
    let mut state = setup(2, 3);
    let env = env_at_seconds(1_000_000);
    let registry = registry_for(&[2, 3, 4, 5, 6, 7]);

    execute(&mut state, &env, &info(SENDER, vec![]), plain_create(2, 3), &registry).unwrap();
    execute(&mut state, &env, &info(SENDER, vec![]), plain_create(4, 5), &registry).unwrap();

    let before = query_offers_by_sender(&state, SENDER.to_string()).offers;
    let err = execute(&mut state, &env, &info(SENDER, vec![]), plain_create(6, 7), &registry)
        .unwrap_err();
    assert_eq!(
        err,
        ContractError::MaxOffers { addr: SENDER.to_string(), max_offers: 2 }
    );
    let after = query_offers_by_sender(&state, SENDER.to_string()).offers;
    assert_eq!(before, after);
    assert_eq!(after.len(), 2);
}

#[test]
fn bundle_limit_beats_ownership_checks() {
    // A four-token bundle against a limit of three fails with the
    // bundle-limit error even though the snapshot knows none of the tokens:
    // no ownership check can have run.
    let mut state = setup(16, 3);
    let env = env_at_seconds(1_000_000);
    let registry = TokenRegistry::new();

    let msg = ExecuteMsg::CreateOffer {
        offered_nfts: vec![token_msg(1), token_msg(2), token_msg(3), token_msg(4)],
        wanted_nfts: vec![token_msg(5)],
        offered_balances: vec![],
        message: None,
        peer: PEER.to_string(),
        expires_at: None,
    };
    let err = execute(&mut state, &env, &info(SENDER, vec![]), msg, &registry).unwrap_err();
    assert_eq!(err, ContractError::MaxBundle { limit: 3 });
}

#[test]
fn removed_offer_becomes_unfetchable() {
    // Removal by a non-sender fails; removal by the sender deletes the
    // offer, after which every transition naming the id reports it missing.
    let mut state = setup(16, 3);
    let env = env_at_seconds(1_000_000);
    let registry = registry_for(&[2, 3]);

    execute(&mut state, &env, &info(SENDER, vec![]), plain_create(2, 3), &registry).unwrap();

    let err = execute(
        &mut state,
        &env,
        &info("stranger", vec![]),
        ExecuteMsg::RemoveOffer { id: 1 },
        &registry,
    )
    .unwrap_err();
    assert_eq!(err, ContractError::UnauthorizedSender);

    execute(&mut state, &env, &info(SENDER, vec![]), ExecuteMsg::RemoveOffer { id: 1 }, &registry)
        .unwrap();

    assert!(query_offer(&state, 1).offer.is_none());
    let not_found =
        ContractError::Std(StdError::NotFound { kind: "pegasus::state::Offer".to_string() });
    for msg in [
        ExecuteMsg::RemoveOffer { id: 1 },
        ExecuteMsg::RejectOffer { id: 1 },
        ExecuteMsg::AcceptOffer { id: 1 },
    ] {
        let err = execute(&mut state, &env, &info(SENDER, vec![]), msg, &registry).unwrap_err();
        assert_eq!(err, not_found);
    }
}

#[test]
fn accept_follows_live_state_only() {
    // Accept by a non-peer fails. Accept succeeds exactly when both sides'
    // live ownership and approval checks pass at acceptance time, whatever
    // held at creation.
    let mut state = setup(16, 3);
    let env = env_at_seconds(1_000_000);
    let registry = registry_for(&[2, 3]);

    execute(&mut state, &env, &info(SENDER, vec![]), plain_create(2, 3), &registry).unwrap();

    let err = execute(
        &mut state,
        &env,
        &info("stranger", vec![]),
        ExecuteMsg::AcceptOffer { id: 1 },
        &registry,
    )
    .unwrap_err();
    assert_eq!(err, ContractError::UnauthorizedSender);

    // The sender meanwhile lost the offered token to someone else: the live
    // re-check fails even though creation succeeded.
    let mut moved = TokenRegistry::new();
    moved.tokens.push(token_entry(COLLECTION_A, 2, "somebody-else", true));
    moved.tokens.push(token_entry(COLLECTION_A, 3, PEER, true));
    let err = execute(&mut state, &env, &info(PEER, vec![]), ExecuteMsg::AcceptOffer { id: 1 }, &moved)
        .unwrap_err();
    assert_eq!(
        err,
        ContractError::UnauthorizedPeer {
            collection: COLLECTION_A.to_string(),
            token_id: 2,
            peer: SENDER.to_string(),
        }
    );

    // With the live facts back in place the acceptance goes through.
    execute(&mut state, &env, &info(PEER, vec![]), ExecuteMsg::AcceptOffer { id: 1 }, &registry)
        .unwrap();
    assert!(query_offer(&state, 1).offer.is_none());
}

#[test]
fn ledger_round_trip() {
    // put(offer) then get(offer.id) returns the very same offer, field for
    // field; the by-sender listing is exactly the non-deleted offers of the
    // sender.
    let mut state = setup(16, 3);
    let offer = Offer {
        id: 7,
        offered_nfts: vec![Token { collection: COLLECTION_A.to_string(), token_id: 2 }],
        wanted_nfts: vec![Token { collection: COLLECTION_A.to_string(), token_id: 3 }],
        offered_balances: vec![Coin { denom: DENOM.to_string(), amount: 55 }],
        message: Some("swap?".to_string()),
        royalties: vec![],
        sender: SENDER.to_string(),
        peer: PEER.to_string(),
        created_at: Timestamp::from_seconds(1_000_000),
        expires_at: Timestamp::from_seconds(1_100_000),
    };
    state.ledger.save(offer.clone());
    let got = state.ledger.load(7).unwrap();
    assert_eq!(got, offer);

    let fetched = query_offer(&state, 7).offer;
    assert_eq!(fetched, Some(offer.clone()));

    let other = Offer { id: 9, sender: "other".to_string(), ..offer.clone() };
    state.ledger.save(other.clone());
    let listed = query_offers_by_sender(&state, SENDER.to_string()).offers;
    assert_eq!(listed, vec![offer.clone()]);

    // Both offers address the same peer; the by-peer listing holds them in
    // ascending id order.
    let by_peer = query_offers_by_peer(&state, PEER.to_string()).offers;
    assert_eq!(by_peer, vec![offer, other]);

    state.ledger.remove(7);
    assert!(state.ledger.load(7).is_err());
    assert_eq!(query_offers_by_sender(&state, SENDER.to_string()).offers.len(), 0);
}

#[test]
fn payment_checks_guard_escrow() {
    // Each escrowed balance must have been attached in full: no funds, a
    // short payment, several denominations, and the wrong denomination each
    // fail with their own payment error.
    let mut state = setup(16, 3);
    let env = env_at_seconds(1_000_000);
    let registry = registry_for(&[2, 3]);
    let balance = Coin { denom: DENOM.to_string(), amount: 100 };

    let msg_with_balance = ExecuteMsg::CreateOffer {
        offered_nfts: vec![token_msg(2)],
        wanted_nfts: vec![token_msg(3)],
        offered_balances: vec![balance.clone()],
        message: None,
        peer: PEER.to_string(),
        expires_at: None,
    };

    let err = execute(&mut state, &env, &info(SENDER, vec![]), msg_with_balance.clone(), &registry)
        .unwrap_err();
    assert_eq!(err, ContractError::Payment(PaymentError::NoFunds));

    let short = vec![Coin { denom: DENOM.to_string(), amount: 99 }];
    let err = execute(&mut state, &env, &info(SENDER, short), msg_with_balance.clone(), &registry)
        .unwrap_err();
    assert_eq!(err, ContractError::Payment(PaymentError::NoFunds));

    let two = vec![
        Coin { denom: DENOM.to_string(), amount: 100 },
        Coin { denom: "uother".to_string(), amount: 100 },
    ];
    let err = execute(&mut state, &env, &info(SENDER, two), msg_with_balance.clone(), &registry)
        .unwrap_err();
    assert_eq!(err, ContractError::Payment(PaymentError::MultipleDenoms));

    let wrong = vec![Coin { denom: "uother".to_string(), amount: 100 }];
    let err = execute(&mut state, &env, &info(SENDER, wrong), msg_with_balance.clone(), &registry)
        .unwrap_err();
    assert_eq!(err, ContractError::Payment(PaymentError::MissingDenom(DENOM.to_string())));

    // Paid in full, the same offer goes through and escrows the balance.
    let paid = vec![balance.clone()];
    execute(&mut state, &env, &info(SENDER, paid), msg_with_balance, &registry).unwrap();
    let offers = query_offers_by_sender(&state, SENDER.to_string()).offers;
    assert_eq!(offers[0].offered_balances, vec![balance]);
}

#[test]
fn royalties_enforced_only_beyond_one_balance() {
    // Royalty enforcement triggers only when more than one balance is
    // escrowed: with a single balance no royalty is computed even though
    // the collection has a policy; with two balances of the same
    // denomination each one owes the creator's share, rounded down.
    let mut state = setup(16, 3);
    let env = env_at_seconds(1_000_000);

    let mut registry = registry_for(&[2, 3]);
    // A ten-percent creator share, in fixed-point atomics.
    registry.collections.push(CollectionEntry {
        collection: COLLECTION_A.to_string(),
        royalty_info: Some(RoyaltyInfo {
            payment_address: CREATOR.to_string(),
            share_atomics: 100_000_000_000_000_000,
        }),
    });

    let one_balance = ExecuteMsg::CreateOffer {
        offered_nfts: vec![token_msg(2)],
        wanted_nfts: vec![token_msg(3)],
        offered_balances: vec![Coin { denom: DENOM.to_string(), amount: 100 }],
        message: None,
        peer: PEER.to_string(),
        expires_at: None,
    };
    let funds = vec![Coin { denom: DENOM.to_string(), amount: 100 }];
    execute(&mut state, &env, &info(SENDER, funds.clone()), one_balance, &registry).unwrap();
    let offers = query_offers_by_sender(&state, SENDER.to_string()).offers;
    assert_eq!(offers[0].royalties.len(), 0, "one balance must not enforce royalties");
    execute(&mut state, &env, &info(SENDER, vec![]), ExecuteMsg::RemoveOffer { id: 1 }, &registry)
        .unwrap();

    // Two balances of one denomination: royalties are owed per wanted and
    // per offered token, per balance — ten percent of 100 and of 35.
    let two_balances = ExecuteMsg::CreateOffer {
        offered_nfts: vec![token_msg(2)],
        wanted_nfts: vec![token_msg(3)],
        offered_balances: vec![
            Coin { denom: DENOM.to_string(), amount: 100 },
            Coin { denom: DENOM.to_string(), amount: 35 },
        ],
        message: None,
        peer: PEER.to_string(),
        expires_at: None,
    };
    execute(&mut state, &env, &info(SENDER, funds), two_balances, &registry).unwrap();
    let offers = query_offers_by_sender(&state, SENDER.to_string()).offers;
    let royalties = &offers[0].royalties;
    assert_eq!(royalties.len(), 4);
    let amounts: Vec<u128> = royalties.iter().map(|r| r.amount.amount).collect();
    assert_eq!(amounts, vec![10, 3, 10, 3]);
    assert!(royalties.iter().all(|r| r.creator == CREATOR && r.amount.denom == DENOM));
}

#[test]
fn royalty_lookup_failure_is_fatal() {
    // With royalties enforced, a collection the snapshot could not answer
    // for aborts the creation with the passthrough error.
    let mut state = setup(16, 3);
    let env = env_at_seconds(1_000_000);

    // Ownership facts are present, but no collection policy was fetched.
    let registry = registry_for(&[2, 3]);

    let msg = ExecuteMsg::CreateOffer {
        offered_nfts: vec![token_msg(2)],
        wanted_nfts: vec![token_msg(3)],
        offered_balances: vec![
            Coin { denom: DENOM.to_string(), amount: 40 },
            Coin { denom: DENOM.to_string(), amount: 30 },
        ],
        message: None,
        peer: PEER.to_string(),
        expires_at: None,
    };
    let funds = vec![Coin { denom: DENOM.to_string(), amount: 40 }];
    let err = execute(&mut state, &env, &info(SENDER, funds), msg, &registry).unwrap_err();
    assert_eq!(
        err,
        ContractError::Std(StdError::GenericErr { msg: "collection info query failed".to_string() })
    );
}

#[test]
fn expiry_window_is_enforced() {
    // A supplied expiry must lie strictly beyond the minimum and within the
    // maximum from now.
    let mut state = setup(16, 3);
    let env = env_at_seconds(1_000_000);
    let registry = registry_for(&[2, 3]);

    let msg = |expires_at| ExecuteMsg::CreateOffer {
        offered_nfts: vec![token_msg(2)],
        wanted_nfts: vec![token_msg(3)],
        offered_balances: vec![],
        message: None,
        peer: PEER.to_string(),
        expires_at,
    };

    // Exactly the minimum is not enough.
    let too_soon = Some(Timestamp::from_seconds(1_000_000 + 86400));
    let err = execute(&mut state, &env, &info(SENDER, vec![]), msg(too_soon), &registry)
        .unwrap_err();
    assert_eq!(err, ContractError::ExpiryRange(ExpiryRangeError::InvalidExpirationRange));

    // Beyond the maximum is too late.
    let too_late = Some(Timestamp::from_seconds(1_000_000 + 604801));
    let err = execute(&mut state, &env, &info(SENDER, vec![]), msg(too_late), &registry)
        .unwrap_err();
    assert_eq!(err, ContractError::ExpiryRange(ExpiryRangeError::InvalidExpirationRange));

    // One second past the minimum is accepted.
    let ok = Some(Timestamp::from_seconds(1_000_000 + 86401));
    execute(&mut state, &env, &info(SENDER, vec![]), msg(ok), &registry).unwrap();
}

#[test]
fn stale_removal_is_maintainer_only() {
    // Only the maintainer may remove a stale offer, and only an offer
    // actually past its expiry time can be removed that way.
    let mut state = setup(16, 3);
    let env = env_at_seconds(1_000_000);
    let registry = registry_for(&[2, 3]);

    execute(&mut state, &env, &info(SENDER, vec![]), plain_create(2, 3), &registry).unwrap();

    let err = execute_remove_stale_offer(&mut state, &env, &info(SENDER, vec![]), 1).unwrap_err();
    assert_eq!(err, ContractError::UnauthorizedOperator);

    // The offer is not yet expired: the maintainer cannot remove it.
    let err = execute_remove_stale_offer(&mut state, &env, &info(CREATOR, vec![]), 1).unwrap_err();
    assert_eq!(err, ContractError::ExpiryRange(ExpiryRangeError::InvalidExpirationRange));

    // Two injected offers: one expiring exactly now, one long expired.
    let aged_offer = |id: u64, expires_at_seconds: u64| Offer {
        id,
        offered_nfts: vec![Token { collection: COLLECTION_A.to_string(), token_id: 8 }],
        wanted_nfts: vec![Token { collection: COLLECTION_A.to_string(), token_id: 9 }],
        offered_balances: vec![],
        message: None,
        royalties: vec![],
        sender: SENDER.to_string(),
        peer: PEER.to_string(),
        created_at: Timestamp::from_seconds(100_000),
        expires_at: Timestamp::from_seconds(expires_at_seconds),
    };
    state.ledger.save(aged_offer(50, 1_000_000));
    state.ledger.save(aged_offer(51, 200_000));
    state.ledger.id_counter = 51;

    // Expiring exactly at the block time is not yet past expiry.
    let err = execute_remove_stale_offer(&mut state, &env, &info(CREATOR, vec![]), 50).unwrap_err();
    assert_eq!(err, ContractError::ExpiryRange(ExpiryRangeError::InvalidExpirationRange));

    // The long-expired offer goes, and its escrow would be refunded.
    execute_remove_stale_offer(&mut state, &env, &info(CREATOR, vec![]), 51).unwrap();
    assert!(query_offer(&state, 51).offer.is_none());
}

#[test]
fn sudo_updates_are_partial_and_validated() {
    // Present fields overwrite, absent fields stay; a supplied expiry range
    // must be ordered and inside the process-wide bounds.
    let mut state = setup(16, 3);

    sudo(
        &mut state,
        SudoMsg::UpdateParams {
            offer_expiry: None,
            maintainer: None,
            max_offers: None,
            bundle_limit: Some(5),
        },
    )
    .unwrap();
    let params = query_params(&state).params;
    assert_eq!(params.bundle_limit, 5);
    assert_eq!(params.max_offers, 16);
    assert_eq!(params.maintainer, CREATOR);
    assert_eq!(params.offer_expiry, ExpiryRange { min: 86400, max: 604800 });

    let err = sudo(
        &mut state,
        SudoMsg::UpdateParams {
            offer_expiry: Some(ExpiryRange { min: 200_000, max: 100_000 }),
            maintainer: None,
            max_offers: None,
            bundle_limit: None,
        },
    )
    .unwrap_err();
    assert_eq!(err, ContractError::ExpiryRange(ExpiryRangeError::InvalidExpiry));

    let err = sudo(
        &mut state,
        SudoMsg::UpdateParams {
            offer_expiry: Some(ExpiryRange { min: 100, max: 200 }),
            maintainer: None,
            max_offers: None,
            bundle_limit: None,
        },
    )
    .unwrap_err();
    assert_eq!(err, ContractError::ExpiryRange(ExpiryRangeError::InvalidExpirationRange));

    sudo(
        &mut state,
        SudoMsg::UpdateParams {
            offer_expiry: Some(ExpiryRange { min: 86400, max: 86400 * 14 }),
            maintainer: Some("new-maintainer".to_string()),
            max_offers: None,
            bundle_limit: None,
        },
    )
    .unwrap();
    let params = query_params(&state).params;
    assert_eq!(params.offer_expiry, ExpiryRange { min: 86400, max: 86400 * 14 });
    assert_eq!(params.maintainer, "new-maintainer");
}

#[test]
fn instantiate_rejects_bad_ranges() {
    let mk = |min, max| InstantiateMsg {
        offer_expiry: ExpiryRange { min, max },
        maintainer: CREATOR.to_string(),
        max_offers: 16,
        bundle_limit: 3,
    };
    let err = instantiate(mk(200, 100)).unwrap_err();
    assert_eq!(err, ContractError::ExpiryRange(ExpiryRangeError::InvalidExpiry));
    let err = instantiate(mk(100, 604800)).unwrap_err();
    assert_eq!(err, ContractError::ExpiryRange(ExpiryRangeError::InvalidExpirationRange));
    let err = instantiate(mk(86400, 86400 * 30)).unwrap_err();
    assert_eq!(err, ContractError::ExpiryRange(ExpiryRangeError::InvalidExpirationRange));
    assert!(instantiate(mk(86400, 86400 * 28)).is_ok());
}

#[test]
fn direct_removal_requires_the_sender() {
    // The transition function itself, outside the dispatcher, behaves the
    // same way.
    let mut state = setup(16, 3);
    let env = env_at_seconds(1_000_000);
    let registry = registry_for(&[2, 3]);
    execute(&mut state, &env, &info(SENDER, vec![]), plain_create(2, 3), &registry).unwrap();

    let err = execute_remove_offer(&mut state, &info(PEER, vec![]), 1).unwrap_err();
    assert_eq!(err, ContractError::UnauthorizedSender);
    execute_remove_offer(&mut state, &info(SENDER, vec![]), 1).unwrap();
    assert!(query_offer(&state, 1).offer.is_none());
}
