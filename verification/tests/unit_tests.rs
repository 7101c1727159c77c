//! Lifecycle tests against an empty registry snapshot: setup, removal and
//! rejection, where no ownership fact is ever consulted.

use pegasus::contract::{execute, instantiate};
use pegasus::error::{ContractError, StdError};
use pegasus::helpers::ExpiryRange;
use pegasus::msg::{Env, ExecuteMsg, InstantiateMsg, MessageInfo};
use pegasus::query::query_offer;
use pegasus::registry::TokenRegistry;
use pegasus::state::{Offer, Token, TradeState};
use pegasus::time::Timestamp;

const CREATOR: &str = "creator";
const COLLECTION_A: &str = "collection-a";
const COLLECTION_B: &str = "collection-b";
const TOKEN1_ID: u32 = 123;
const TOKEN2_ID: u32 = 234;

const SENDER: &str = "sender";
const PEER: &str = "peer";
const MAX_EXPIRY: u64 = 604800;
const MIN_EXPIRY: u64 = 86400;

// The block time the mock host environment runs at.
const MOCK_TIME_NANOS: u64 = 1_571_797_419_879_305_533;

fn mock_env() -> Env {
    Env {
        block_time: Timestamp::from_nanos(MOCK_TIME_NANOS),
        contract: "trade-contract".to_string(),
    }
}

fn mock_info(sender: &str) -> MessageInfo {
    MessageInfo { sender: sender.to_string(), funds: vec![] }
}

fn instantiate_trade_contract() -> TradeState {
    let msg = InstantiateMsg {
        offer_expiry: ExpiryRange { min: MIN_EXPIRY, max: MAX_EXPIRY },
        maintainer: CREATOR.to_owned(),
        max_offers: 16,
        bundle_limit: 3,
    };
    instantiate(msg).unwrap()
}

// Injects an offer directly into the ledger, as the host storage would hold
// it.
fn save_new_offer(state: &mut TradeState, sender: &str, peer: &str, offered_nfts: Vec<Token>, wanted_nfts: Vec<Token>) {
    let now = mock_env().block_time;
    let offer = Offer {
        id: 0,
        offered_nfts,
        wanted_nfts,
        offered_balances: vec![],
        message: None,
        royalties: vec![],
        sender: sender.to_string(),
        peer: peer.to_string(),
        created_at: now,
        expires_at: Timestamp::from_seconds(now.plus_seconds(100_000).seconds()),
    };
    state.ledger.save(offer);
}

#[test]
fn proper_initialization() {
    instantiate_trade_contract();
}

#[test]
fn remove_offer() {
    let collection = COLLECTION_A.to_string();
    let registry = TokenRegistry::new();

    let mut state = instantiate_trade_contract();

    let mock_sender_info = mock_info(SENDER);
    let mock_peer = mock_info(PEER);

    let offered_nfts = vec![Token { collection: collection.clone(), token_id: TOKEN1_ID }];
    let wanted_nfts = vec![Token { collection, token_id: TOKEN2_ID }];

    save_new_offer(&mut state, SENDER, PEER, offered_nfts, wanted_nfts);

    let exec_msg = ExecuteMsg::RemoveOffer { id: 0 };

    // The peer of the offer should not be able to remove it.
    let res = execute(&mut state, &mock_env(), &mock_peer, exec_msg.clone(), &registry);
    assert!(res.is_err(), "Peer is able to remove offer.");
    assert_eq!(res.unwrap_err(), ContractError::UnauthorizedSender);

    // The sender of the offer should be able to remove it.
    let res = execute(&mut state, &mock_env(), &mock_sender_info, exec_msg, &registry);
    assert!(res.is_ok(), "Sender of the Offer cant remove");

    // The removed offer is unfetchable.
    assert!(query_offer(&state, 0).offer.is_none());

    // Removing a non-existing offer reports it missing.
    let remove_nonexisting_msg = ExecuteMsg::RemoveOffer { id: 1 };
    let err = execute(
        &mut state,
        &mock_env(),
        &mock_sender_info,
        remove_nonexisting_msg,
        &registry,
    )
    .unwrap_err();
    assert_eq!(
        err,
        ContractError::Std(StdError::NotFound { kind: "pegasus::state::Offer".to_string() }),
        "Error should be of type notFound."
    )
}

#[test]
fn reject_offer() {
    let collection = COLLECTION_B.to_string();
    let registry = TokenRegistry::new();

    let mut state = instantiate_trade_contract();

    let mock_sender_info = mock_info(SENDER);
    let mock_peer = mock_info(PEER);

    let offered_nfts = vec![Token { collection: collection.clone(), token_id: TOKEN1_ID }];
    let wanted_nfts = vec![Token { collection, token_id: TOKEN2_ID }];

    save_new_offer(&mut state, SENDER, PEER, offered_nfts, wanted_nfts);

    let exec_msg = ExecuteMsg::RejectOffer { id: 0 };

    // The sender of the offer should not be able to reject his own offer.
    let res = execute(&mut state, &mock_env(), &mock_sender_info, exec_msg.clone(), &registry);
    assert!(res.is_err(), "Sender is able to reject offer.");

    // The peer of the offer should be able to reject the offer.
    let res = execute(&mut state, &mock_env(), &mock_peer, exec_msg, &registry);
    assert!(res.is_ok(), "Peer of the Offer cant reject");

    // Rejecting a non-existing offer reports it missing.
    let remove_nonexisting_msg = ExecuteMsg::RejectOffer { id: 1 };
    let err = execute(
        &mut state,
        &mock_env(),
        &mock_sender_info,
        remove_nonexisting_msg,
        &registry,
    )
    .unwrap_err();
    assert_eq!(
        err,
        ContractError::Std(StdError::NotFound { kind: "pegasus::state::Offer".to_string() }),
        "Error should be of type notFound."
    )
}
