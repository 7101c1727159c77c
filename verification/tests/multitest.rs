//! The full offer flow against registry snapshots standing in for two live
//! collections: creation with its whole validation pipeline, and acceptance
//! with its re-checks and emitted transfers.

use pegasus::contract::{execute, instantiate};
use pegasus::error::ContractError;
use pegasus::helpers::ExpiryRange;
use pegasus::msg::{Env, ExecuteMsg, InstantiateMsg, MessageInfo, SubMsg, TokenMsg};
use pegasus::query::query_offers_by_sender;
use pegasus::registry::{TokenEntry, TokenRegistry};
use pegasus::state::TradeState;
use pegasus::time::Timestamp;

const CREATOR: &str = "creator";
const COLLECTION_A: &str = "collection-a";
const COLLECTION_B: &str = "collection-b";
const TOKEN1_ID: u32 = 123;
const TOKEN2_ID: u32 = 234;
const TOKEN3_ID: u32 = 345;

const SENDER: &str = "sender";
const PEER: &str = "peer";
const MAX_EXPIRY: u64 = 604800;
const MIN_EXPIRY: u64 = 86400;

const TRADE_CONTRACT: &str = "trade-contract";

fn env_at_seconds(seconds: u64) -> Env {
    Env {
        block_time: Timestamp::from_seconds(seconds),
        contract: TRADE_CONTRACT.to_string(),
    }
}

fn mock_info(sender: &str) -> MessageInfo {
    MessageInfo { sender: sender.to_string(), funds: vec![] }
}

fn setup_contract() -> TradeState {
    let msg = InstantiateMsg {
        offer_expiry: ExpiryRange { min: MIN_EXPIRY, max: MAX_EXPIRY },
        maintainer: CREATOR.to_string(),
        max_offers: 16,
        bundle_limit: 3,
    };
    instantiate(msg).unwrap()
}

// The ownership facts the live registries would answer: who owns which
// token, and which tokens the engine is approved to move.
fn setup_registry(approved: &[(&str, u32)]) -> TokenRegistry {
    let owners: &[(&str, u32, &str)] = &[
        (COLLECTION_A, TOKEN1_ID, SENDER),
        (COLLECTION_B, TOKEN1_ID, SENDER),
        (COLLECTION_A, TOKEN2_ID, PEER),
        (COLLECTION_B, TOKEN2_ID, PEER),
        (COLLECTION_A, TOKEN3_ID, CREATOR),
    ];
    let mut registry = TokenRegistry::new();
    for (collection, token_id, owner) in owners {
        let approvals = if approved.iter().any(|(c, t)| c == collection && t == token_id) {
            vec![TRADE_CONTRACT.to_string()]
        } else {
            vec![]
        };
        registry.tokens.push(TokenEntry {
            collection: collection.to_string(),
            token_id: *token_id,
            owner: owner.to_string(),
            approvals,
        });
    }
    registry
}

fn token_msg(collection: &str, token_id: u32) -> TokenMsg {
    TokenMsg { collection: collection.to_string(), token_id }
}

fn create_msg(offered: Vec<TokenMsg>, wanted: Vec<TokenMsg>) -> ExecuteMsg {
    ExecuteMsg::CreateOffer {
        offered_nfts: offered,
        wanted_nfts: wanted,
        offered_balances: vec![],
        message: None,
        peer: PEER.to_string(),
        expires_at: None,
    }
}

#[test]
fn create_offer() {
    let mut state = setup_contract();
    let env = env_at_seconds(1_000_000);
    let sender_info = mock_info(SENDER);

    // No approvals granted yet.
    let registry = setup_registry(&[]);

    // An empty offered bundle is not allowed.
    let msg = create_msg(vec![], vec![token_msg(COLLECTION_A, TOKEN2_ID)]);
    let err = execute(&mut state, &env, &sender_info, msg, &registry).unwrap_err();
    assert_eq!(err, ContractError::EmptyTokenVector);

    // A bundle above the limit is rejected before any ownership check.
    let msg = create_msg(
        vec![
            token_msg(COLLECTION_A, TOKEN1_ID),
            token_msg(COLLECTION_A, TOKEN1_ID),
            token_msg(COLLECTION_A, TOKEN1_ID),
            token_msg(COLLECTION_A, TOKEN1_ID),
        ],
        vec![token_msg(COLLECTION_A, TOKEN2_ID)],
    );
    let err = execute(&mut state, &env, &sender_info, msg, &registry).unwrap_err();
    assert_eq!(err, ContractError::MaxBundle { limit: 3 });

    // The sender fails to create an offer while the token is not approved.
    let msg = create_msg(
        vec![token_msg(COLLECTION_A, TOKEN1_ID)],
        vec![token_msg(COLLECTION_A, TOKEN2_ID)],
    );
    let err = execute(&mut state, &env, &sender_info, msg.clone(), &registry).unwrap_err();
    assert_eq!(
        err,
        ContractError::Unauthorized { collection: COLLECTION_A.to_string(), token_id: TOKEN1_ID }
    );

    // Approve the engine on the sender side.
    let registry = setup_registry(&[(COLLECTION_A, TOKEN1_ID), (COLLECTION_B, TOKEN1_ID)]);

    let res = execute(&mut state, &env, &sender_info, msg, &registry);
    assert!(res.is_ok(), "Offer should be correct.");

    let qres = query_offers_by_sender(&state, SENDER.to_string());
    assert_eq!(qres.offers.len(), 1);
    let on_chain_offer = qres.offers.first().unwrap();
    assert_eq!(on_chain_offer.offered_nfts.first().unwrap().token_id, TOKEN1_ID);

    // A token already locked in another active offer by the same sender
    // cannot be offered again; the conflicting offer is named.
    let msg = create_msg(
        vec![token_msg(COLLECTION_A, TOKEN1_ID)],
        vec![token_msg(COLLECTION_A, TOKEN2_ID)],
    );
    let err = execute(&mut state, &env, &sender_info, msg, &registry).unwrap_err();
    assert_eq!(
        err,
        ContractError::TokenAlreadyOffered {
            collection: COLLECTION_A.to_string(),
            token_id: TOKEN1_ID,
            offer_id: 1,
        }
    );

    // Offering a token the sender does not own fails.
    let msg = create_msg(
        vec![token_msg(COLLECTION_A, TOKEN3_ID)],
        vec![token_msg(COLLECTION_A, TOKEN2_ID)],
    );
    let err = execute(&mut state, &env, &sender_info, msg, &registry).unwrap_err();
    assert_eq!(err, ContractError::UnauthorizedSender);

    // Wanting a token the peer does not own fails, naming the token and the
    // peer.
    let msg = create_msg(
        vec![token_msg(COLLECTION_B, TOKEN1_ID)],
        vec![token_msg(COLLECTION_A, TOKEN3_ID)],
    );
    let err = execute(&mut state, &env, &sender_info, msg, &registry).unwrap_err();
    assert_eq!(
        err,
        ContractError::UnauthorizedPeer {
            collection: COLLECTION_A.to_string(),
            token_id: TOKEN3_ID,
            peer: PEER.to_string(),
        }
    );
}

#[test]
fn multitest_create_offer() {
    let mut state = setup_contract();
    let env = env_at_seconds(1_000_000);
    let sender_info = mock_info(SENDER);

    let msg = create_msg(
        vec![token_msg(COLLECTION_A, TOKEN1_ID)],
        vec![token_msg(COLLECTION_A, TOKEN2_ID)],
    );

    // The sender should fail to create an offer while the tokens are not
    // approved yet.
    let registry = setup_registry(&[]);
    let err = execute(&mut state, &env, &sender_info, msg.clone(), &registry).unwrap_err();
    assert_eq!(
        err,
        ContractError::Unauthorized { collection: COLLECTION_A.to_string(), token_id: TOKEN1_ID }
    );

    // After the approvals the same offer goes through.
    let registry = setup_registry(&[
        (COLLECTION_A, TOKEN1_ID),
        (COLLECTION_B, TOKEN1_ID),
        (COLLECTION_A, TOKEN2_ID),
        (COLLECTION_B, TOKEN2_ID),
    ]);
    let res = execute(&mut state, &env, &sender_info, msg, &registry);
    assert!(res.is_ok());
}

#[test]
fn accept_offer() {
    let mut state = setup_contract();
    let env = env_at_seconds(1000);
    let sender_info = mock_info(SENDER);
    let peer_info = mock_info(PEER);

    let msg = create_msg(
        vec![token_msg(COLLECTION_A, TOKEN1_ID)],
        vec![token_msg(COLLECTION_A, TOKEN2_ID)],
    );

    // The sender approved the engine for the offered token.
    let registry = setup_registry(&[(COLLECTION_A, TOKEN1_ID)]);
    let res = execute(&mut state, &env, &sender_info, msg, &registry);
    assert!(res.is_ok(), "Offer should be correct.");

    let exec_accept_msg = ExecuteMsg::AcceptOffer { id: 1 };

    // The peer accepts without having approved the wanted token: the exact
    // token is named.
    let err = execute(&mut state, &env, &peer_info, exec_accept_msg.clone(), &registry)
        .unwrap_err();
    assert_eq!(
        err,
        ContractError::Unauthorized { collection: COLLECTION_A.to_string(), token_id: TOKEN2_ID }
    );

    // Approve on the peer side as well, and accept.
    let registry = setup_registry(&[(COLLECTION_A, TOKEN1_ID), (COLLECTION_A, TOKEN2_ID)]);
    let res = execute(&mut state, &env, &peer_info, exec_accept_msg, &registry).unwrap();

    // The engine emitted exactly the two transfers of the swap: the offered
    // token to the peer, the wanted token to the sender.
    assert_eq!(
        res.messages,
        vec![
            SubMsg::TransferNft {
                collection: COLLECTION_A.to_string(),
                token_id: TOKEN1_ID,
                recipient: PEER.to_string(),
            },
            SubMsg::TransferNft {
                collection: COLLECTION_A.to_string(),
                token_id: TOKEN2_ID,
                recipient: SENDER.to_string(),
            },
        ]
    );

    // The accepted offer is gone.
    assert_eq!(query_offers_by_sender(&state, SENDER.to_string()).offers.len(), 0);
}
