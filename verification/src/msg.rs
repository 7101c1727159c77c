//! Messages into and out of the engine.
//!
//! Incoming messages carry plain values; the host shell validates addresses
//! and decodes bytes before handing them in. Outgoing side effects are
//! structured transfer instructions: the host shell encodes and dispatches
//! them after a successful transition.

use vstd::prelude::*;

use crate::helpers::ExpiryRange;
use crate::state::{Coin, CoinV, Offer, SudoParams, TokenV};
use crate::time::Timestamp;

verus! {

/// The block context a transition runs in.
pub struct Env {
    /// The current block time.
    pub block_time: Timestamp,
    /// The engine's own identity, as registries know it.
    pub contract: String,
}

/// Ghost view of [`Env`].
pub struct EnvV {
    pub block_time: Timestamp,
    pub contract: Seq<char>,
}

impl View for Env {
    type V = EnvV;

    open spec fn view(&self) -> EnvV {
        EnvV { block_time: self.block_time, contract: self.contract@ }
    }
}

/// The caller of a transition, with the funds attached to the call.
pub struct MessageInfo {
    pub sender: String,
    pub funds: Vec<Coin>,
}

/// Ghost view of [`MessageInfo`].
pub struct MessageInfoV {
    pub sender: Seq<char>,
    pub funds: Seq<CoinV>,
}

impl View for MessageInfo {
    type V = MessageInfoV;

    open spec fn view(&self) -> MessageInfoV {
        MessageInfoV { sender: self.sender@, funds: self.funds.deep_view() }
    }
}

/// A token reference as supplied by a caller.
#[derive(Clone, Debug, PartialEq, Eq)]
pub struct TokenMsg {
    pub collection: String,
    pub token_id: u32,
}

impl View for TokenMsg {
    type V = TokenV;

    open spec fn view(&self) -> TokenV {
        TokenV { collection: self.collection@, token_id: self.token_id }
    }
}

impl DeepView for TokenMsg {
    type V = TokenV;

    open spec fn deep_view(&self) -> TokenV {
        self.view()
    }
}

/// Configuration supplied when the engine is set up.
#[derive(Clone, Debug, PartialEq, Eq)]
pub struct InstantiateMsg {
    /// Valid time range for offers, in seconds.
    pub offer_expiry: ExpiryRange,
    /// The only identity allowed to remove stale offers.
    pub maintainer: String,
    /// Maximum number of active offers per sender.
    pub max_offers: u64,
    /// Maximum number of tokens in either bundle.
    pub bundle_limit: u64,
}

/// A lifecycle transition request.
#[derive(Clone, Debug, PartialEq, Eq)]
pub enum ExecuteMsg {
    /// Create a new offer.
    CreateOffer {
        offered_nfts: Vec<TokenMsg>,
        wanted_nfts: Vec<TokenMsg>,
        offered_balances: Vec<Coin>,
        message: Option<String>,
        peer: String,
        expires_at: Option<Timestamp>,
    },
    /// Remove an offer (called by its sender).
    RemoveOffer { id: u64 },
    /// Accept an existing offer (called by its peer).
    AcceptOffer { id: u64 },
    /// Reject an existing offer (called by its peer).
    RejectOffer { id: u64 },
    /// Remove an offer past its expiry window (called by the maintainer).
    RemoveStaleOffer { id: u64 },
}

/// A governance request.
#[derive(Clone, Debug, PartialEq, Eq)]
pub enum SudoMsg {
    /// Partially update the engine parameters; absent fields stay untouched.
    UpdateParams {
        offer_expiry: Option<ExpiryRange>,
        maintainer: Option<String>,
        max_offers: Option<u64>,
        bundle_limit: Option<u64>,
    },
}

/// A read-only query.
#[derive(Clone, Debug, PartialEq, Eq)]
pub enum QueryMsg {
    Offer { id: u64 },
    OffersBySender { sender: String },
    OffersByPeer { peer: String },
    Params,
}

/// A migration request; no migration needs any input.
#[derive(Clone, Debug, PartialEq, Eq)]
pub struct MigrateMsg {}

/// Answer to [`QueryMsg::Offer`].
#[derive(Debug)]
pub struct OfferResponse {
    pub offer: Option<Offer>,
}

/// Answer to [`QueryMsg::OffersBySender`] and [`QueryMsg::OffersByPeer`].
#[derive(Debug)]
pub struct OffersResponse {
    pub offers: Vec<Offer>,
}

/// Answer to [`QueryMsg::Params`].
#[derive(Debug)]
pub struct ParamsResponse {
    pub params: SudoParams,
}

/// One transfer instruction emitted by a successful transition. The host
/// dispatches these against the external registries and ledgers, atomically
/// with the state change that emitted them.
#[derive(Clone, Debug, PartialEq, Eq)]
pub enum SubMsg {
    /// Move one non-fungible token to `recipient`.
    TransferNft { collection: String, token_id: u32, recipient: String },
    /// Pay a fungible balance out to `to_address`.
    BankSend { to_address: String, amount: Coin },
}

/// Ghost view of [`SubMsg`].
pub enum SubMsgV {
    TransferNft { collection: Seq<char>, token_id: u32, recipient: Seq<char> },
    BankSend { to_address: Seq<char>, amount: CoinV },
}

impl View for SubMsg {
    type V = SubMsgV;

    open spec fn view(&self) -> SubMsgV {
        match self {
            SubMsg::TransferNft { collection, token_id, recipient } => SubMsgV::TransferNft {
                collection: collection@,
                token_id: *token_id,
                recipient: recipient@,
            },
            SubMsg::BankSend { to_address, amount } => SubMsgV::BankSend {
                to_address: to_address@,
                amount: amount@,
            },
        }
    }
}

impl DeepView for SubMsg {
    type V = SubMsgV;

    open spec fn deep_view(&self) -> SubMsgV {
        self.view()
    }
}

/// What a successful transition hands back to the host: the transfer
/// instructions to dispatch, in order.
#[derive(Debug)]
pub struct Response {
    pub messages: Vec<SubMsg>,
}

/// Ghost view of [`Response`].
pub struct ResponseV {
    pub messages: Seq<SubMsgV>,
}

impl View for Response {
    type V = ResponseV;

    open spec fn view(&self) -> ResponseV {
        ResponseV { messages: self.messages.deep_view() }
    }
}

impl Response {
    /// A response with no side effects.
    pub fn new() -> (r: Response)
        ensures
            r@.messages == Seq::<SubMsgV>::empty(),
    {
        let r = Response { messages: Vec::new() };
        proof {
            assert(r@.messages =~= Seq::<SubMsgV>::empty());
        }
        r
    }
}

} // verus!
