//! Error taxonomy of the engine.
//!
//! Every failure is a synchronous return value; no transition leaves partial
//! state behind. Each enum has a ghost view so that contracts can speak about
//! the exact error a transition returns.

use vstd::prelude::*;

use crate::helpers::ExpiryRangeError;

verus! {

/// Host-level failures passed through unchanged: a missing record or a
/// failed registry query.
#[derive(Clone, Debug, PartialEq, Eq)]
pub enum StdError {
    NotFound { kind: String },
    GenericErr { msg: String },
}

/// Ghost view of [`StdError`].
pub enum StdErrorV {
    NotFound { kind: Seq<char> },
    GenericErr { msg: Seq<char> },
}

impl View for StdError {
    type V = StdErrorV;

    open spec fn view(&self) -> StdErrorV {
        match self {
            StdError::NotFound { kind } => StdErrorV::NotFound { kind: kind@ },
            StdError::GenericErr { msg } => StdErrorV::GenericErr { msg: msg@ },
        }
    }
}

/// Failures of the attached-funds check, mirroring the payment helper of the
/// host ecosystem variant for variant.
#[derive(Clone, Debug, PartialEq, Eq)]
pub enum PaymentError {
    MissingDenom(String),
    ExtraDenom(String),
    MultipleDenoms,
    NoFunds,
    NonPayable,
}

/// Ghost view of [`PaymentError`].
pub enum PaymentErrorV {
    MissingDenom(Seq<char>),
    ExtraDenom(Seq<char>),
    MultipleDenoms,
    NoFunds,
    NonPayable,
}

impl View for PaymentError {
    type V = PaymentErrorV;

    open spec fn view(&self) -> PaymentErrorV {
        match self {
            PaymentError::MissingDenom(d) => PaymentErrorV::MissingDenom(d@),
            PaymentError::ExtraDenom(d) => PaymentErrorV::ExtraDenom(d@),
            PaymentError::MultipleDenoms => PaymentErrorV::MultipleDenoms,
            PaymentError::NoFunds => PaymentErrorV::NoFunds,
            PaymentError::NonPayable => PaymentErrorV::NonPayable,
        }
    }
}

/// Every way a lifecycle transition can fail.
#[derive(Clone, Debug, PartialEq, Eq)]
pub enum ContractError {
    Std(StdError),
    Payment(PaymentError),
    InsufficientRoyalties,
    EmptyTokenVector,
    InvalidCollection,
    UnauthorizedSender,
    AlreadyOwned,
    Unauthorized { collection: String, token_id: u32 },
    TokenAlreadyOffered { collection: String, token_id: u32, offer_id: u64 },
    UnauthorizedPeer { collection: String, token_id: u32, peer: String },
    UnauthorizedOperator,
    MaxOffers { addr: String, max_offers: u64 },
    MaxBundle { limit: u64 },
    ExpiryRange(ExpiryRangeError),
}

/// Ghost view of [`ContractError`].
pub enum ContractErrorV {
    Std(StdErrorV),
    Payment(PaymentErrorV),
    InsufficientRoyalties,
    EmptyTokenVector,
    InvalidCollection,
    UnauthorizedSender,
    AlreadyOwned,
    Unauthorized { collection: Seq<char>, token_id: u32 },
    TokenAlreadyOffered { collection: Seq<char>, token_id: u32, offer_id: u64 },
    UnauthorizedPeer { collection: Seq<char>, token_id: u32, peer: Seq<char> },
    UnauthorizedOperator,
    MaxOffers { addr: Seq<char>, max_offers: u64 },
    MaxBundle { limit: u64 },
    ExpiryRange(ExpiryRangeError),
}

impl View for ContractError {
    type V = ContractErrorV;

    open spec fn view(&self) -> ContractErrorV {
        match self {
            ContractError::Std(e) => ContractErrorV::Std(e@),
            ContractError::Payment(e) => ContractErrorV::Payment(e@),
            ContractError::InsufficientRoyalties => ContractErrorV::InsufficientRoyalties,
            ContractError::EmptyTokenVector => ContractErrorV::EmptyTokenVector,
            ContractError::InvalidCollection => ContractErrorV::InvalidCollection,
            ContractError::UnauthorizedSender => ContractErrorV::UnauthorizedSender,
            ContractError::AlreadyOwned => ContractErrorV::AlreadyOwned,
            ContractError::Unauthorized { collection, token_id } => ContractErrorV::Unauthorized {
                collection: collection@,
                token_id: *token_id,
            },
            ContractError::TokenAlreadyOffered { collection, token_id, offer_id } => ContractErrorV::TokenAlreadyOffered {
                collection: collection@,
                token_id: *token_id,
                offer_id: *offer_id,
            },
            ContractError::UnauthorizedPeer { collection, token_id, peer } => ContractErrorV::UnauthorizedPeer {
                collection: collection@,
                token_id: *token_id,
                peer: peer@,
            },
            ContractError::UnauthorizedOperator => ContractErrorV::UnauthorizedOperator,
            ContractError::MaxOffers { addr, max_offers } => ContractErrorV::MaxOffers {
                addr: addr@,
                max_offers: *max_offers,
            },
            ContractError::MaxBundle { limit } => ContractErrorV::MaxBundle { limit: *limit },
            ContractError::ExpiryRange(e) => ContractErrorV::ExpiryRange(*e),
        }
    }
}

} // verus!
