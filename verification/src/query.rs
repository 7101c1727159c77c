//! The read-only query surface.

use vstd::prelude::*;

use crate::msg::{OfferResponse, OffersResponse, ParamsResponse};
use crate::state::{offers_sorted, spec_by_sender, spec_by_peer, spec_find_offer, OfferV, TradeState};

verus! {

/// The offer stored under `id`, if any.
pub fn query_offer(state: &TradeState, id: u64) -> (r: OfferResponse)
    requires
        offers_sorted(state@.ledger.offers),
    ensures
        match r.offer {
            Some(o) => spec_find_offer(state@.ledger.offers, id) == Some(o@),
            None => spec_find_offer(state@.ledger.offers, id) == None::<OfferV>,
        },
{
    OfferResponse { offer: state.ledger.may_load(id) }
}

/// The current governance parameters.
pub fn query_params(state: &TradeState) -> (r: ParamsResponse)
    ensures
        r.params@ == state@.params,
{
    ParamsResponse { params: state.params.duplicate() }
}

/// All offers initiated by `sender`, in ascending id order: exactly the
/// not-yet-deleted offers whose sender matches.
pub fn query_offers_by_sender(state: &TradeState, sender: String) -> (r: OffersResponse)
    ensures
        r.offers.deep_view() == spec_by_sender(state@.ledger.offers, sender@),
{
    OffersResponse { offers: state.ledger.list_by_sender(&sender) }
}

/// All offers addressed to `peer`, in ascending id order.
pub fn query_offers_by_peer(state: &TradeState, peer: String) -> (r: OffersResponse)
    ensures
        r.offers.deep_view() == spec_by_peer(state@.ledger.offers, peer@),
{
    OffersResponse { offers: state.ledger.list_by_peer(&peer) }
}

} // verus!
