//! Core data model: tokens, coins, royalties, offers, governance parameters,
//! and the offer ledger.
//!
//! The ledger keeps offers sorted by ascending id, which makes insertion
//! order and id order coincide: ids are handed out by a monotonic counter and
//! never reused, so the by-sender and by-peer listings below return offers in
//! creation order.

use vstd::prelude::*;

use crate::error::{StdError, StdErrorV};
use crate::helpers::ExpiryRange;
use crate::time::{Timestamp, NANOS_PER_SECOND};

verus! {

/// Offers must live at least one day.
pub const MIN_EXPIRY: u64 = 3600 * 24;

/// Offers must expire within four weeks.
pub const MAX_EXPIRY: u64 = 3600 * 24 * 28;

/// An amount of a fungible token of one denomination.
#[derive(Clone, Debug, PartialEq, Eq)]
pub struct Coin {
    pub denom: String,
    pub amount: u128,
}

/// Ghost view of [`Coin`].
pub struct CoinV {
    pub denom: Seq<char>,
    pub amount: u128,
}

impl View for Coin {
    type V = CoinV;

    open spec fn view(&self) -> CoinV {
        CoinV { denom: self.denom@, amount: self.amount }
    }
}

impl DeepView for Coin {
    type V = CoinV;

    open spec fn deep_view(&self) -> CoinV {
        self.view()
    }
}

impl Coin {
    /// An exact copy.
    pub fn duplicate(&self) -> (r: Coin)
        ensures
            r@ == self@,
    {
        Coin { denom: self.denom.clone(), amount: self.amount }
    }
}

/// One non-fungible asset inside one external registry.
#[derive(Clone, Debug, PartialEq, Eq)]
pub struct Token {
    pub collection: String,
    pub token_id: u32,
}

/// Ghost view of [`Token`].
pub struct TokenV {
    pub collection: Seq<char>,
    pub token_id: u32,
}

impl View for Token {
    type V = TokenV;

    open spec fn view(&self) -> TokenV {
        TokenV { collection: self.collection@, token_id: self.token_id }
    }
}

impl DeepView for Token {
    type V = TokenV;

    open spec fn deep_view(&self) -> TokenV {
        self.view()
    }
}

impl Token {
    /// An exact copy.
    pub fn duplicate(&self) -> (r: Token)
        ensures
            r@ == self@,
    {
        Token { collection: self.collection.clone(), token_id: self.token_id }
    }

    /// Whether two tokens name the same asset.
    pub fn same_asset(&self, other: &Token) -> (r: bool)
        ensures
            r == (self@ == other@),
    {
        let r = self.collection == other.collection && self.token_id == other.token_id;
        proof {
            if r {
                assert(self@ == other@);
            }
        }
        r
    }
}

/// A payout owed to a collection's creator, computed at offer creation.
#[derive(Clone, Debug, PartialEq, Eq)]
pub struct Royalty {
    pub creator: String,
    pub amount: Coin,
}

/// Ghost view of [`Royalty`].
pub struct RoyaltyV {
    pub creator: Seq<char>,
    pub amount: CoinV,
}

impl View for Royalty {
    type V = RoyaltyV;

    open spec fn view(&self) -> RoyaltyV {
        RoyaltyV { creator: self.creator@, amount: self.amount@ }
    }
}

impl DeepView for Royalty {
    type V = RoyaltyV;

    open spec fn deep_view(&self) -> RoyaltyV {
        self.view()
    }
}

impl Royalty {
    /// An exact copy.
    pub fn duplicate(&self) -> (r: Royalty)
        ensures
            r@ == self@,
    {
        Royalty { creator: self.creator.clone(), amount: self.amount.duplicate() }
    }
}

/// A proposed bundle swap between a sender and a peer.
#[derive(Clone, Debug, PartialEq, Eq)]
pub struct Offer {
    /// Unique identifier, assigned at creation and never reused.
    pub id: u64,
    /// The bundle supplied by the sender.
    pub offered_nfts: Vec<Token>,
    /// The bundle the sender wants from the peer.
    pub wanted_nfts: Vec<Token>,
    /// Fungible balances escrowed by the sender at creation.
    pub offered_balances: Vec<Coin>,
    /// Optional free-text message from the sender.
    pub message: Option<String>,
    /// Creator payouts owed when fungible balances are involved.
    pub royalties: Vec<Royalty>,
    pub sender: String,
    pub peer: String,
    pub created_at: Timestamp,
    pub expires_at: Timestamp,
}

/// Ghost view of [`Offer`].
pub struct OfferV {
    pub id: u64,
    pub offered_nfts: Seq<TokenV>,
    pub wanted_nfts: Seq<TokenV>,
    pub offered_balances: Seq<CoinV>,
    pub message: Option<Seq<char>>,
    pub royalties: Seq<RoyaltyV>,
    pub sender: Seq<char>,
    pub peer: Seq<char>,
    pub created_at: Timestamp,
    pub expires_at: Timestamp,
}

impl View for Offer {
    type V = OfferV;

    open spec fn view(&self) -> OfferV {
        OfferV {
            id: self.id,
            offered_nfts: self.offered_nfts.deep_view(),
            wanted_nfts: self.wanted_nfts.deep_view(),
            offered_balances: self.offered_balances.deep_view(),
            message: self.message.deep_view(),
            royalties: self.royalties.deep_view(),
            sender: self.sender@,
            peer: self.peer@,
            created_at: self.created_at,
            expires_at: self.expires_at,
        }
    }
}

impl DeepView for Offer {
    type V = OfferV;

    open spec fn deep_view(&self) -> OfferV {
        self.view()
    }
}

/// An exact copy of a token bundle.
pub fn duplicate_tokens(tokens: &Vec<Token>) -> (r: Vec<Token>)
    ensures
        r.deep_view() =~= tokens.deep_view(),
{
    let mut r: Vec<Token> = Vec::new();
    let mut i: usize = 0;
    while i < tokens.len()
        invariant
            i <= tokens.len(),
            r@.len() == i,
            forall|j: int| 0 <= j < i ==> r@[j]@ == tokens@[j]@,
        decreases tokens.len() - i,
    {
        r.push(tokens[i].duplicate());
        i = i + 1;
    }
    proof {
        assert(r.deep_view() =~= tokens.deep_view());
    }
    r
}

/// An exact copy of a list of balances.
pub fn duplicate_coins(coins: &Vec<Coin>) -> (r: Vec<Coin>)
    ensures
        r.deep_view() =~= coins.deep_view(),
{
    let mut r: Vec<Coin> = Vec::new();
    let mut i: usize = 0;
    while i < coins.len()
        invariant
            i <= coins.len(),
            r@.len() == i,
            forall|j: int| 0 <= j < i ==> r@[j]@ == coins@[j]@,
        decreases coins.len() - i,
    {
        r.push(coins[i].duplicate());
        i = i + 1;
    }
    proof {
        assert(r.deep_view() =~= coins.deep_view());
    }
    r
}

/// An exact copy of a list of royalties.
pub fn duplicate_royalties(royalties: &Vec<Royalty>) -> (r: Vec<Royalty>)
    ensures
        r.deep_view() =~= royalties.deep_view(),
{
    let mut r: Vec<Royalty> = Vec::new();
    let mut i: usize = 0;
    while i < royalties.len()
        invariant
            i <= royalties.len(),
            r@.len() == i,
            forall|j: int| 0 <= j < i ==> r@[j]@ == royalties@[j]@,
        decreases royalties.len() - i,
    {
        r.push(royalties[i].duplicate());
        i = i + 1;
    }
    proof {
        assert(r.deep_view() =~= royalties.deep_view());
    }
    r
}

impl Offer {
    /// An exact copy.
    pub fn duplicate(&self) -> (r: Offer)
        ensures
            r@ == self@,
    {
        let message = match &self.message {
            Some(m) => Some(m.clone()),
            None => None,
        };
        let r = Offer {
            id: self.id,
            offered_nfts: duplicate_tokens(&self.offered_nfts),
            wanted_nfts: duplicate_tokens(&self.wanted_nfts),
            offered_balances: duplicate_coins(&self.offered_balances),
            message,
            royalties: duplicate_royalties(&self.royalties),
            sender: self.sender.clone(),
            peer: self.peer.clone(),
            created_at: self.created_at,
            expires_at: self.expires_at,
        };
        r
    }
}

/// Whether some offer in `s` carries the id.
pub open spec fn spec_has_offer(s: Seq<OfferV>, id: u64) -> bool {
    exists|i: int| 0 <= i < s.len() && s[i].id == id
}

/// The offer in `s` carrying the id, if any. With distinct ids (see
/// [`offers_sorted`]) this is the unique such offer.
pub open spec fn spec_find_offer(s: Seq<OfferV>, id: u64) -> Option<OfferV> {
    if spec_has_offer(s, id) {
        Some(s[choose|i: int| 0 <= i < s.len() && s[i].id == id])
    } else {
        None
    }
}

/// Offers in strictly ascending id order; insertion order coincides with id
/// order because ids are handed out monotonically.
pub open spec fn offers_sorted(s: Seq<OfferV>) -> bool {
    forall|i: int, j: int| 0 <= i < j < s.len() ==> s[i].id < s[j].id
}

/// The subsequence of offers initiated by `sender`, in ledger order.
pub open spec fn spec_by_sender(s: Seq<OfferV>, sender: Seq<char>) -> Seq<OfferV> {
    s.filter(|o: OfferV| o.sender == sender)
}

/// The subsequence of offers addressed to `peer`, in ledger order.
pub open spec fn spec_by_peer(s: Seq<OfferV>, peer: Seq<char>) -> Seq<OfferV> {
    s.filter(|o: OfferV| o.peer == peer)
}

/// In a sorted ledger the offer found for an id is the one at any matching
/// index.
pub proof fn lemma_find_at(s: Seq<OfferV>, id: u64, i: int)
    requires
        offers_sorted(s),
        0 <= i < s.len(),
        s[i].id == id,
    ensures
        spec_find_offer(s, id) == Some(s[i]),
{
    assert(spec_has_offer(s, id));
    let k = choose|k: int| 0 <= k < s.len() && s[k].id == id;
    if k < i {
        assert(s[k].id < s[i].id);
    } else if k > i {
        assert(s[i].id < s[k].id);
    }
}

/// An id carried by no offer is not found.
pub proof fn lemma_find_absent(s: Seq<OfferV>, id: u64)
    requires
        forall|i: int| 0 <= i < s.len() ==> s[i].id != id,
    ensures
        spec_find_offer(s, id) == None::<OfferV>,
{
}

/// The persistent offer store: offers sorted by ascending id, plus the
/// monotonic id counter. The counter starts at zero and the first assigned
/// id is one; an id is never reused, even after deletion.
#[derive(Debug)]
pub struct OfferLedger {
    pub offers: Vec<Offer>,
    pub id_counter: u64,
}

/// Ghost view of [`OfferLedger`].
pub struct OfferLedgerV {
    pub offers: Seq<OfferV>,
    pub id_counter: u64,
}

impl View for OfferLedger {
    type V = OfferLedgerV;

    open spec fn view(&self) -> OfferLedgerV {
        OfferLedgerV { offers: self.offers.deep_view(), id_counter: self.id_counter }
    }
}

impl OfferLedger {
    /// An empty ledger whose first assigned id will be one.
    pub fn new() -> (r: OfferLedger)
        ensures
            r@.offers == Seq::<OfferV>::empty(),
            r@.id_counter == 0,
    {
        let r = OfferLedger { offers: Vec::new(), id_counter: 0 };
        proof {
            assert(r@.offers =~= Seq::<OfferV>::empty());
        }
        r
    }

    /// Assigns the next offer id: the counter is bumped and the new value is
    /// both returned and persisted, so ids are monotonic and never reused.
    pub fn next_offer_id(&mut self) -> (r: u64)
        requires
            old(self)@.id_counter < u64::MAX,
        ensures
            r == old(self)@.id_counter + 1,
            final(self)@.id_counter == r,
            final(self)@.offers == old(self)@.offers,
    {
        self.id_counter = self.id_counter + 1;
        self.id_counter
    }

    /// Inserts or replaces the offer stored under `offer.id`. Every other
    /// id resolves exactly as before.
    pub fn save(&mut self, offer: Offer)
        requires
            offers_sorted(old(self)@.offers),
        ensures
            offers_sorted(final(self)@.offers),
            final(self)@.id_counter == old(self)@.id_counter,
            spec_find_offer(final(self)@.offers, offer@.id) == Some(offer@),
            forall|id2: u64| id2 != offer@.id ==> spec_find_offer(final(self)@.offers, id2)
                == spec_find_offer(old(self)@.offers, id2),
            spec_has_offer(old(self)@.offers, offer@.id) ==> final(self)@.offers.len()
                == old(self)@.offers.len(),
            !spec_has_offer(old(self)@.offers, offer@.id) ==> exists|i: int|
                0 <= i <= old(self)@.offers.len()
                && final(self)@.offers == old(self)@.offers.insert(i, offer@),
            spec_has_offer(old(self)@.offers, offer@.id) ==> exists|i: int|
                0 <= i < old(self)@.offers.len() && old(self)@.offers[i].id == offer@.id
                && final(self)@.offers == old(self)@.offers.update(i, offer@),
    {
        let ghost s0 = self@.offers;
        let mut i: usize = 0;
        while i < self.offers.len() && self.offers[i].id < offer.id
            invariant
                i <= self.offers.len(),
                forall|j: int| 0 <= j < i ==> s0[j].id < offer@.id,
                self@.offers == s0,
                self.id_counter == old(self).id_counter,
                offer@.id == offer.id,
            decreases self.offers.len() - i,
        {
            i = i + 1;
        }
        proof {
            assert(forall|j: int| i <= j < s0.len() ==> s0[j].id >= offer@.id) by {
                assert(forall|j: int| i < j < s0.len() && s0.len() > 0 ==> s0[i as int].id < s0[j].id);
            }
        }
        if i < self.offers.len() && self.offers[i].id == offer.id {
            let ghost iid = i as int;
            self.offers.remove(i);
            self.offers.insert(i, offer);
            proof {
                let s1 = self@.offers;
                assert(s1 =~= s0.update(iid, offer@));
                assert(offers_sorted(s1));
                lemma_find_at(s1, offer@.id, iid);
                assert forall|id2: u64| id2 != offer@.id implies spec_find_offer(s1, id2)
                    == spec_find_offer(s0, id2) by {
                    if spec_has_offer(s0, id2) {
                        let k = choose|k: int| 0 <= k < s0.len() && s0[k].id == id2;
                        lemma_find_at(s0, id2, k);
                        lemma_find_at(s1, id2, k);
                    } else {
                        lemma_find_absent(s0, id2);
                        lemma_find_absent(s1, id2);
                    }
                }
            }
        } else {
            let ghost iid = i as int;
            self.offers.insert(i, offer);
            proof {
                let s1 = self@.offers;
                assert(s1 =~= s0.insert(iid, offer@));
                assert(forall|j: int| 0 <= j < s0.len() ==> s0[j].id != offer@.id);
                assert(offers_sorted(s1));
                lemma_find_at(s1, offer@.id, iid);
                lemma_find_absent(s0, offer@.id);
                assert forall|id2: u64| id2 != offer@.id implies spec_find_offer(s1, id2)
                    == spec_find_offer(s0, id2) by {
                    if spec_has_offer(s0, id2) {
                        let k = choose|k: int| 0 <= k < s0.len() && s0[k].id == id2;
                        lemma_find_at(s0, id2, k);
                        if k < iid {
                            lemma_find_at(s1, id2, k);
                        } else {
                            lemma_find_at(s1, id2, k + 1);
                        }
                    } else {
                        lemma_find_absent(s0, id2);
                        lemma_find_absent(s1, id2);
                    }
                }
            }
        }
    }

    /// Deletes the offer stored under `id`, if any. Every other id resolves
    /// exactly as before.
    pub fn remove(&mut self, id: u64)
        requires
            offers_sorted(old(self)@.offers),
        ensures
            offers_sorted(final(self)@.offers),
            final(self)@.id_counter == old(self)@.id_counter,
            spec_find_offer(final(self)@.offers, id) == None::<OfferV>,
            forall|id2: u64| id2 != id ==> spec_find_offer(final(self)@.offers, id2)
                == spec_find_offer(old(self)@.offers, id2),
            !spec_has_offer(old(self)@.offers, id) ==> final(self)@.offers == old(self)@.offers,
            spec_has_offer(old(self)@.offers, id) ==> exists|i: int|
                0 <= i < old(self)@.offers.len() && old(self)@.offers[i].id == id
                && final(self)@.offers == old(self)@.offers.remove(i),
    {
        let ghost s0 = self@.offers;
        let mut i: usize = 0;
        while i < self.offers.len() && self.offers[i].id != id
            invariant
                i <= self.offers.len(),
                forall|j: int| 0 <= j < i ==> s0[j].id != id,
                self@.offers == s0,
                self.id_counter == old(self).id_counter,
            decreases self.offers.len() - i,
        {
            i = i + 1;
        }
        if i < self.offers.len() {
            let ghost iid = i as int;
            self.offers.remove(i);
            proof {
                let s1 = self@.offers;
                assert(s1 =~= s0.remove(iid));
                assert(offers_sorted(s1));
                assert forall|k: int| 0 <= k < s1.len() implies s1[k].id != id by {
                    if k < iid {
                        assert(s1[k] == s0[k]);
                        assert(s0[k].id < s0[iid].id);
                    } else {
                        assert(s1[k] == s0[k + 1]);
                        assert(s0[iid].id < s0[k + 1].id);
                    }
                }
                lemma_find_absent(s1, id);
                assert forall|id2: u64| id2 != id implies spec_find_offer(s1, id2)
                    == spec_find_offer(s0, id2) by {
                    if spec_has_offer(s0, id2) {
                        let k = choose|k: int| 0 <= k < s0.len() && s0[k].id == id2;
                        lemma_find_at(s0, id2, k);
                        if k < iid {
                            lemma_find_at(s1, id2, k);
                        } else {
                            lemma_find_at(s1, id2, k - 1);
                        }
                    } else {
                        lemma_find_absent(s0, id2);
                        assert(forall|k: int| 0 <= k < s1.len() ==> s1[k].id != id2);
                        lemma_find_absent(s1, id2);
                    }
                }
            }
        } else {
            proof {
                lemma_find_absent(s0, id);
            }
        }
    }

    /// Loads the offer stored under `id`, or reports it missing.
    pub fn load(&self, id: u64) -> (r: Result<Offer, StdError>)
        requires
            offers_sorted(self@.offers),
        ensures
            match r {
                Ok(o) => spec_find_offer(self@.offers, id) == Some(o@),
                Err(e) => spec_find_offer(self@.offers, id) == None::<OfferV>
                    && e@ == (StdErrorV::NotFound { kind: "pegasus::state::Offer"@ }),
            },
    {
        let mut i: usize = 0;
        while i < self.offers.len() && self.offers[i].id != id
            invariant
                i <= self.offers.len(),
                forall|j: int| 0 <= j < i ==> self@.offers[j].id != id,
            decreases self.offers.len() - i,
        {
            i = i + 1;
        }
        if i < self.offers.len() {
            let o = self.offers[i].duplicate();
            proof {
                lemma_find_at(self@.offers, id, i as int);
            }
            Ok(o)
        } else {
            proof {
                lemma_find_absent(self@.offers, id);
            }
            Err(StdError::NotFound { kind: String::from_str("pegasus::state::Offer") })
        }
    }

    /// Loads the offer stored under `id`, if any.
    pub fn may_load(&self, id: u64) -> (r: Option<Offer>)
        requires
            offers_sorted(self@.offers),
        ensures
            match r {
                Some(o) => spec_find_offer(self@.offers, id) == Some(o@),
                None => spec_find_offer(self@.offers, id) == None::<OfferV>,
            },
    {
        match self.load(id) {
            Ok(o) => Some(o),
            Err(_) => None,
        }
    }

    /// All offers initiated by `sender`, in ascending id order.
    pub fn list_by_sender(&self, sender: &String) -> (r: Vec<Offer>)
        ensures
            r.deep_view() == spec_by_sender(self@.offers, sender@),
    {
        let ghost s0 = self@.offers;
        let ghost pred = |o: OfferV| o.sender == sender@;
        let mut r: Vec<Offer> = Vec::new();
        let mut i: usize = 0;
        proof {
            reveal(Seq::filter);
            assert(s0.take(0) =~= Seq::<OfferV>::empty());
        }
        while i < self.offers.len()
            invariant
                i <= self.offers.len(),
                s0 == self@.offers,
                pred == (|o: OfferV| o.sender == sender@),
                r.deep_view() == s0.take(i as int).filter(pred),
            decreases self.offers.len() - i,
        {
            let ghost prev = r.deep_view();
            if self.offers[i].sender == *sender {
                r.push(self.offers[i].duplicate());
            }
            proof {
                reveal(Seq::filter);
                let t = s0.take(i as int + 1);
                assert(t.drop_last() =~= s0.take(i as int));
                assert(t.last() == s0[i as int]);
                if pred(s0[i as int]) {
                    assert(t.filter(pred) == s0.take(i as int).filter(pred).push(s0[i as int]));
                    assert(r.deep_view() =~= prev.push(s0[i as int]));
                } else {
                    assert(t.filter(pred) == s0.take(i as int).filter(pred));
                    assert(r.deep_view() == prev);
                }
                assert(r.deep_view() == t.filter(pred));
            }
            i = i + 1;
        }
        proof {
            assert(s0.take(self.offers.len() as int) =~= s0);
        }
        r
    }

    /// All offers addressed to `peer`, in ascending id order.
    pub fn list_by_peer(&self, peer: &String) -> (r: Vec<Offer>)
        ensures
            r.deep_view() == spec_by_peer(self@.offers, peer@),
    {
        let ghost s0 = self@.offers;
        let ghost pred = |o: OfferV| o.peer == peer@;
        let mut r: Vec<Offer> = Vec::new();
        let mut i: usize = 0;
        proof {
            reveal(Seq::filter);
            assert(s0.take(0) =~= Seq::<OfferV>::empty());
        }
        while i < self.offers.len()
            invariant
                i <= self.offers.len(),
                s0 == self@.offers,
                pred == (|o: OfferV| o.peer == peer@),
                r.deep_view() == s0.take(i as int).filter(pred),
            decreases self.offers.len() - i,
        {
            let ghost prev = r.deep_view();
            if self.offers[i].peer == *peer {
                r.push(self.offers[i].duplicate());
            }
            proof {
                reveal(Seq::filter);
                let t = s0.take(i as int + 1);
                assert(t.drop_last() =~= s0.take(i as int));
                assert(t.last() == s0[i as int]);
                if pred(s0[i as int]) {
                    assert(t.filter(pred) == s0.take(i as int).filter(pred).push(s0[i as int]));
                    assert(r.deep_view() =~= prev.push(s0[i as int]));
                } else {
                    assert(t.filter(pred) == s0.take(i as int).filter(pred));
                    assert(r.deep_view() == prev);
                }
                assert(r.deep_view() == t.filter(pred));
            }
            i = i + 1;
        }
        proof {
            assert(s0.take(self.offers.len() as int) =~= s0);
        }
        r
    }
}

/// Governance-tunable configuration.
#[derive(Clone, Debug, PartialEq, Eq)]
pub struct SudoParams {
    /// Valid time range for offers, in seconds.
    pub offer_expiry: ExpiryRange,
    /// The only identity allowed to remove stale offers.
    pub maintainer: String,
    /// Maximum number of active offers per sender.
    pub max_offers: u64,
    /// Maximum number of tokens in either bundle.
    pub bundle_limit: u64,
}

/// Ghost view of [`SudoParams`].
pub struct SudoParamsV {
    pub offer_expiry: ExpiryRange,
    pub maintainer: Seq<char>,
    pub max_offers: u64,
    pub bundle_limit: u64,
}

impl View for SudoParams {
    type V = SudoParamsV;

    open spec fn view(&self) -> SudoParamsV {
        SudoParamsV {
            offer_expiry: self.offer_expiry,
            maintainer: self.maintainer@,
            max_offers: self.max_offers,
            bundle_limit: self.bundle_limit,
        }
    }
}

impl SudoParams {
    /// An exact copy.
    pub fn duplicate(&self) -> (r: SudoParams)
        ensures
            r@ == self@,
    {
        SudoParams {
            offer_expiry: self.offer_expiry,
            maintainer: self.maintainer.clone(),
            max_offers: self.max_offers,
            bundle_limit: self.bundle_limit,
        }
    }
}

/// The expiry range lies inside the process-wide floor and ceiling.
pub open spec fn params_wf(p: SudoParamsV) -> bool {
    MIN_EXPIRY <= p.offer_expiry.min
        && p.offer_expiry.min <= p.offer_expiry.max
        && p.offer_expiry.max <= MAX_EXPIRY
}

/// The timestamp leaves room for adding the largest expiry window without
/// overflowing; block times violating this lie centuries ahead.
pub open spec fn time_ok(t: Timestamp) -> bool {
    t.nanos + (MAX_EXPIRY + 1) * NANOS_PER_SECOND <= u64::MAX
}

/// The parameter-free part of every persisted offer's well-formedness: a
/// sender never trades with itself, both bundles are non-empty, and the
/// creation time leaves room for expiry arithmetic.
pub open spec fn offer_shape_wf(o: OfferV) -> bool {
    o.sender != o.peer && o.offered_nfts.len() >= 1 && o.wanted_nfts.len() >= 1 && time_ok(
        o.created_at,
    )
}

/// The engine's whole persistent state: the governance parameters and the
/// offer ledger.
#[derive(Debug)]
pub struct TradeState {
    pub params: SudoParams,
    pub ledger: OfferLedger,
}

/// Ghost view of [`TradeState`].
pub struct TradeStateV {
    pub params: SudoParamsV,
    pub ledger: OfferLedgerV,
}

impl View for TradeState {
    type V = TradeStateV;

    open spec fn view(&self) -> TradeStateV {
        TradeStateV { params: self.params@, ledger: self.ledger@ }
    }
}

impl TradeState {
    /// The state invariant: parameters in range, the ledger sorted by id, no
    /// id ahead of the counter, and every offer well-shaped. Establishment
    /// at setup and preservation by every transition is part of each
    /// function's contract.
    pub open spec fn inv(self) -> bool {
        params_wf(self@.params) && offers_sorted(self@.ledger.offers) && forall|i: int|
            0 <= i < self@.ledger.offers.len() ==> (#[trigger] self@.ledger.offers[i]).id
                <= self@.ledger.id_counter && offer_shape_wf(self@.ledger.offers[i])
    }
}

} // verus!
