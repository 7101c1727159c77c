//! A point-in-time snapshot of the external asset registries.
//!
//! The engine holds no custody and caches nothing: before every transition
//! its caller queries the live registries and hands in the facts the
//! transition needs — who owns each token, whether the engine is approved to
//! move it, and each collection's royalty policy. A transition decides from
//! this snapshot alone, so it is verified for every snapshot the caller can
//! supply.

use vstd::prelude::*;

use crate::royalty::DECIMAL_FRACTIONAL;

verus! {

/// A collection's royalty policy: who is paid, and which share of any
/// fungible balance, as raw fixed-point atomics (ten to the eighteenth is a
/// share of one).
#[derive(Clone, Debug, PartialEq, Eq)]
pub struct RoyaltyInfo {
    pub payment_address: String,
    pub share_atomics: u128,
}

/// Ghost view of [`RoyaltyInfo`].
pub struct RoyaltyInfoV {
    pub payment_address: Seq<char>,
    pub share_atomics: u128,
}

impl View for RoyaltyInfo {
    type V = RoyaltyInfoV;

    open spec fn view(&self) -> RoyaltyInfoV {
        RoyaltyInfoV { payment_address: self.payment_address@, share_atomics: self.share_atomics }
    }
}

impl DeepView for RoyaltyInfo {
    type V = RoyaltyInfoV;

    open spec fn deep_view(&self) -> RoyaltyInfoV {
        self.view()
    }
}

impl RoyaltyInfo {
    /// An exact copy.
    pub fn duplicate(&self) -> (r: RoyaltyInfo)
        ensures
            r@ == self@,
    {
        RoyaltyInfo {
            payment_address: self.payment_address.clone(),
            share_atomics: self.share_atomics,
        }
    }
}

/// What a collection-info query answered: the collection exists and has this
/// royalty policy, if any.
#[derive(Clone, Debug, PartialEq, Eq)]
pub struct CollectionEntry {
    pub collection: String,
    pub royalty_info: Option<RoyaltyInfo>,
}

/// Ghost view of [`CollectionEntry`].
pub struct CollectionEntryV {
    pub collection: Seq<char>,
    pub royalty_info: Option<RoyaltyInfoV>,
}

impl View for CollectionEntry {
    type V = CollectionEntryV;

    open spec fn view(&self) -> CollectionEntryV {
        CollectionEntryV {
            collection: self.collection@,
            royalty_info: self.royalty_info.deep_view(),
        }
    }
}

impl DeepView for CollectionEntry {
    type V = CollectionEntryV;

    open spec fn deep_view(&self) -> CollectionEntryV {
        self.view()
    }
}

/// What the ownership queries answered for one token: its current owner and
/// the spenders approved to move it.
#[derive(Clone, Debug, PartialEq, Eq)]
pub struct TokenEntry {
    pub collection: String,
    pub token_id: u32,
    pub owner: String,
    pub approvals: Vec<String>,
}

/// Ghost view of [`TokenEntry`].
pub struct TokenEntryV {
    pub collection: Seq<char>,
    pub token_id: u32,
    pub owner: Seq<char>,
    pub approvals: Seq<Seq<char>>,
}

impl View for TokenEntry {
    type V = TokenEntryV;

    open spec fn view(&self) -> TokenEntryV {
        TokenEntryV {
            collection: self.collection@,
            token_id: self.token_id,
            owner: self.owner@,
            approvals: self.approvals.deep_view(),
        }
    }
}

impl DeepView for TokenEntry {
    type V = TokenEntryV;

    open spec fn deep_view(&self) -> TokenEntryV {
        self.view()
    }
}

/// The snapshot: ownership facts per token and royalty policies per
/// collection. A token or collection absent here is one the live query
/// failed for.
#[derive(Clone, Debug, PartialEq, Eq)]
pub struct TokenRegistry {
    pub tokens: Vec<TokenEntry>,
    pub collections: Vec<CollectionEntry>,
}

/// Ghost view of [`TokenRegistry`].
pub struct TokenRegistryV {
    pub tokens: Seq<TokenEntryV>,
    pub collections: Seq<CollectionEntryV>,
}

impl View for TokenRegistry {
    type V = TokenRegistryV;

    open spec fn view(&self) -> TokenRegistryV {
        TokenRegistryV {
            tokens: self.tokens.deep_view(),
            collections: self.collections.deep_view(),
        }
    }
}

/// The first entry for the token, scanning from `i`.
pub open spec fn find_token_from(tokens: Seq<TokenEntryV>, collection: Seq<char>, token_id: u32, i: int) -> Option<TokenEntryV>
    decreases tokens.len() - i,
{
    if i < 0 || i >= tokens.len() {
        None
    } else if tokens[i].collection == collection && tokens[i].token_id == token_id {
        Some(tokens[i])
    } else {
        find_token_from(tokens, collection, token_id, i + 1)
    }
}

/// The snapshot's entry for a token, if its queries were answered.
pub open spec fn spec_token_entry(reg: TokenRegistryV, collection: Seq<char>, token_id: u32) -> Option<TokenEntryV> {
    find_token_from(reg.tokens, collection, token_id, 0)
}

/// The token's current owner, if the snapshot knows the token.
pub open spec fn spec_owner_of(reg: TokenRegistryV, collection: Seq<char>, token_id: u32) -> Option<Seq<char>> {
    match spec_token_entry(reg, collection, token_id) {
        Some(e) => Some(e.owner),
        None => None,
    }
}

/// Whether `spender` is approved to move the token. A token the snapshot
/// does not know counts as not approved, exactly as a failed approval query
/// does.
pub open spec fn spec_is_approved(reg: TokenRegistryV, collection: Seq<char>, token_id: u32, spender: Seq<char>) -> bool {
    match spec_token_entry(reg, collection, token_id) {
        Some(e) => e.approvals.contains(spender),
        None => false,
    }
}

/// The first entry for the collection, scanning from `i`.
pub open spec fn find_collection_from(cols: Seq<CollectionEntryV>, collection: Seq<char>, i: int) -> Option<CollectionEntryV>
    decreases cols.len() - i,
{
    if i < 0 || i >= cols.len() {
        None
    } else if cols[i].collection == collection {
        Some(cols[i])
    } else {
        find_collection_from(cols, collection, i + 1)
    }
}

/// A found collection entry is one of the snapshot's entries.
pub proof fn lemma_find_collection_in_range(cols: Seq<CollectionEntryV>, collection: Seq<char>, i: int)
    requires
        find_collection_from(cols, collection, i) is Some,
    ensures
        exists|k: int| i <= k < cols.len() && find_collection_from(cols, collection, i) == Some(
            cols[k],
        ),
    decreases cols.len() - i,
{
    if 0 <= i < cols.len() {
        if cols[i].collection == collection {
        } else {
            lemma_find_collection_in_range(cols, collection, i + 1);
        }
    }
}

/// The collection's royalty policy: `None` when the snapshot does not know
/// the collection (a failed collection-info query), otherwise the policy,
/// which may itself be absent.
pub open spec fn spec_royalty_of(reg: TokenRegistryV, collection: Seq<char>) -> Option<Option<RoyaltyInfoV>> {
    match find_collection_from(reg.collections, collection, 0) {
        Some(c) => Some(c.royalty_info),
        None => None,
    }
}

impl TokenRegistry {
    /// Every royalty share in the snapshot is at most one. The registries
    /// validate their policies to this bound before answering.
    pub open spec fn wf(self) -> bool {
        forall|i: int| 0 <= i < self@.collections.len() ==> match #[trigger] self@.collections[i].royalty_info {
            Some(ri) => ri.share_atomics <= DECIMAL_FRACTIONAL,
            None => true,
        }
    }

    /// A snapshot with no facts at all.
    pub fn new() -> (r: TokenRegistry)
        ensures
            r@.tokens == Seq::<TokenEntryV>::empty(),
            r@.collections == Seq::<CollectionEntryV>::empty(),
            r.wf(),
    {
        let r = TokenRegistry { tokens: Vec::new(), collections: Vec::new() };
        proof {
            assert(r@.tokens =~= Seq::<TokenEntryV>::empty());
            assert(r@.collections =~= Seq::<CollectionEntryV>::empty());
        }
        r
    }

    /// The token's current owner, as the snapshot knows it.
    pub fn owner_of(&self, collection: &String, token_id: u32) -> (r: Option<String>)
        ensures
            match r {
                Some(o) => spec_owner_of(self@, collection@, token_id) == Some(o@),
                None => spec_owner_of(self@, collection@, token_id) == None::<Seq<char>>,
            },
    {
        let mut i: usize = 0;
        while i < self.tokens.len()
            invariant
                i <= self.tokens.len(),
                find_token_from(self@.tokens, collection@, token_id, 0)
                    == find_token_from(self@.tokens, collection@, token_id, i as int),
            decreases self.tokens.len() - i,
        {
            if self.tokens[i].collection == *collection && self.tokens[i].token_id == token_id {
                return Some(self.tokens[i].owner.clone());
            }
            i = i + 1;
        }
        None
    }

    /// Whether `spender` is approved to move the token.
    pub fn is_approved(&self, collection: &String, token_id: u32, spender: &String) -> (r: bool)
        ensures
            r == spec_is_approved(self@, collection@, token_id, spender@),
    {
        let mut i: usize = 0;
        while i < self.tokens.len()
            invariant
                i <= self.tokens.len(),
                find_token_from(self@.tokens, collection@, token_id, 0)
                    == find_token_from(self@.tokens, collection@, token_id, i as int),
            decreases self.tokens.len() - i,
        {
            if self.tokens[i].collection == *collection && self.tokens[i].token_id == token_id {
                let approvals = &self.tokens[i].approvals;
                let mut j: usize = 0;
                while j < approvals.len()
                    invariant
                        j <= approvals.len(),
                        forall|k: int| 0 <= k < j ==> approvals.deep_view()[k] != spender@,
                        approvals == &self.tokens[i as int].approvals,
                        i < self.tokens.len(),
                        find_token_from(self@.tokens, collection@, token_id, 0)
                            == Some(self@.tokens[i as int]),
                    decreases approvals.len() - j,
                {
                    if approvals[j] == *spender {
                        proof {
                            assert(self@.tokens[i as int].approvals[j as int] == spender@);
                        }
                        return true;
                    }
                    j = j + 1;
                }
                proof {
                    assert(forall|k: int| 0 <= k < self@.tokens[i as int].approvals.len()
                        ==> self@.tokens[i as int].approvals[k] != spender@);
                }
                return false;
            }
            i = i + 1;
        }
        false
    }

    /// The collection's royalty policy, as the snapshot knows it.
    pub fn royalty_of(&self, collection: &String) -> (r: Option<Option<RoyaltyInfo>>)
        ensures
            r.deep_view() == spec_royalty_of(self@, collection@),
    {
        let mut i: usize = 0;
        while i < self.collections.len()
            invariant
                i <= self.collections.len(),
                find_collection_from(self@.collections, collection@, 0)
                    == find_collection_from(self@.collections, collection@, i as int),
            decreases self.collections.len() - i,
        {
            if self.collections[i].collection == *collection {
                let ri = match &self.collections[i].royalty_info {
                    Some(ri) => Some(ri.duplicate()),
                    None => None,
                };
                return Some(ri);
            }
            i = i + 1;
        }
        None
    }
}

} // verus!
