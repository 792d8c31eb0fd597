//! The listing store: the one piece of persisted state.
//!
//! The store is a mapping from (token id, collection address) keys to
//! listings. Its mathematical content is a `Map`, and every operation's
//! contract says exactly which map comes out of it. Internally it is a
//! vector of listings with pairwise distinct keys, each well formed.

use crate::error::ExchangeError;
use crate::msg::{listing_key, valid_listing, Addr, OrderListForSeller};
use vstd::prelude::*;

verus! {

/// The mathematical content of a listing store: a finite map from listing
/// keys to listings.
pub type ListingMap = Map<(u64, Seq<char>), OrderListForSeller>;

/// The map described by a sequence of listings, later entries winning.
pub open spec fn entries_map(s: Seq<OrderListForSeller>) -> ListingMap
    decreases s.len(),
{
    if s.len() == 0 {
        Map::empty()
    } else {
        entries_map(s.drop_last()).insert(listing_key(s.last()), s.last())
    }
}

/// No two listings in the sequence share a key.
pub open spec fn distinct_keys(s: Seq<OrderListForSeller>) -> bool {
    forall|i: int, j: int|
        0 <= i < j < s.len() ==> listing_key(s[i]) != listing_key(s[j])
}

/// A key is in the map of a sequence exactly when some listing of the
/// sequence carries it.
proof fn lemma_entries_map_dom(s: Seq<OrderListForSeller>, k: (u64, Seq<char>))
    ensures
        entries_map(s).contains_key(k) <==> exists|i: int|
            0 <= i < s.len() && listing_key(s[i]) == k,
    decreases s.len(),
{
    if s.len() == 0 {
    } else {
        lemma_entries_map_dom(s.drop_last(), k);
        if entries_map(s).contains_key(k) {
            if k == listing_key(s.last()) {
                assert(listing_key(s[s.len() - 1]) == k);
            } else {
                let i = choose|i: int|
                    0 <= i < s.drop_last().len() && listing_key(s.drop_last()[i]) == k;
                assert(s.drop_last()[i] == s[i]);
                assert(listing_key(s[i]) == k);
            }
        }
        if exists|i: int| 0 <= i < s.len() && listing_key(s[i]) == k {
            let i = choose|i: int| 0 <= i < s.len() && listing_key(s[i]) == k;
            if i < s.len() - 1 {
                assert(s.drop_last()[i] == s[i]);
                assert(listing_key(s.drop_last()[i]) == k);
            }
        }
    }
}

/// Dropping the last listing keeps the keys pairwise distinct.
proof fn lemma_distinct_keys_drop_last(s: Seq<OrderListForSeller>)
    requires
        distinct_keys(s),
        s.len() > 0,
    ensures
        distinct_keys(s.drop_last()),
{
    assert forall|i: int, j: int|
        0 <= i < j < s.drop_last().len() implies listing_key(s.drop_last()[i])
        != listing_key(s.drop_last()[j]) by {
        assert(s.drop_last()[i] == s[i]);
        assert(s.drop_last()[j] == s[j]);
    }
}

/// Under distinct keys, the map of a sequence sends each listing's key to
/// that listing.
proof fn lemma_entries_map_at(s: Seq<OrderListForSeller>, i: int)
    requires
        0 <= i < s.len(),
        distinct_keys(s),
    ensures
        entries_map(s).contains_key(listing_key(s[i])),
        entries_map(s)[listing_key(s[i])] == s[i],
    decreases s.len(),
{
    if i == s.len() - 1 {
    } else {
        lemma_distinct_keys_drop_last(s);
        assert(s.drop_last()[i] == s[i]);
        lemma_entries_map_at(s.drop_last(), i);
        assert(listing_key(s[i]) != listing_key(s.last()));
    }
}

/// Appending a listing inserts it into the map of the sequence.
proof fn lemma_entries_map_push(s: Seq<OrderListForSeller>, l: OrderListForSeller)
    ensures
        entries_map(s.push(l)) == entries_map(s).insert(listing_key(l), l),
{
    assert(s.push(l).drop_last() =~= s);
    assert(s.push(l).last() == l);
}

/// Under distinct keys, removing the listing at an index removes exactly
/// its key from the map of the sequence.
proof fn lemma_entries_map_remove(s: Seq<OrderListForSeller>, i: int)
    requires
        0 <= i < s.len(),
        distinct_keys(s),
    ensures
        entries_map(s.remove(i)) =~= entries_map(s).remove(listing_key(s[i])),
    decreases s.len(),
{
    let k = listing_key(s[i]);
    lemma_distinct_keys_drop_last(s);
    if i == s.len() - 1 {
        assert(s.remove(i) =~= s.drop_last());
        assert(!entries_map(s.drop_last()).contains_key(k)) by {
            lemma_entries_map_dom(s.drop_last(), k);
            if exists|j: int| 0 <= j < s.drop_last().len() && listing_key(s.drop_last()[j]) == k {
                let j = choose|j: int|
                    0 <= j < s.drop_last().len() && listing_key(s.drop_last()[j]) == k;
                assert(s.drop_last()[j] == s[j]);
            }
        }
        assert(entries_map(s).remove(k) =~= entries_map(s.drop_last()));
    } else {
        assert(s.remove(i).drop_last() =~= s.drop_last().remove(i));
        assert(s.remove(i).last() == s.last());
        assert(s.drop_last()[i] == s[i]);
        lemma_entries_map_remove(s.drop_last(), i);
        assert(listing_key(s[i]) != listing_key(s.last()));
        assert(entries_map(s.remove(i)) == entries_map(s.drop_last()).remove(k).insert(
            listing_key(s.last()),
            s.last(),
        ));
        assert(entries_map(s.drop_last()).remove(k).insert(listing_key(s.last()), s.last())
            =~= entries_map(s.drop_last()).insert(listing_key(s.last()), s.last()).remove(k));
    }
}

/// The durable mapping from (token id, collection address) to the one
/// listing stored under that key.
pub struct ListingStore {
    listings: Vec<OrderListForSeller>,
}

impl View for ListingStore {
    type V = ListingMap;

    closed spec fn view(&self) -> ListingMap {
        entries_map(self.listings@)
    }
}

impl ListingStore {
    /// The store's internal consistency: pairwise distinct keys, every
    /// stored listing well formed. Constructors establish it and every
    /// operation preserves it.
    pub closed spec fn inv(&self) -> bool {
        &&& distinct_keys(self.listings@)
        &&& forall|i: int|
            0 <= i < self.listings@.len() ==> valid_listing(#[trigger] self.listings@[i])
    }

    /// Every listing held by a consistent store is well formed and sits
    /// under its own key.
    pub proof fn lemma_stored_listings_valid(&self, k: (u64, Seq<char>))
        requires
            self.inv(),
            self@.contains_key(k),
        ensures
            valid_listing(self@[k]),
            listing_key(self@[k]) == k,
    {
        lemma_entries_map_dom(self.listings@, k);
        let i = choose|i: int| 0 <= i < self.listings@.len() && listing_key(self.listings@[i]) == k;
        lemma_entries_map_at(self.listings@, i);
    }

    /// Creates an empty store.
    pub fn new() -> (s: Self)
        ensures
            s.inv(),
            s@ == ListingMap::empty(),
    {
        ListingStore { listings: Vec::new() }
    }

    /// Finds the position of the listing stored under the key, if any.
    fn index_of(&self, token_id: u64, contract_address: &Addr) -> (r: Option<usize>)
        ensures
            match r {
                Some(i) => i < self.listings@.len() && listing_key(self.listings@[i as int])
                    == (token_id, contract_address@),
                None => forall|j: int|
                    0 <= j < self.listings@.len() ==> listing_key(#[trigger] self.listings@[j])
                        != (token_id, contract_address@),
            },
    {
        let n = self.listings.len();
        let mut i: usize = 0;
        while i < n
            invariant
                i <= n,
                n == self.listings@.len(),
                forall|j: int|
                    0 <= j < i ==> listing_key(#[trigger] self.listings@[j]) != (
                        token_id,
                        contract_address@,
                    ),
            decreases n - i,
        {
            let l = &self.listings[i];
            if l.erc721_token_id == token_id && l.contract_address == *contract_address {
                return Some(i);
            }
            i = i + 1;
        }
        None
    }

    /// Returns whether a listing is stored under the key.
    pub fn contains(&self, token_id: u64, contract_address: &Addr) -> (r: bool)
        ensures
            r == self@.contains_key((token_id, contract_address@)),
    {
        proof {
            lemma_entries_map_dom(self.listings@, (token_id, contract_address@));
        }
        match self.index_of(token_id, contract_address) {
            Some(_) => true,
            None => false,
        }
    }

    /// Loads the listing stored under the key, or reports that none is.
    pub fn load(&self, token_id: u64, contract_address: &Addr) -> (r: Result<
        OrderListForSeller,
        ExchangeError,
    >)
        requires
            self.inv(),
        ensures
            match r {
                Ok(l) => self@.contains_key((token_id, contract_address@)) && l == self@[(
                    token_id,
                    contract_address@,
                )],
                Err(e) => !self@.contains_key((token_id, contract_address@)) && e
                    == ExchangeError::NotFound,
            },
    {
        proof {
            lemma_entries_map_dom(self.listings@, (token_id, contract_address@));
        }
        match self.index_of(token_id, contract_address) {
            Some(i) => {
                proof {
                    lemma_entries_map_at(self.listings@, i as int);
                }
                Ok(self.listings[i].clone())
            },
            None => Err(ExchangeError::NotFound),
        }
    }

    /// Stores a listing under a key not yet taken.
    pub fn insert_new(&mut self, l: OrderListForSeller)
        requires
            old(self).inv(),
            valid_listing(l),
            !old(self)@.contains_key(listing_key(l)),
        ensures
            final(self).inv(),
            final(self)@ == old(self)@.insert(listing_key(l), l),
    {
        proof {
            lemma_entries_map_dom(self.listings@, listing_key(l));
            lemma_entries_map_push(self.listings@, l);
        }
        let ghost s0 = self.listings@;
        self.listings.push(l);
        proof {
            assert forall|i: int, j: int|
                0 <= i < j < self.listings@.len() implies listing_key(self.listings@[i])
                != listing_key(self.listings@[j]) by {
                if j < s0.len() {
                    assert(self.listings@[i] == s0[i]);
                    assert(self.listings@[j] == s0[j]);
                } else {
                    assert(self.listings@[i] == s0[i]);
                    assert(self.listings@[j] == l);
                }
            }
        }
    }

    /// Replaces the listing stored under a key with a new listing carrying
    /// the same key.
    pub fn update_listing(&mut self, l: OrderListForSeller)
        requires
            old(self).inv(),
            valid_listing(l),
            old(self)@.contains_key(listing_key(l)),
        ensures
            final(self).inv(),
            final(self)@ == old(self)@.insert(listing_key(l), l),
    {
        self.delete(l.erc721_token_id, &l.contract_address);
        proof {
            lemma_entries_map_dom(self.listings@, listing_key(l));
        }
        self.insert_new(l);
        proof {
            assert(old(self)@.remove(listing_key(l)).insert(listing_key(l), l) =~= old(
                self,
            )@.insert(listing_key(l), l));
        }
    }

    /// Deletes the listing stored under the key.
    pub fn delete(&mut self, token_id: u64, contract_address: &Addr)
        requires
            old(self).inv(),
            old(self)@.contains_key((token_id, contract_address@)),
        ensures
            final(self).inv(),
            final(self)@ == old(self)@.remove((token_id, contract_address@)),
    {
        proof {
            lemma_entries_map_dom(self.listings@, (token_id, contract_address@));
        }
        match self.index_of(token_id, contract_address) {
            Some(i) => {
                proof {
                    lemma_entries_map_remove(self.listings@, i as int);
                }
                let ghost s0 = self.listings@;
                self.listings.remove(i);
                proof {
                    assert forall|a: int, b: int|
                        0 <= a < b < self.listings@.len() implies listing_key(self.listings@[a])
                        != listing_key(self.listings@[b]) by {
                        assert(self.listings@[a] == s0.remove(i as int)[a]);
                        assert(self.listings@[b] == s0.remove(i as int)[b]);
                    }
                    assert forall|a: int|
                        0 <= a < self.listings@.len() implies valid_listing(
                        #[trigger] self.listings@[a],
                    ) by {
                        assert(self.listings@[a] == s0.remove(i as int)[a]);
                    }
                }
            },
            None => {
                proof {
                    assert(false);
                }
            },
        }
    }
}

} // verus!
