//! The lifecycle laws of the exchange, proved once and for all over the
//! operation models: bid monotonicity, settlement finality, idempotent-safe
//! registration, and the reclamation policy.
//!
//! The laws of the pricing curve itself live beside it in `pricing`.

use crate::auction::{clean_model, dutch_settle_model, english_bid_model, english_settle_model};
use crate::contract::{fixed_exchange_model, register_model};
use crate::error::ExchangeError;
use crate::msg::{
    listing_key, order_key, Addr, AuctionType, ExchangeTokenStruct, OrderListForBuyer,
    OrderListForSeller,
};
use crate::state::ListingMap;
use vstd::prelude::*;

verus! {

/// Every accepted English bid strictly increases the listing's highest
/// bid, and a bid at or below the current highest bid is always rejected
/// and leaves the store unchanged.
pub proof fn lemma_english_bid_monotone(m: ListingMap, o: OrderListForBuyer, height: u64)
    ensures
        english_bid_model(m, o, height).1 is Ok ==> english_bid_model(
            m,
            o,
            height,
        ).0[order_key(o)].highest_bid > m[order_key(o)].highest_bid,
        m.contains_key(order_key(o)) && o.amount_of_erc20 <= m[order_key(o)].highest_bid
            ==> english_bid_model(m, o, height).1 is Err && english_bid_model(m, o, height).0 == m,
{
}

/// Settlement always deletes the listing: whichever of the three
/// settlement modes succeeded, its key is gone from the store it leaves
/// behind, and every further settlement or bid attempt on that key fails
/// with NotFound and changes nothing.
pub proof fn lemma_no_double_settlement(
    m: ListingMap,
    sender: Addr,
    o: OrderListForBuyer,
    height: u64,
    m1: ListingMap,
    sender2: Addr,
    o2: OrderListForBuyer,
    height2: u64,
)
    requires
        order_key(o2) == order_key(o),
        (fixed_exchange_model(m, o).1 is Ok && m1 == fixed_exchange_model(m, o).0)
            || (english_settle_model(m, sender, o, height).1 is Ok && m1 == english_settle_model(
            m,
            sender,
            o,
            height,
        ).0) || (dutch_settle_model(m, o, height).1 is Ok && m1 == dutch_settle_model(
            m,
            o,
            height,
        ).0),
    ensures
        !m1.contains_key(order_key(o)),
        fixed_exchange_model(m1, o2).0 == m1,
        fixed_exchange_model(m1, o2).1 == Err::<ExchangeTokenStruct, ExchangeError>(
            ExchangeError::NotFound,
        ),
        english_bid_model(m1, o2, height2).0 == m1,
        english_bid_model(m1, o2, height2).1 == Err::<(), ExchangeError>(ExchangeError::NotFound),
        english_settle_model(m1, sender2, o2, height2).0 == m1,
        english_settle_model(m1, sender2, o2, height2).1 == Err::<
            ExchangeTokenStruct,
            ExchangeError,
        >(ExchangeError::NotFound),
        dutch_settle_model(m1, o2, height2).0 == m1,
        dutch_settle_model(m1, o2, height2).1 == Err::<ExchangeTokenStruct, ExchangeError>(
            ExchangeError::NotFound,
        ),
{
}

/// Registration is idempotent-safe: after a successful registration, a
/// second registration under the same key answers AlreadyExists and
/// leaves both the store and the originally stored listing unchanged.
pub proof fn lemma_register_idempotent_safe(
    m: ListingMap,
    l: OrderListForSeller,
    l2: OrderListForSeller,
)
    requires
        register_model(m, l).1 is Ok,
        listing_key(l2) == listing_key(l),
    ensures
        register_model(m, l).0[listing_key(l)] == l,
        register_model(register_model(m, l).0, l2).1 == Err::<(), ExchangeError>(
            ExchangeError::AlreadyExists,
        ),
        register_model(register_model(m, l).0, l2).0 == register_model(m, l).0,
        register_model(register_model(m, l).0, l2).0[listing_key(l)] == l,
{
}

/// Reclaim succeeds exactly when the key holds a Dutch listing whose end
/// time has been reached; in particular it never succeeds for a Fixed or
/// English listing, nor before the end time. A successful reclaim only
/// deletes the listing, and a failed one changes nothing.
pub proof fn lemma_reclaim_only_expired_dutch(m: ListingMap, l: OrderListForSeller, height: u64)
    ensures
        clean_model(m, l, height).1 is Ok <==> (m.contains_key(listing_key(l)) && height >= m[
            listing_key(l)
        ].end_time && m[listing_key(l)].auction_type == AuctionType::Dutch),
        clean_model(m, l, height).1 is Ok ==> clean_model(m, l, height).0 == m.remove(
            listing_key(l),
        ),
        clean_model(m, l, height).1 is Err ==> clean_model(m, l, height).0 == m,
{
}

} // verus!
