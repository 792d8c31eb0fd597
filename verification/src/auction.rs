//! The auction operations: English bids and settlement, Dutch settlement,
//! and reclamation of expired Dutch listings.
//!
//! Each executable operation carries a model spec function describing the
//! exact store that comes out of it and the exact result, for every input;
//! the ensures clauses tie the two together.

use crate::error::ExchangeError;
use crate::helper::{exchange, settlement_of};
use crate::msg::{
    listing_key, order_key, Addr, AuctionType, ExchangeTokenStruct, OrderListForBuyer,
    OrderListForSeller,
};
use crate::pricing::{dutch_price, dutch_price_model};
use crate::state::{ListingMap, ListingStore};
use vstd::prelude::*;

verus! {

/// The listing as it stands after accepting the bid carried by `o`: the
/// bid amount becomes the highest bid and the bid's author the highest
/// bidder; everything else is unchanged.
pub open spec fn bid_applied(l: OrderListForSeller, o: OrderListForBuyer) -> OrderListForSeller {
    OrderListForSeller { highest_bid: o.amount_of_erc20, highest_bidder: o.owner, ..l }
}

/// What placing an English bid does to the store, and what it answers: a
/// bid on an absent key is NotFound, one at or past the end time is
/// AuctionClosed, one not strictly above the current highest bid is
/// BidTooLow; otherwise the bid is recorded and nothing else changes.
/// Bidding never looks at the pricing mode: a bid against a Fixed or
/// Dutch listing is accepted on the same terms and overwrites its ask.
pub open spec fn english_bid_model(m: ListingMap, o: OrderListForBuyer, height: u64) -> (
    ListingMap,
    Result<(), ExchangeError>,
) {
    let k = order_key(o);
    if !m.contains_key(k) {
        (m, Err(ExchangeError::NotFound))
    } else if height >= m[k].end_time {
        (m, Err(ExchangeError::AuctionClosed))
    } else if o.amount_of_erc20 <= m[k].highest_bid {
        (m, Err(ExchangeError::BidTooLow))
    } else {
        (m.insert(k, bid_applied(m[k], o)), Ok(()))
    }
}

/// Places an English-auction bid: records the bid amount and bidder on the
/// targeted listing if the auction is still open and the bid strictly
/// exceeds the current highest bid. The listing's mode is not consulted,
/// so a bid can also raise the ask of a Fixed or Dutch listing.
pub fn english_auction(store: &mut ListingStore, height: u64, list_for_buyer: &OrderListForBuyer)
    -> (r: Result<(), ExchangeError>)
    requires
        old(store).inv(),
    ensures
        final(store).inv(),
        final(store)@ == english_bid_model(old(store)@, *list_for_buyer, height).0,
        r == english_bid_model(old(store)@, *list_for_buyer, height).1,
{
    let curr = match store.load(
        list_for_buyer.erc721_token_id_want,
        &list_for_buyer.erc721_contract_address,
    ) {
        Ok(l) => l,
        Err(e) => {
            return Err(e);
        },
    };
    proof {
        store.lemma_stored_listings_valid(order_key(*list_for_buyer));
    }
    if height >= curr.end_time {
        return Err(ExchangeError::AuctionClosed);
    }
    if list_for_buyer.amount_of_erc20 <= curr.highest_bid {
        return Err(ExchangeError::BidTooLow);
    }
    let updated = OrderListForSeller {
        highest_bid: list_for_buyer.amount_of_erc20,
        highest_bidder: list_for_buyer.owner.clone(),
        ..curr
    };
    store.update_listing(updated);
    Ok(())
}

/// What settling a closed English auction does: only the recorded highest
/// bidder may settle, only once the window has closed, and the settlement
/// price is exactly the recorded highest bid; the listing is deleted.
pub open spec fn english_settle_model(
    m: ListingMap,
    sender: Addr,
    o: OrderListForBuyer,
    height: u64,
) -> (ListingMap, Result<ExchangeTokenStruct, ExchangeError>) {
    let k = order_key(o);
    if !m.contains_key(k) {
        (m, Err(ExchangeError::NotFound))
    } else if sender@ != m[k].highest_bidder@ {
        (m, Err(ExchangeError::Unauthorized))
    } else if height < m[k].end_time {
        (m, Err(ExchangeError::AuctionNotOver))
    } else {
        (m.remove(k), Ok(settlement_of(m[k], o, m[k].highest_bid)))
    }
}

/// Settles a closed English auction: the caller must be the recorded
/// highest bidder, and pays exactly the recorded highest bid.
pub fn english_bid_exchange(
    store: &mut ListingStore,
    sender: &Addr,
    height: u64,
    list_for_buyer: &OrderListForBuyer,
) -> (r: Result<ExchangeTokenStruct, ExchangeError>)
    requires
        old(store).inv(),
    ensures
        final(store).inv(),
        final(store)@ == english_settle_model(old(store)@, *sender, *list_for_buyer, height).0,
        r == english_settle_model(old(store)@, *sender, *list_for_buyer, height).1,
{
    let curr = match store.load(
        list_for_buyer.erc721_token_id_want,
        &list_for_buyer.erc721_contract_address,
    ) {
        Ok(l) => l,
        Err(e) => {
            return Err(e);
        },
    };
    if !(*sender == curr.highest_bidder) {
        return Err(ExchangeError::Unauthorized);
    }
    if height < curr.end_time {
        return Err(ExchangeError::AuctionNotOver);
    }
    Ok(exchange(store, list_for_buyer, &curr, curr.highest_bid))
}

/// What settling a Dutch auction does: the listing must be Dutch, the time
/// inside the auction window, and the offer at least the current curve
/// price; the buyer then pays exactly the curve price — not the offer —
/// and the listing is deleted.
pub open spec fn dutch_settle_model(m: ListingMap, o: OrderListForBuyer, height: u64) -> (
    ListingMap,
    Result<ExchangeTokenStruct, ExchangeError>,
) {
    let k = order_key(o);
    if !m.contains_key(k) {
        (m, Err(ExchangeError::NotFound))
    } else if m[k].auction_type != AuctionType::Dutch {
        (m, Err(ExchangeError::WrongMode))
    } else if height >= m[k].end_time {
        (m, Err(ExchangeError::AuctionExpired))
    } else if height < m[k].start_time {
        (m, Err(ExchangeError::AuctionNotOpen))
    } else if (o.amount_of_erc20 as int) < dutch_price_model(m[k], height) {
        (m, Err(ExchangeError::PriceMismatch))
    } else {
        (m.remove(k), Ok(settlement_of(m[k], o, dutch_price_model(m[k], height) as u64)))
    }
}

/// Settles a running Dutch auction at its current curve price. The offer
/// must cover the curve price, and the settlement moves exactly the curve
/// price.
pub fn dutch_auction_exchange(
    store: &mut ListingStore,
    height: u64,
    list_for_buyer: &OrderListForBuyer,
) -> (r: Result<ExchangeTokenStruct, ExchangeError>)
    requires
        old(store).inv(),
    ensures
        final(store).inv(),
        final(store)@ == dutch_settle_model(old(store)@, *list_for_buyer, height).0,
        r == dutch_settle_model(old(store)@, *list_for_buyer, height).1,
{
    let curr = match store.load(
        list_for_buyer.erc721_token_id_want,
        &list_for_buyer.erc721_contract_address,
    ) {
        Ok(l) => l,
        Err(e) => {
            return Err(e);
        },
    };
    proof {
        store.lemma_stored_listings_valid(order_key(*list_for_buyer));
    }
    if !matches!(curr.auction_type, AuctionType::Dutch) {
        return Err(ExchangeError::WrongMode);
    }
    if height >= curr.end_time {
        return Err(ExchangeError::AuctionExpired);
    }
    if height < curr.start_time {
        return Err(ExchangeError::AuctionNotOpen);
    }
    let current_erc20_amount = dutch_price(&curr, height);
    if list_for_buyer.amount_of_erc20 < current_erc20_amount {
        return Err(ExchangeError::PriceMismatch);
    }
    Ok(exchange(store, list_for_buyer, &curr, current_erc20_amount))
}

/// What reclaiming a listing does: only an expired Dutch listing can be
/// reclaimed, and reclamation only deletes it — no assets move.
pub open spec fn clean_model(m: ListingMap, l: OrderListForSeller, height: u64) -> (
    ListingMap,
    Result<(), ExchangeError>,
) {
    let k = listing_key(l);
    if !m.contains_key(k) {
        (m, Err(ExchangeError::NotFound))
    } else if height < m[k].end_time {
        (m, Err(ExchangeError::AuctionNotOver))
    } else if m[k].auction_type != AuctionType::Dutch {
        (m, Err(ExchangeError::WrongMode))
    } else {
        (m.remove(k), Ok(()))
    }
}

/// Reclaims an expired, unsold Dutch listing, so its key can be reused.
/// No assets move; the listing is simply deleted.
pub fn clean(store: &mut ListingStore, height: u64, list_for_seller: &OrderListForSeller) -> (r:
    Result<(), ExchangeError>)
    requires
        old(store).inv(),
    ensures
        final(store).inv(),
        final(store)@ == clean_model(old(store)@, *list_for_seller, height).0,
        r == clean_model(old(store)@, *list_for_seller, height).1,
{
    let curr = match store.load(list_for_seller.erc721_token_id, &list_for_seller.contract_address) {
        Ok(l) => l,
        Err(e) => {
            return Err(e);
        },
    };
    if height < curr.end_time {
        return Err(ExchangeError::AuctionNotOver);
    }
    if !matches!(curr.auction_type, AuctionType::Dutch) {
        return Err(ExchangeError::WrongMode);
    }
    store.delete(list_for_seller.erc721_token_id, &list_for_seller.contract_address);
    Ok(())
}

} // verus!
