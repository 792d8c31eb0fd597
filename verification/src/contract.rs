//! The entry points of the exchange: instantiation, registration,
//! fixed-price settlement, query, and the dispatch over `ExecuteMsg`.

use crate::auction::{
    clean, clean_model, dutch_auction_exchange, dutch_settle_model, english_auction,
    english_bid_exchange, english_bid_model, english_settle_model,
};
use crate::error::ExchangeError;
use crate::helper::{exchange as settle, settlement_of};
use crate::msg::{
    listing_key, order_key, valid_listing, Addr, ExchangeTokenStruct, ExecuteMsg,
    OrderListForBuyer, OrderListForSeller, QueryMsg,
};
use crate::state::{ListingMap, ListingStore};
use vstd::prelude::*;

verus! {

/// Sets up the exchange with an empty listing store.
pub fn instantiate() -> (s: ListingStore)
    ensures
        s.inv(),
        s@ == ListingMap::empty(),
{
    ListingStore::new()
}

/// Checks that a listing may be registered: a well-formed listing passes,
/// anything else is InvalidListing. Callers that cannot establish
/// well-formedness up front gate their `register` call on this.
pub fn validate_listing(list_for_seller: &OrderListForSeller) -> (r: Result<(), ExchangeError>)
    ensures
        r is Ok <==> valid_listing(*list_for_seller),
        r is Err ==> r == Err::<(), ExchangeError>(ExchangeError::InvalidListing),
{
    if list_for_seller.is_valid() {
        Ok(())
    } else {
        Err(ExchangeError::InvalidListing)
    }
}

/// What registration does: a taken key answers AlreadyExists and changes
/// nothing; a free key stores the listing as given.
pub open spec fn register_model(m: ListingMap, l: OrderListForSeller) -> (
    ListingMap,
    Result<(), ExchangeError>,
) {
    let k = listing_key(l);
    if m.contains_key(k) {
        (m, Err(ExchangeError::AlreadyExists))
    } else {
        (m.insert(k, l), Ok(()))
    }
}

/// Registers a new listing under its (token id, collection address) key.
pub fn register(store: &mut ListingStore, list_for_seller: OrderListForSeller) -> (r: Result<
    (),
    ExchangeError,
>)
    requires
        old(store).inv(),
        valid_listing(list_for_seller),
    ensures
        final(store).inv(),
        final(store)@ == register_model(old(store)@, list_for_seller).0,
        r == register_model(old(store)@, list_for_seller).1,
{
    if store.contains(list_for_seller.erc721_token_id, &list_for_seller.contract_address) {
        return Err(ExchangeError::AlreadyExists);
    }
    store.insert_new(list_for_seller);
    Ok(())
}

/// What fixed-price settlement does: the offer must equal the ask exactly;
/// the listing is then deleted and the settlement record produced.
pub open spec fn fixed_exchange_model(m: ListingMap, o: OrderListForBuyer) -> (
    ListingMap,
    Result<ExchangeTokenStruct, ExchangeError>,
) {
    let k = order_key(o);
    if !m.contains_key(k) {
        (m, Err(ExchangeError::NotFound))
    } else if m[k].highest_bid != o.amount_of_erc20 {
        (m, Err(ExchangeError::PriceMismatch))
    } else {
        (m.remove(k), Ok(settlement_of(m[k], o, o.amount_of_erc20)))
    }
}

/// Settles a fixed-price listing: the offer must match the ask exactly.
pub fn exchange(store: &mut ListingStore, list_for_buyer: &OrderListForBuyer) -> (r: Result<
    ExchangeTokenStruct,
    ExchangeError,
>)
    requires
        old(store).inv(),
    ensures
        final(store).inv(),
        final(store)@ == fixed_exchange_model(old(store)@, *list_for_buyer).0,
        r == fixed_exchange_model(old(store)@, *list_for_buyer).1,
{
    let curr = match store.load(
        list_for_buyer.erc721_token_id_want,
        &list_for_buyer.erc721_contract_address,
    ) {
        Ok(l) => l,
        Err(e) => {
            return Err(e);
        },
    };
    if curr.highest_bid != list_for_buyer.amount_of_erc20 {
        return Err(ExchangeError::PriceMismatch);
    }
    Ok(settle(store, list_for_buyer, &curr, list_for_buyer.amount_of_erc20))
}

/// What a listing lookup answers: the stored listing, or NotFound.
pub open spec fn order_list_model(m: ListingMap, token_id: u64, contract_address: Seq<char>)
    -> Result<OrderListForSeller, ExchangeError> {
    if m.contains_key((token_id, contract_address)) {
        Ok(m[(token_id, contract_address)])
    } else {
        Err(ExchangeError::NotFound)
    }
}

/// Looks up the listing stored under (token id, collection address).
pub fn order_list(store: &ListingStore, token_id: u64, contract_address: &Addr) -> (r: Result<
    OrderListForSeller,
    ExchangeError,
>)
    requires
        store.inv(),
    ensures
        r == order_list_model(store@, token_id, contract_address@),
{
    store.load(token_id, contract_address)
}

/// What a query answers, per request.
pub open spec fn query_model(m: ListingMap, msg: QueryMsg) -> Result<
    OrderListForSeller,
    ExchangeError,
> {
    match msg {
        QueryMsg::OrderList { token_id, contract_address } => order_list_model(
            m,
            token_id,
            contract_address@,
        ),
    }
}

/// Answers a query against the store. Queries never change the store.
pub fn query(store: &ListingStore, msg: &QueryMsg) -> (r: Result<
    OrderListForSeller,
    ExchangeError,
>)
    requires
        store.inv(),
    ensures
        r == query_model(store@, *msg),
{
    match msg {
        QueryMsg::OrderList { token_id, contract_address } => order_list(
            store,
            *token_id,
            contract_address,
        ),
    }
}

/// What dispatching an action does to the store and answers, per action.
/// Settlements answer the settlement record; the other actions answer
/// nothing.
pub open spec fn execute_model(m: ListingMap, sender: Addr, height: u64, msg: ExecuteMsg) -> (
    ListingMap,
    Result<Option<ExchangeTokenStruct>, ExchangeError>,
) {
    match msg {
        ExecuteMsg::Register { list_for_seller } => {
            let out = register_model(m, list_for_seller);
            (
                out.0,
                match out.1 {
                    Ok(_) => Ok(None),
                    Err(e) => Err(e),
                },
            )
        },
        ExecuteMsg::Exchange { list_for_buyer } => {
            let out = fixed_exchange_model(m, list_for_buyer);
            (
                out.0,
                match out.1 {
                    Ok(x) => Ok(Some(x)),
                    Err(e) => Err(e),
                },
            )
        },
        ExecuteMsg::EnglishAuction { list_for_buyer } => {
            let out = english_bid_model(m, list_for_buyer, height);
            (
                out.0,
                match out.1 {
                    Ok(_) => Ok(None),
                    Err(e) => Err(e),
                },
            )
        },
        ExecuteMsg::ExchangeEnglishBid { list_for_buyer } => {
            let out = english_settle_model(m, sender, list_for_buyer, height);
            (
                out.0,
                match out.1 {
                    Ok(x) => Ok(Some(x)),
                    Err(e) => Err(e),
                },
            )
        },
        ExecuteMsg::DutchExchange { list_for_buyer } => {
            let out = dutch_settle_model(m, list_for_buyer, height);
            (
                out.0,
                match out.1 {
                    Ok(x) => Ok(Some(x)),
                    Err(e) => Err(e),
                },
            )
        },
        ExecuteMsg::Clean { list_for_seller } => {
            let out = clean_model(m, list_for_seller, height);
            (
                out.0,
                match out.1 {
                    Ok(_) => Ok(None),
                    Err(e) => Err(e),
                },
            )
        },
    }
}

/// Dispatches one action against the store: exactly one operation runs,
/// as one indivisible unit. `height` is the caller-supplied current time
/// (a block height) and `sender` the caller's identity.
pub fn execute(store: &mut ListingStore, sender: &Addr, height: u64, msg: ExecuteMsg) -> (r:
    Result<Option<ExchangeTokenStruct>, ExchangeError>)
    requires
        old(store).inv(),
        msg matches ExecuteMsg::Register { list_for_seller } ==> valid_listing(list_for_seller),
    ensures
        final(store).inv(),
        final(store)@ == execute_model(old(store)@, *sender, height, msg).0,
        r == execute_model(old(store)@, *sender, height, msg).1,
{
    match msg {
        ExecuteMsg::Register { list_for_seller } => {
            match register(store, list_for_seller) {
                Ok(_) => Ok(None),
                Err(e) => Err(e),
            }
        },
        ExecuteMsg::Exchange { list_for_buyer } => {
            match exchange(store, &list_for_buyer) {
                Ok(x) => Ok(Some(x)),
                Err(e) => Err(e),
            }
        },
        ExecuteMsg::EnglishAuction { list_for_buyer } => {
            match english_auction(store, height, &list_for_buyer) {
                Ok(_) => Ok(None),
                Err(e) => Err(e),
            }
        },
        ExecuteMsg::ExchangeEnglishBid { list_for_buyer } => {
            match english_bid_exchange(store, sender, height, &list_for_buyer) {
                Ok(x) => Ok(Some(x)),
                Err(e) => Err(e),
            }
        },
        ExecuteMsg::DutchExchange { list_for_buyer } => {
            match dutch_auction_exchange(store, height, &list_for_buyer) {
                Ok(x) => Ok(Some(x)),
                Err(e) => Err(e),
            }
        },
        ExecuteMsg::Clean { list_for_seller } => {
            match clean(store, height, &list_for_seller) {
                Ok(_) => Ok(None),
                Err(e) => Err(e),
            }
        },
    }
}

} // verus!
