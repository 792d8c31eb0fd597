//! Concrete scenarios for the lifecycle and pricing rules, and one input
//! for every error the exchange can answer.

use exchange_token::auction::{clean, dutch_auction_exchange, english_auction,
    english_bid_exchange};
use exchange_token::contract::{execute, instantiate, order_list, register, validate_listing};
use exchange_token::error::ExchangeError;
use exchange_token::msg::{
    Addr, AuctionType, ExecuteMsg, OrderListForBuyer, OrderListForSeller, QueryMsg, TokenType,
};
use exchange_token::pricing::dutch_price;

fn addr(s: &str) -> Addr {
    Addr::new(s.to_string())
}

fn listing(mode: AuctionType, bid: u64, floor: u64, start: u64, end: u64) -> OrderListForSeller {
    OrderListForSeller {
        owner: addr("seller"),
        contract_address: addr("collection"),
        erc721_token_id: 7,
        highest_bid: bid,
        end_time: end,
        start_time: start,
        highest_bidder: addr(""),
        erc20_amount_after_time: floor,
        auction_type: mode,
        sell_token_type: TokenType::ERC721,
    }
}

fn order(who: &str, amount: u64) -> OrderListForBuyer {
    OrderListForBuyer {
        owner: addr(who),
        contract_address: addr("payment"),
        amount_of_erc20: amount,
        erc721_token_id_want: 7,
        erc721_contract_address: addr("collection"),
        buy_token_type: TokenType::ERC721,
    }
}

#[test]
fn dutch_curve_quantized_price() {
    // highBid 200, floor 60, window [100, 102): the per-unit decrement is
    // (200-60)/2 = 70, so the price at 101 is 200 - 70 = 130.
    let l = listing(AuctionType::Dutch, 200, 60, 100, 102);
    assert_eq!(dutch_price(&l, 100), 200);
    assert_eq!(dutch_price(&l, 101), 130);
    assert_eq!(dutch_price(&l, 102), 60);
}

#[test]
fn dutch_buy_at_curve_price() {
    let mut store = instantiate();
    register(&mut store, listing(AuctionType::Dutch, 200, 60, 100, 102)).unwrap();

    // Offering one unit below the curve price is a price mismatch and
    // leaves the listing in place.
    let res = dutch_auction_exchange(&mut store, 101, &order("buyer", 129));
    assert_eq!(res, Err(ExchangeError::PriceMismatch));
    assert!(order_list(&store, 7, &addr("collection")).is_ok());

    // Offering exactly the curve price settles at that price.
    let res = dutch_auction_exchange(&mut store, 101, &order("buyer", 130)).unwrap();
    assert_eq!(res.erc20_amount, 130);
    assert_eq!(res.erc721_token_reciever, addr("buyer"));
    assert_eq!(order_list(&store, 7, &addr("collection")), Err(ExchangeError::NotFound));
}

#[test]
fn english_bids_must_strictly_increase() {
    let mut store = instantiate();
    register(&mut store, listing(AuctionType::English, 200, 0, 100, 102)).unwrap();

    let res = english_auction(&mut store, 101, &order("buyer", 250));
    assert_eq!(res, Ok(()));
    let l = order_list(&store, 7, &addr("collection")).unwrap();
    assert_eq!(l.highest_bid, 250);
    assert_eq!(l.highest_bidder, addr("buyer"));

    // A bid equal to the highest bid is rejected, and so is a lower one.
    let res = english_auction(&mut store, 101, &order("late", 250));
    assert_eq!(res, Err(ExchangeError::BidTooLow));
    let res = english_auction(&mut store, 101, &order("late", 240));
    assert_eq!(res, Err(ExchangeError::BidTooLow));
    let l = order_list(&store, 7, &addr("collection")).unwrap();
    assert_eq!(l.highest_bid, 250);
    assert_eq!(l.highest_bidder, addr("buyer"));
}

#[test]
fn english_settlement_goes_to_highest_bidder() {
    let mut store = instantiate();
    register(&mut store, listing(AuctionType::English, 200, 0, 100, 102)).unwrap();
    english_auction(&mut store, 101, &order("buyer", 250)).unwrap();

    // Before the window closes nobody can settle, not even the winner.
    let res = english_bid_exchange(&mut store, &addr("buyer"), 101, &order("buyer", 250));
    assert_eq!(res, Err(ExchangeError::AuctionNotOver));

    // Once it closes, any other caller is turned away...
    let res = english_bid_exchange(&mut store, &addr("intruder"), 102, &order("intruder", 250));
    assert_eq!(res, Err(ExchangeError::Unauthorized));

    // ...and the recorded highest bidder receives the asset for 250.
    let res = english_bid_exchange(&mut store, &addr("buyer"), 102, &order("buyer", 250)).unwrap();
    assert_eq!(res.erc20_amount, 250);
    assert_eq!(res.erc721_token_reciever, addr("buyer"));
    assert_eq!(order_list(&store, 7, &addr("collection")), Err(ExchangeError::NotFound));
}

#[test]
fn reclaim_needs_expired_dutch() {
    let mut store = instantiate();
    let l = listing(AuctionType::Dutch, 200, 60, 100, 102);
    register(&mut store, l.clone()).unwrap();

    // Before the end time the auction is still running.
    let res = clean(&mut store, 101, &l);
    assert_eq!(res, Err(ExchangeError::AuctionNotOver));

    // From the end time on, the unsold listing can be reclaimed.
    let res = clean(&mut store, 102, &l);
    assert_eq!(res, Ok(()));
    assert_eq!(order_list(&store, 7, &addr("collection")), Err(ExchangeError::NotFound));

    // A second reclaim finds nothing.
    let res = clean(&mut store, 102, &l);
    assert_eq!(res, Err(ExchangeError::NotFound));
}

#[test]
fn reclaim_never_touches_other_modes() {
    let mut store = instantiate();
    let l = listing(AuctionType::English, 200, 0, 100, 102);
    register(&mut store, l.clone()).unwrap();
    let res = clean(&mut store, 200, &l);
    assert_eq!(res, Err(ExchangeError::WrongMode));
    assert!(order_list(&store, 7, &addr("collection")).is_ok());

    let mut store = instantiate();
    let l = listing(AuctionType::Fixed, 200, 0, 100, 102);
    register(&mut store, l.clone()).unwrap();
    let res = clean(&mut store, 200, &l);
    assert_eq!(res, Err(ExchangeError::WrongMode));
    assert!(order_list(&store, 7, &addr("collection")).is_ok());
}

#[test]
fn every_error_has_an_input() {
    let mut store = instantiate();
    let height: u64 = 101;

    // NotFound: nothing registered yet.
    let res = execute(&mut store, &addr("buyer"), height, ExecuteMsg::EnglishAuction {
        list_for_buyer: order("buyer", 250),
    });
    assert_eq!(res, Err(ExchangeError::NotFound));

    register(&mut store, listing(AuctionType::Dutch, 200, 60, 100, 102)).unwrap();

    // AlreadyExists: the key is taken.
    let res = register(&mut store, listing(AuctionType::Dutch, 150, 50, 100, 110));
    assert_eq!(res, Err(ExchangeError::AlreadyExists));

    // AuctionExpired: a Dutch settlement at the end time.
    let res = dutch_auction_exchange(&mut store, 102, &order("buyer", 500));
    assert_eq!(res, Err(ExchangeError::AuctionExpired));

    // AuctionNotOpen: a Dutch settlement before the start time.
    let res = dutch_auction_exchange(&mut store, 99, &order("buyer", 500));
    assert_eq!(res, Err(ExchangeError::AuctionNotOpen));

    // AuctionClosed: a bid at the end time.
    let res = english_auction(&mut store, 102, &order("buyer", 500));
    assert_eq!(res, Err(ExchangeError::AuctionClosed));

    // WrongMode: a Dutch settlement against a non-Dutch listing.
    let mut other = instantiate();
    register(&mut other, listing(AuctionType::English, 200, 0, 100, 102)).unwrap();
    let res = dutch_auction_exchange(&mut other, 101, &order("buyer", 500));
    assert_eq!(res, Err(ExchangeError::WrongMode));

    // InvalidListing: an empty auction window never registers.
    let res = validate_listing(&listing(AuctionType::Fixed, 200, 0, 100, 100));
    assert_eq!(res, Err(ExchangeError::InvalidListing));
    // A Dutch floor above the starting price is refused too.
    let res = validate_listing(&listing(AuctionType::Dutch, 100, 150, 100, 102));
    assert_eq!(res, Err(ExchangeError::InvalidListing));
    assert_eq!(validate_listing(&listing(AuctionType::Dutch, 200, 60, 100, 102)), Ok(()));
}

#[test]
fn fixed_price_must_match_exactly() {
    let mut store = instantiate();
    register(&mut store, listing(AuctionType::Fixed, 200, 0, 100, 102)).unwrap();

    let res = execute(&mut store, &addr("buyer"), 101, ExecuteMsg::Exchange {
        list_for_buyer: order("buyer", 199),
    });
    assert_eq!(res, Err(ExchangeError::PriceMismatch));
    let res = execute(&mut store, &addr("buyer"), 101, ExecuteMsg::Exchange {
        list_for_buyer: order("buyer", 201),
    });
    assert_eq!(res, Err(ExchangeError::PriceMismatch));

    let res = execute(&mut store, &addr("buyer"), 101, ExecuteMsg::Exchange {
        list_for_buyer: order("buyer", 200),
    }).unwrap().unwrap();
    assert_eq!(res.erc20_amount, 200);

    // The listing is gone: settling again answers NotFound.
    let res = execute(&mut store, &addr("buyer"), 101, ExecuteMsg::Exchange {
        list_for_buyer: order("buyer", 200),
    });
    assert_eq!(res, Err(ExchangeError::NotFound));
}

#[test]
fn query_finds_what_was_registered() {
    let mut store = instantiate();
    let l = listing(AuctionType::Fixed, 321, 0, 5, 9);
    register(&mut store, l.clone()).unwrap();

    let q = QueryMsg::OrderList { token_id: 7, contract_address: addr("collection") };
    assert_eq!(exchange_token::contract::query(&store, &q), Ok(l));

    let q = QueryMsg::OrderList { token_id: 8, contract_address: addr("collection") };
    assert_eq!(exchange_token::contract::query(&store, &q), Err(ExchangeError::NotFound));
}

#[test]
fn dutch_price_decreases_with_steep_curve() {
    // The decay range (140) covers the window (2), so the price strictly
    // decreases step by step until the window ends.
    let l = listing(AuctionType::Dutch, 200, 60, 100, 102);
    assert!(dutch_price(&l, 100) > dutch_price(&l, 101));
    assert!(dutch_price(&l, 101) > dutch_price(&l, 102));

    // With a shallow curve the integer decrement rounds to zero and the
    // price stays flat: strict decrease genuinely needs the steepness.
    let flat = listing(AuctionType::Dutch, 100, 99, 100, 200);
    assert_eq!(dutch_price(&flat, 100), 100);
    assert_eq!(dutch_price(&flat, 199), 100);
}
