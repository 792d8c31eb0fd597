//! The pricing engine: pure price computations for the three modes.
//!
//! A Dutch listing's required price decays linearly from `highest_bid` at
//! `start_time` toward `erc20_amount_after_time` (the floor) at `end_time`.
//! The per-unit-time decrement is computed first with integer division and
//! then multiplied by the elapsed time, so the curve is piecewise linear
//! with a quantization error smaller than the window length.

use crate::msg::{valid_listing, AuctionType, OrderListForSeller};
use vstd::arithmetic::div_mod::{
    lemma_div_by_self, lemma_div_is_ordered, lemma_div_pos_is_pos, lemma_remainder_lower,
};
use vstd::arithmetic::mul::{
    lemma_mul_inequality, lemma_mul_is_distributive_sub, lemma_mul_nonnegative,
};
use vstd::prelude::*;

verus! {

/// The price a Dutch listing demands at time `t`: the starting price minus
/// the per-unit-time decrement times the elapsed time.
pub open spec fn dutch_price_model(l: OrderListForSeller, t: u64) -> int {
    l.highest_bid - ((l.highest_bid - l.erc20_amount_after_time) / (l.end_time
        - l.start_time)) * (t - l.start_time)
}

/// The decrement accumulated by time `t` lies between zero and the whole
/// decay range, so the curve price stays between the floor and the
/// starting price.
proof fn lemma_dutch_drop_bounds(l: OrderListForSeller, t: u64)
    requires
        l.start_time < l.end_time,
        l.erc20_amount_after_time <= l.highest_bid,
        l.start_time <= t <= l.end_time,
    ensures
        0 <= ((l.highest_bid - l.erc20_amount_after_time) / (l.end_time - l.start_time)) * (t
            - l.start_time) <= l.highest_bid - l.erc20_amount_after_time,
{
    let diff = l.highest_bid - l.erc20_amount_after_time;
    let dur = l.end_time - l.start_time;
    let dec = diff / dur;
    let elapsed = t - l.start_time;
    lemma_div_pos_is_pos(diff, dur);
    lemma_mul_nonnegative(dec, elapsed);
    lemma_mul_inequality(elapsed, dur, dec);
    lemma_remainder_lower(diff, dur);
    assert(dec * elapsed <= dec * dur) by {
        assert(elapsed * dec <= dur * dec);
        assert(elapsed * dec == dec * elapsed) by (nonlinear_arith);
        assert(dur * dec == dec * dur) by (nonlinear_arith);
    }
    assert(dec * dur == diff / dur * dur) by (nonlinear_arith)
        requires
            dec == diff / dur,
    ;
}

/// For every well-formed Dutch listing the curve price stays within
/// `[floor, highest_bid]` throughout the auction window.
pub proof fn lemma_dutch_price_bounds(l: OrderListForSeller, t: u64)
    requires
        valid_listing(l),
        l.auction_type == AuctionType::Dutch,
        l.start_time <= t <= l.end_time,
    ensures
        l.erc20_amount_after_time <= dutch_price_model(l, t) <= l.highest_bid,
{
    lemma_dutch_drop_bounds(l, t);
}

/// At the start of the window the curve price is exactly the starting
/// price `highest_bid`.
pub proof fn lemma_dutch_price_at_start(l: OrderListForSeller)
    requires
        valid_listing(l),
        l.auction_type == AuctionType::Dutch,
    ensures
        dutch_price_model(l, l.start_time) == l.highest_bid,
{
}

/// The curve price never rises as time advances through the window.
pub proof fn lemma_dutch_price_monotone(l: OrderListForSeller, t1: u64, t2: u64)
    requires
        valid_listing(l),
        l.auction_type == AuctionType::Dutch,
        l.start_time <= t1 <= t2 <= l.end_time,
    ensures
        dutch_price_model(l, t2) <= dutch_price_model(l, t1),
{
    let diff = l.highest_bid - l.erc20_amount_after_time;
    let dur = l.end_time - l.start_time;
    let dec = diff / dur;
    lemma_div_pos_is_pos(diff, dur);
    lemma_mul_inequality(t1 - l.start_time, t2 - l.start_time, dec);
    assert((t1 - l.start_time) * dec == dec * (t1 - l.start_time)) by (nonlinear_arith);
    assert((t2 - l.start_time) * dec == dec * (t2 - l.start_time)) by (nonlinear_arith);
}

/// When the decay range covers the window length, the per-unit-time
/// decrement is at least one and the curve price strictly decreases on
/// `[start_time, end_time)`.
///
/// The strictness genuinely needs that side condition: when the range
/// `highest_bid - floor` is smaller than the window, integer division
/// rounds the decrement to zero and the curve is flat.
pub proof fn lemma_dutch_price_strictly_decreasing(l: OrderListForSeller, t1: u64, t2: u64)
    requires
        valid_listing(l),
        l.auction_type == AuctionType::Dutch,
        l.highest_bid - l.erc20_amount_after_time >= l.end_time - l.start_time,
        l.start_time <= t1 < t2 < l.end_time,
    ensures
        dutch_price_model(l, t2) < dutch_price_model(l, t1),
{
    let diff = l.highest_bid - l.erc20_amount_after_time;
    let dur = l.end_time - l.start_time;
    let dec = diff / dur;
    lemma_div_by_self(dur);
    lemma_div_is_ordered(dur, diff, dur);
    assert(dec >= 1);
    let e1 = t1 - l.start_time;
    let e2 = t2 - l.start_time;
    lemma_mul_is_distributive_sub(dec, e2, e1);
    assert(dec * (e2 - e1) >= 1 * (e2 - e1)) by {
        lemma_mul_inequality(1, dec, e2 - e1);
        assert(1 * (e2 - e1) == (e2 - e1) * 1) by (nonlinear_arith);
        assert(dec * (e2 - e1) == (e2 - e1) * dec) by (nonlinear_arith);
    }
    assert(dec * e2 - dec * e1 >= e2 - e1 > 0);
}

/// Computes the current Dutch curve price of a well-formed Dutch listing
/// at a time inside the auction window.
pub fn dutch_price(l: &OrderListForSeller, time: u64) -> (p: u64)
    requires
        valid_listing(*l),
        l.auction_type == AuctionType::Dutch,
        l.start_time <= time <= l.end_time,
    ensures
        p == dutch_price_model(*l, time),
        l.erc20_amount_after_time <= p <= l.highest_bid,
{
    proof {
        lemma_dutch_drop_bounds(*l, time);
    }
    let dur = l.end_time - l.start_time;
    let dec = (l.highest_bid - l.erc20_amount_after_time) / dur;
    let drop_amount = dec * (time - l.start_time);
    l.highest_bid - drop_amount
}

} // verus!
