//! The data model of the exchange: addresses, listings, buy orders, the
//! settlement record, and the request enums dispatched by `execute` and
//! `query`.

use vstd::prelude::*;

verus! {

/// An account or contract address, held as plain text. Two addresses are
/// the same account exactly when their text is the same.
#[derive(Debug)]
pub struct Addr {
    /// The address text.
    pub text: String,
}

impl View for Addr {
    type V = Seq<char>;

    open spec fn view(&self) -> Seq<char> {
        self.text@
    }
}

impl Addr {
    /// Wraps the given text as an address, unchecked: the exchange treats
    /// addresses as opaque identities and never inspects their shape.
    pub fn new(text: String) -> (a: Addr)
        ensures
            a@ == text@,
    {
        Addr { text }
    }

    /// The address as text, for callers that route messages to it.
    pub fn as_str(&self) -> (s: &str)
        ensures
            s@ == self@,
    {
        self.text.as_str()
    }
}

impl Clone for Addr {
    fn clone(&self) -> (a: Self)
        ensures
            a == *self,
    {
        Addr { text: self.text.clone() }
    }
}

impl PartialEq for Addr {
    fn eq(&self, other: &Self) -> (r: bool) {
        self.text == other.text
    }
}

impl vstd::std_specs::cmp::PartialEqSpecImpl for Addr {
    open spec fn obeys_eq_spec() -> bool {
        true
    }

    open spec fn eq_spec(&self, other: &Self) -> bool {
        self.text@ == other.text@
    }
}

/// The pricing mode a listing is sold under.
#[derive(Clone, Copy, Debug, PartialEq, Eq, Structural)]
pub enum AuctionType {
    Fixed,
    English,
    Dutch,
}

/// The kind of asset a party offers.
#[derive(Clone, Copy, Debug, PartialEq, Eq, Structural)]
pub enum TokenType {
    ERC20,
    ERC721,
}

/// A listing: one unique asset offered for sale under a chosen pricing
/// mode. At most one listing is stored per (token id, collection address)
/// key at any time.
#[derive(Debug, PartialEq)]
pub struct OrderListForSeller {
    /// The seller. Set at creation, immutable.
    pub owner: Addr,
    /// The collection contract holding the unique asset; with
    /// `erc721_token_id` it forms the listing's key.
    pub contract_address: Addr,
    /// The current highest bidder; meaningful only for English mode, and
    /// only once a bid has been accepted.
    pub highest_bidder: Addr,
    /// The identifier of the unique asset inside its collection.
    pub erc721_token_id: u64,
    /// The seller's ask at creation; for English mode it becomes the
    /// current highest bid.
    pub highest_bid: u64,
    /// The end of the auction window.
    pub end_time: u64,
    /// The start of the auction window.
    pub start_time: u64,
    /// For Dutch mode, the floor the price curve decays to; unused by the
    /// other modes.
    pub erc20_amount_after_time: u64,
    /// The pricing mode. Immutable once created.
    pub auction_type: AuctionType,
    /// The kind of asset offered.
    pub sell_token_type: TokenType,
}

/// A buy order: ephemeral input naming the listing it targets and the
/// payment offered. Never persisted.
#[derive(Debug, PartialEq)]
pub struct OrderListForBuyer {
    /// The buyer.
    pub owner: Addr,
    /// The payment-asset contract the buyer pays from.
    pub contract_address: Addr,
    /// The payment amount offered (or bid).
    pub amount_of_erc20: u64,
    /// The identifier of the unique asset wanted.
    pub erc721_token_id_want: u64,
    /// The collection contract of the unique asset wanted.
    pub erc721_contract_address: Addr,
    /// The kind of asset wanted.
    pub buy_token_type: TokenType,
}

/// The record of one settlement: who pays whom, which unique asset moves,
/// and the settled amount. The two transfer instructions of a settlement
/// are read off this record in a fixed order: payment first, then the
/// unique asset.
#[derive(Debug, PartialEq)]
pub struct ExchangeTokenStruct {
    /// The buyer, who pays.
    pub erc20_token_sender: Addr,
    /// The seller, who is paid.
    pub erc20_token_reciever: Addr,
    /// The seller, who gives up the unique asset.
    pub erc721_token_sender: Addr,
    /// The buyer, who receives the unique asset.
    pub erc721_token_reciever: Addr,
    /// The payment-asset contract.
    pub erc20_contract_address: Addr,
    /// The collection contract of the unique asset.
    pub erc721_contract_address: Addr,
    /// The identifier of the unique asset.
    pub token_id: u64,
    /// The settled payment amount.
    pub erc20_amount: u64,
}

/// The actions the exchange accepts.
#[derive(Debug)]
pub enum ExecuteMsg {
    /// Register a new listing under its key.
    Register { list_for_seller: OrderListForSeller },
    /// Settle a fixed-price listing at exactly its ask.
    Exchange { list_for_buyer: OrderListForBuyer },
    /// Place an English-auction bid.
    EnglishAuction { list_for_buyer: OrderListForBuyer },
    /// Settle a closed English auction, as its highest bidder.
    ExchangeEnglishBid { list_for_buyer: OrderListForBuyer },
    /// Settle a running Dutch auction at its current curve price.
    DutchExchange { list_for_buyer: OrderListForBuyer },
    /// Reclaim an expired, unsold Dutch listing.
    Clean { list_for_seller: OrderListForSeller },
}

/// The queries the exchange answers.
#[derive(Debug)]
pub enum QueryMsg {
    /// Look up the listing stored under (token id, collection address).
    OrderList { token_id: u64, contract_address: Addr },
}

/// The store key of a listing: the unique asset it offers.
pub open spec fn listing_key(l: OrderListForSeller) -> (u64, Seq<char>) {
    (l.erc721_token_id, l.contract_address@)
}

/// The store key a buy order targets.
pub open spec fn order_key(o: OrderListForBuyer) -> (u64, Seq<char>) {
    (o.erc721_token_id_want, o.erc721_contract_address@)
}

/// A listing is well formed when its auction window is non-empty and, for
/// Dutch mode, its floor does not exceed its starting price. Registration
/// demands this, so every stored listing satisfies it.
pub open spec fn valid_listing(l: OrderListForSeller) -> bool {
    &&& l.start_time < l.end_time
    &&& l.auction_type == AuctionType::Dutch ==> l.erc20_amount_after_time <= l.highest_bid
}

impl OrderListForSeller {
    /// Returns whether this listing is well formed: a non-empty auction
    /// window and, for Dutch mode, a floor no higher than the starting
    /// price.
    pub fn is_valid(&self) -> (r: bool)
        ensures
            r == valid_listing(*self),
    {
        self.start_time < self.end_time && (!matches!(self.auction_type, AuctionType::Dutch)
            || self.erc20_amount_after_time <= self.highest_bid)
    }
}

impl Clone for OrderListForSeller {
    fn clone(&self) -> (l: Self)
        ensures
            l == *self,
    {
        OrderListForSeller {
            owner: self.owner.clone(),
            contract_address: self.contract_address.clone(),
            highest_bidder: self.highest_bidder.clone(),
            erc721_token_id: self.erc721_token_id,
            highest_bid: self.highest_bid,
            end_time: self.end_time,
            start_time: self.start_time,
            erc20_amount_after_time: self.erc20_amount_after_time,
            auction_type: self.auction_type,
            sell_token_type: self.sell_token_type,
        }
    }
}

impl Clone for OrderListForBuyer {
    fn clone(&self) -> (o: Self)
        ensures
            o == *self,
    {
        OrderListForBuyer {
            owner: self.owner.clone(),
            contract_address: self.contract_address.clone(),
            amount_of_erc20: self.amount_of_erc20,
            erc721_token_id_want: self.erc721_token_id_want,
            erc721_contract_address: self.erc721_contract_address.clone(),
            buy_token_type: self.buy_token_type,
        }
    }
}

} // verus!
