//! The shared settlement routine and the outbound transfer instructions.
//!
//! Every successful settlement converges here: the listing leaves the
//! store, and a settlement record is produced from which the two transfer
//! instructions are read off in a fixed, externally observable order —
//! payment first, then the unique asset. Deletion and record are part of
//! one atomic action: no error path reaches this routine.

use crate::msg::{order_key, Addr, ExchangeTokenStruct, OrderListForBuyer, OrderListForSeller};
use crate::state::ListingStore;
use vstd::prelude::*;

verus! {

/// One outbound instruction to an asset sub-system. The exchange only
/// emits these; it never moves balances itself.
#[derive(Debug, PartialEq)]
pub enum TransferMsg {
    /// Move `amount` of the payment asset held by `contract` from the
    /// buyer to the seller.
    PaymentTransfer { contract: Addr, from: Addr, to: Addr, amount: u64 },
    /// Move the unique asset `token_id` held by `contract` from the
    /// seller to the buyer.
    UniqueAssetTransfer { contract: Addr, sender: Addr, recipient: Addr, token_id: u64 },
}

/// The settlement record produced when listing `l` is sold to the author
/// of buy order `o` at price `price`.
pub open spec fn settlement_of(
    l: OrderListForSeller,
    o: OrderListForBuyer,
    price: u64,
) -> ExchangeTokenStruct {
    ExchangeTokenStruct {
        erc20_token_sender: o.owner,
        erc20_token_reciever: l.owner,
        erc721_token_sender: l.owner,
        erc721_token_reciever: o.owner,
        erc20_contract_address: o.contract_address,
        erc721_contract_address: l.contract_address,
        token_id: l.erc721_token_id,
        erc20_amount: price,
    }
}

/// The two transfer instructions of a settlement, in the order they are
/// emitted: payment first, then the unique asset.
pub open spec fn transfer_msgs_of(x: ExchangeTokenStruct) -> Seq<TransferMsg> {
    seq![
        TransferMsg::PaymentTransfer {
            contract: x.erc20_contract_address,
            from: x.erc20_token_sender,
            to: x.erc20_token_reciever,
            amount: x.erc20_amount,
        },
        TransferMsg::UniqueAssetTransfer {
            contract: x.erc721_contract_address,
            sender: x.erc721_token_sender,
            recipient: x.erc721_token_reciever,
            token_id: x.token_id,
        },
    ]
}

/// Settles `curr_list` against `list_for_buyer` at `current_erc20_amount`:
/// deletes the listing from the store and returns the settlement record.
/// Validation belongs to the callers; this routine is only reached once
/// every check has passed.
pub fn exchange(
    store: &mut ListingStore,
    list_for_buyer: &OrderListForBuyer,
    curr_list: &OrderListForSeller,
    current_erc20_amount: u64,
) -> (r: ExchangeTokenStruct)
    requires
        old(store).inv(),
        old(store)@.contains_key(order_key(*list_for_buyer)),
    ensures
        final(store).inv(),
        final(store)@ == old(store)@.remove(order_key(*list_for_buyer)),
        r == settlement_of(*curr_list, *list_for_buyer, current_erc20_amount),
{
    let r = ExchangeTokenStruct {
        erc20_token_sender: list_for_buyer.owner.clone(),
        erc20_token_reciever: curr_list.owner.clone(),
        erc721_token_sender: curr_list.owner.clone(),
        erc721_token_reciever: list_for_buyer.owner.clone(),
        erc20_contract_address: list_for_buyer.contract_address.clone(),
        erc721_contract_address: curr_list.contract_address.clone(),
        token_id: curr_list.erc721_token_id,
        erc20_amount: current_erc20_amount,
    };
    store.delete(list_for_buyer.erc721_token_id_want, &list_for_buyer.erc721_contract_address);
    r
}

/// Reads the two transfer instructions off a settlement record, in the
/// order they must reach the asset sub-systems.
pub fn transfer_msgs(x: &ExchangeTokenStruct) -> (v: Vec<TransferMsg>)
    ensures
        v@ == transfer_msgs_of(*x),
{
    let mut v: Vec<TransferMsg> = Vec::new();
    v.push(
        TransferMsg::PaymentTransfer {
            contract: x.erc20_contract_address.clone(),
            from: x.erc20_token_sender.clone(),
            to: x.erc20_token_reciever.clone(),
            amount: x.erc20_amount,
        },
    );
    v.push(
        TransferMsg::UniqueAssetTransfer {
            contract: x.erc721_contract_address.clone(),
            sender: x.erc721_token_sender.clone(),
            recipient: x.erc721_token_reciever.clone(),
            token_id: x.token_id,
        },
    );
    proof {
        assert(v@ =~= transfer_msgs_of(*x));
    }
    v
}

} // verus!
