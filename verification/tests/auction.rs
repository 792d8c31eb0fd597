//! The auction flows: English bidding and settlement, Dutch settlement,
//! and reclamation.

use exchange_token::contract::{execute, instantiate, query};
use exchange_token::error::ExchangeError;
use exchange_token::helper::{transfer_msgs, TransferMsg};
use exchange_token::msg::{
    Addr, AuctionType, ExecuteMsg, OrderListForBuyer, OrderListForSeller, QueryMsg, TokenType,
};

fn addr(s: &str) -> Addr {
    Addr::new(s.to_string())
}

#[test]
fn auction_english_auction() {
    let mut store = instantiate();
    let height: u64 = 12_345;

    let list = OrderListForSeller {
        owner: addr("seller"),
        contract_address: addr("contract_erc721"),
        erc721_token_id: 2,
        highest_bid: 200,
        end_time: height + 2,
        start_time: height,
        highest_bidder: addr(""),
        erc20_amount_after_time: 0,
        auction_type: AuctionType::English,
        sell_token_type: TokenType::ERC721,
    };

    let msg = ExecuteMsg::Register { list_for_seller: list };
    let res = execute(&mut store, &addr("seller"), height, msg);
    assert_eq!(res, Ok(None));

    let msg = QueryMsg::OrderList { token_id: 2, contract_address: addr("contract_erc721") };
    let result = query(&store, &msg).unwrap();
    let a = OrderListForSeller {
        owner: addr("seller"),
        contract_address: addr("contract_erc721"),
        erc721_token_id: 2,
        highest_bid: 200,
        end_time: height + 2,
        start_time: height,
        highest_bidder: addr(""),
        erc20_amount_after_time: 0,
        auction_type: AuctionType::English,
        sell_token_type: TokenType::ERC721,
    };
    assert_eq!(result, a);

    let msg = ExecuteMsg::EnglishAuction {
        list_for_buyer: OrderListForBuyer {
            owner: addr("buyer"),
            contract_address: addr("contract_erc20"),
            amount_of_erc20: 250,
            erc721_token_id_want: 2,
            erc721_contract_address: addr("contract_erc721"),
            buy_token_type: TokenType::ERC721,
        },
    };
    let res = execute(&mut store, &addr("buyer"), height, msg);
    assert_eq!(res, Ok(None));

    let msg = QueryMsg::OrderList { token_id: 2, contract_address: addr("contract_erc721") };
    let result = query(&store, &msg).unwrap();
    let a = OrderListForSeller {
        owner: addr("seller"),
        contract_address: addr("contract_erc721"),
        erc721_token_id: 2,
        highest_bid: 250,
        end_time: height + 2,
        start_time: height,
        highest_bidder: addr("buyer"),
        erc20_amount_after_time: 0,
        auction_type: AuctionType::English,
        sell_token_type: TokenType::ERC721,
    };
    assert_eq!(result, a);
}

#[test]
fn english_bid_exchange() {
    let mut store = instantiate();
    let height: u64 = 12_345;

    let list = OrderListForSeller {
        owner: addr("seller"),
        contract_address: addr("contract_erc721"),
        erc721_token_id: 2,
        highest_bid: 200,
        end_time: height + 2,
        start_time: height,
        highest_bidder: addr(""),
        erc20_amount_after_time: 0,
        auction_type: AuctionType::English,
        sell_token_type: TokenType::ERC721,
    };
    let msg = ExecuteMsg::Register { list_for_seller: list.clone() };
    let _res = execute(&mut store, &addr("seller"), height, msg);

    let msg = ExecuteMsg::EnglishAuction {
        list_for_buyer: OrderListForBuyer {
            owner: addr("buyer"),
            contract_address: addr("contract_erc20"),
            amount_of_erc20: 250,
            erc721_token_id_want: 2,
            erc721_contract_address: addr("contract_erc721"),
            buy_token_type: TokenType::ERC721,
        },
    };
    let _res = execute(&mut store, &addr("buyer"), height, msg);

    let list_for_buyer = OrderListForBuyer {
        owner: addr("buyer"),
        contract_address: addr("contract_erc20"),
        amount_of_erc20: 250,
        erc721_token_id_want: 2,
        erc721_contract_address: addr("contract_erc721"),
        buy_token_type: TokenType::ERC721,
    };
    let msg = ExecuteMsg::ExchangeEnglishBid { list_for_buyer: list_for_buyer.clone() };
    let future_height: u64 = height + 3;

    let res_exchange_bid_english =
        execute(&mut store, &addr("buyer"), future_height, msg).unwrap().unwrap();

    assert_eq!(res_exchange_bid_english.erc20_token_sender, addr("buyer"));
    assert_eq!(res_exchange_bid_english.erc20_token_reciever, addr("seller"));
    assert_eq!(res_exchange_bid_english.erc721_token_sender, addr("seller"));
    assert_eq!(res_exchange_bid_english.erc721_token_reciever, addr("buyer"));
    assert_eq!(res_exchange_bid_english.erc20_contract_address, addr("contract_erc20"));
    assert_eq!(res_exchange_bid_english.erc721_contract_address, addr("contract_erc721"));
    assert_eq!(res_exchange_bid_english.token_id, 2);
    assert_eq!(res_exchange_bid_english.erc20_amount, 250);

    let exec = transfer_msgs(&res_exchange_bid_english);
    assert_eq!(
        exec,
        vec![
            TransferMsg::PaymentTransfer {
                contract: addr("contract_erc20"),
                from: addr("buyer"),
                to: addr("seller"),
                amount: 250,
            },
            TransferMsg::UniqueAssetTransfer {
                contract: addr("contract_erc721"),
                sender: addr("seller"),
                recipient: addr("buyer"),
                token_id: 2,
            },
        ]
    );
}

#[test]
fn dutch_auction_exchange() {
    let mut store = instantiate();
    let height: u64 = 12_345;

    let list = OrderListForSeller {
        owner: addr("seller"),
        contract_address: addr("contract_erc721"),
        erc721_token_id: 2,
        highest_bid: 200,
        end_time: height + 2,
        start_time: height,
        highest_bidder: addr(""),
        erc20_amount_after_time: 60,
        auction_type: AuctionType::Dutch,
        sell_token_type: TokenType::ERC721,
    };
    let msg = ExecuteMsg::Register { list_for_seller: list.clone() };
    let res = execute(&mut store, &addr("seller"), height, msg);
    assert_eq!(res, Ok(None));

    let msg = QueryMsg::OrderList { token_id: 2, contract_address: addr("contract_erc721") };
    let result = query(&store, &msg).unwrap();
    assert_eq!(result, list);

    let list_for_buyer = OrderListForBuyer {
        owner: addr("buyer"),
        contract_address: addr("contract_erc20"),
        amount_of_erc20: 200,
        erc721_token_id_want: 2,
        erc721_contract_address: addr("contract_erc721"),
        buy_token_type: TokenType::ERC721,
    };
    let msg = ExecuteMsg::DutchExchange { list_for_buyer: list_for_buyer.clone() };
    let res = execute(&mut store, &addr("buyer"), height, msg).unwrap().unwrap();

    assert_eq!(res.erc20_token_sender, addr("buyer"));
    assert_eq!(res.erc20_token_reciever, addr("seller"));
    assert_eq!(res.erc20_amount, 200);
    assert_eq!(res.token_id, 2);

    let exec = transfer_msgs(&res);
    assert_eq!(
        exec,
        vec![
            TransferMsg::PaymentTransfer {
                contract: addr("contract_erc20"),
                from: addr("buyer"),
                to: addr("seller"),
                amount: 200,
            },
            TransferMsg::UniqueAssetTransfer {
                contract: addr("contract_erc721"),
                sender: addr("seller"),
                recipient: addr("buyer"),
                token_id: 2,
            },
        ]
    );
}

#[test]
fn clean() {
    let mut store = instantiate();
    let height: u64 = 12_345;

    let list = OrderListForSeller {
        owner: addr("seller"),
        contract_address: addr("contract_erc721"),
        erc721_token_id: 2,
        highest_bid: 200,
        end_time: height - 1,
        start_time: height - 2,
        highest_bidder: addr(""),
        erc20_amount_after_time: 60,
        auction_type: AuctionType::Dutch,
        sell_token_type: TokenType::ERC721,
    };
    let msg = ExecuteMsg::Register { list_for_seller: list.clone() };
    let res = execute(&mut store, &addr("seller"), height, msg);
    assert_eq!(res, Ok(None));

    let msg = QueryMsg::OrderList { token_id: 2, contract_address: addr("contract_erc721") };
    let result = query(&store, &msg).unwrap();
    assert_eq!(result, list);

    let msg = ExecuteMsg::Clean { list_for_seller: list };
    let res = execute(&mut store, &addr("owner"), height, msg);
    assert_eq!(res, Ok(None));

    let msg = QueryMsg::OrderList { token_id: 2, contract_address: addr("contract_erc721") };
    let result = query(&store, &msg).unwrap_err();
    assert_eq!(result, ExchangeError::NotFound);
}
