//! The off-ledger signed-order exchange: two parties sign their order
//! messages off the ledger, and the exchange settles the pair in one step
//! once both signatures check out and the orders agree.
//!
//! Signature verification is an external collaborator: keys and
//! signatures are carried as plain bytes, and the verifier answers a
//! boolean verdict, named `ecdsa_verifies` since it depends on those
//! bytes alone. The verified matching logic, `match_orders`, takes the
//! verdicts as arguments, so it is proved for every possible outcome of
//! the cryptography, and `execute`'s result is pinned exactly, settling
//! precisely when both named verdicts hold and the orders fit.

use crate::msg::{Addr, ExchangeTokenStruct};
use k256::ecdsa::signature::Verifier;
use vstd::prelude::*;

verus! {

/// Why a signed-order exchange was rejected.
#[derive(Clone, Copy, Debug, PartialEq, Eq, Structural)]
pub enum SignedExchangeError {
    /// At least one of the two order signatures did not verify.
    InvalidSignature,
    /// The two orders do not fit each other.
    RequirementsMismatch,
}

/// A seller's signed order: the unique asset offered and the payment
/// wanted, with the key that signed the order message.
#[derive(Debug)]
pub struct OrderListForERC721 {
    /// The SEC1-encoded secp256k1 key the seller signed the order
    /// message with.
    pub pubkey_seller: Vec<u8>,
    /// The signed order message.
    pub message: String,
    /// The seller.
    pub owner: Addr,
    /// The collection contract holding the unique asset offered.
    pub contract_address: Addr,
    /// The identifier of the unique asset offered.
    pub erc721_token_id: u32,
    /// The payment amount the seller wants.
    pub amount_of_erc20_want: u32,
}

/// A buyer's signed order: the unique asset wanted and the payment
/// offered, with the key that signed the order message.
#[derive(Debug)]
pub struct OrderListForERC20 {
    /// The SEC1-encoded secp256k1 key the buyer signed the order message
    /// with.
    pub pubkey_buyer: Vec<u8>,
    /// The signed order message.
    pub message: String,
    /// The buyer.
    pub owner: Addr,
    /// The payment-asset contract the buyer pays from.
    pub contract_address: Addr,
    /// The payment amount offered.
    pub erc20_token_amount: u32,
    /// The identifier of the unique asset wanted.
    pub erc721_token_id_want: u32,
}

/// The one action the signed-order exchange accepts: settle a signed
/// seller order against a signed buyer order. The signatures are in the
/// fixed-size secp256k1 encoding.
#[derive(Debug)]
pub enum ExecuteMsg {
    Exchange {
        signature_seller: Vec<u8>,
        listforseller: OrderListForERC721,
        signature_buyer: Vec<u8>,
        listforbuyer: OrderListForERC20,
    },
}

/// Whether `sig` is a valid ECDSA secp256k1 signature over `msg` by the
/// SEC1-encoded key `key`: the verdict of k256's verifier. Verification is
/// deterministic — the verdict is a function of the three sequences alone,
/// the same in every process and on every machine — so it can be named
/// here, though no short formula states it.
pub uninterp spec fn ecdsa_verifies(key: Seq<u8>, msg: Seq<char>, sig: Seq<u8>) -> bool;

/// Relies on k256's ECDSA machinery: `VerifyingKey::from_sec1_bytes` and
/// `Signature::from_slice` decode the key and signature bytes, and
/// `Verifier::verify` checks the signature over the message's bytes.
/// Answers false when any decoding fails or the signature does not
/// verify — exactly the verdict `ecdsa_verifies` names.
#[verifier::external_body]
fn verify_signature(key: &[u8], msg: &str, sig: &[u8]) -> (r: bool)
    ensures
        r == ecdsa_verifies(key@, msg@, sig@),
{
    let key = k256::ecdsa::VerifyingKey::from_sec1_bytes(key);
    let sig = k256::ecdsa::Signature::from_slice(sig);
    match (key, sig) {
        (Ok(key), Ok(sig)) => key.verify(msg.as_bytes(), &sig).is_ok(),
        _ => false,
    }
}

/// The orders are rejected as mismatched when the seller offers a
/// different asset than the buyer wants while the buyer offers exactly
/// the payment the seller asked for.
pub open spec fn orders_mismatch(s: OrderListForERC721, b: OrderListForERC20) -> bool {
    s.erc721_token_id != b.erc721_token_id_want && b.erc20_token_amount == s.amount_of_erc20_want
}

/// The settlement record of a signed-order exchange: the buyer pays the
/// offered amount to the seller, and the wanted unique asset moves from
/// the seller to the buyer.
pub open spec fn signed_settlement_of(
    s: OrderListForERC721,
    b: OrderListForERC20,
) -> ExchangeTokenStruct {
    ExchangeTokenStruct {
        erc20_token_sender: b.owner,
        erc20_token_reciever: s.owner,
        erc721_token_sender: s.owner,
        erc721_token_reciever: b.owner,
        erc20_contract_address: b.contract_address,
        erc721_contract_address: s.contract_address,
        token_id: b.erc721_token_id_want as u64,
        erc20_amount: b.erc20_token_amount as u64,
    }
}

/// What matching decides, given the two signature verdicts: any failed
/// signature is InvalidSignature, mismatched orders are
/// RequirementsMismatch, and otherwise the settlement record is produced.
pub open spec fn match_orders_model(
    s: OrderListForERC721,
    b: OrderListForERC20,
    seller_sig_ok: bool,
    buyer_sig_ok: bool,
) -> Result<ExchangeTokenStruct, SignedExchangeError> {
    if !seller_sig_ok || !buyer_sig_ok {
        Err(SignedExchangeError::InvalidSignature)
    } else if orders_mismatch(s, b) {
        Err(SignedExchangeError::RequirementsMismatch)
    } else {
        Ok(signed_settlement_of(s, b))
    }
}

/// Decides a signed-order exchange from the two signature verdicts:
/// verified for every possible pair of verdicts.
pub fn match_orders(
    listforseller: &OrderListForERC721,
    listforbuyer: &OrderListForERC20,
    seller_sig_ok: bool,
    buyer_sig_ok: bool,
) -> (r: Result<ExchangeTokenStruct, SignedExchangeError>)
    ensures
        r == match_orders_model(*listforseller, *listforbuyer, seller_sig_ok, buyer_sig_ok),
{
    if !seller_sig_ok || !buyer_sig_ok {
        return Err(SignedExchangeError::InvalidSignature);
    }
    if listforseller.erc721_token_id != listforbuyer.erc721_token_id_want
        && listforbuyer.erc20_token_amount == listforseller.amount_of_erc20_want {
        return Err(SignedExchangeError::RequirementsMismatch);
    }
    Ok(
        ExchangeTokenStruct {
            erc20_token_sender: listforbuyer.owner.clone(),
            erc20_token_reciever: listforseller.owner.clone(),
            erc721_token_sender: listforseller.owner.clone(),
            erc721_token_reciever: listforbuyer.owner.clone(),
            erc20_contract_address: listforbuyer.contract_address.clone(),
            erc721_contract_address: listforseller.contract_address.clone(),
            token_id: listforbuyer.erc721_token_id_want as u64,
            erc20_amount: listforbuyer.erc20_token_amount as u64,
        },
    )
}

/// Settles one signed-order exchange: verifies both order signatures and
/// matches the orders. The result is pinned exactly: it is what matching
/// decides under the two named signature verdicts of the orders carried
/// by the request.
pub fn execute(msg: &ExecuteMsg) -> (r: Result<ExchangeTokenStruct, SignedExchangeError>)
    ensures
        *msg matches ExecuteMsg::Exchange {
            signature_seller,
            listforseller,
            signature_buyer,
            listforbuyer,
        } ==> r == match_orders_model(
            listforseller,
            listforbuyer,
            ecdsa_verifies(listforseller.pubkey_seller@, listforseller.message@, signature_seller@),
            ecdsa_verifies(listforbuyer.pubkey_buyer@, listforbuyer.message@, signature_buyer@),
        ),
{
    match msg {
        ExecuteMsg::Exchange { signature_seller, listforseller, signature_buyer, listforbuyer } => {
            let rtn = verify_signature(
                listforseller.pubkey_seller.as_slice(),
                listforseller.message.as_str(),
                signature_seller.as_slice(),
            );
            let rtn_buyer = verify_signature(
                listforbuyer.pubkey_buyer.as_slice(),
                listforbuyer.message.as_str(),
                signature_buyer.as_slice(),
            );
            match_orders(listforseller, listforbuyer, rtn, rtn_buyer)
        },
    }
}

} // verus!
