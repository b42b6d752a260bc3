//! BNB Chain: the same keys, addresses and transactions as Ethereum.

use crate::chains::address_validation::is_eth_address;
use crate::chains::ethereum::{
    derive_eth_address, eth_address_outcome, eth_signing_outcome, sign_eth_transaction,
    EthTransaction, EthTransactionModel,
};
use crate::keys::passphrase_text;
use vstd::prelude::*;

verus! {

/// A derived BNB Chain address with the path that leads to it.
#[derive(Debug)]
pub struct BnbAddress {
    pub address: String,
    pub derivation_path: String,
}

/// The fields of a BNB Chain transaction, numbers as decimal strings.
#[derive(Debug, Clone)]
pub struct BnbTransaction {
    pub to: String,
    pub value: String,
    pub gas_price: String,
    pub gas_limit: String,
    pub nonce: String,
    pub data: Option<String>,
}

/// A signed BNB Chain transaction: the raw encoding and its hash.
#[derive(Debug)]
pub struct SignedBnbTransaction {
    pub raw_transaction: String,
    pub transaction_hash: String,
}

impl View for BnbTransaction {
    type V = EthTransactionModel;

    open spec fn view(&self) -> EthTransactionModel {
        EthTransactionModel {
            to: self.to@,
            value: self.value@,
            gas_price: self.gas_price@,
            gas_limit: self.gas_limit@,
            nonce: self.nonce@,
            data: match self.data {
                Some(t) => Some(t@),
                None => None,
            },
        }
    }
}

/// The (address, path) pair behind a derivation result.
pub open spec fn bnb_address_view(r: Result<BnbAddress, String>) -> Result<
    (Seq<char>, Seq<char>),
    Seq<char>,
> {
    match r {
        Ok(a) => Ok((a.address@, a.derivation_path@)),
        Err(e) => Err(e@),
    }
}

/// The (raw transaction, hash) pair behind a signing result.
pub open spec fn signed_bnb_view(r: Result<SignedBnbTransaction, String>) -> Result<
    (Seq<char>, Seq<char>),
    Seq<char>,
> {
    match r {
        Ok(s) => Ok((s.raw_transaction@, s.transaction_hash@)),
        Err(e) => Err(e@),
    }
}

/// Derives the BNB Chain address at `m/44'/60'/0'/0/{index}`, which is the
/// Ethereum address of the same key.
pub fn derive_bnb_address(mnemonic: &str, passphrase: Option<&str>, index: u32) -> (r: Result<
    BnbAddress,
    String,
>)
    ensures
        bnb_address_view(r) == eth_address_outcome(mnemonic@, passphrase_text(passphrase), index),
        r is Ok ==> is_eth_address(r->Ok_0.address@),
{
    match derive_eth_address(mnemonic, passphrase, index) {
        Ok(a) => Ok(BnbAddress { address: a.address, derivation_path: a.derivation_path }),
        Err(e) => Err(e),
    }
}

/// Signs a BNB Chain transaction exactly as the Ethereum transaction with the
/// same fields is signed.
pub fn sign_bnb_transaction(
    mnemonic: &str,
    passphrase: Option<&str>,
    index: u32,
    tx: BnbTransaction,
) -> (r: Result<SignedBnbTransaction, String>)
    ensures
        signed_bnb_view(r) == eth_signing_outcome(
            mnemonic@,
            passphrase_text(passphrase),
            index,
            tx@,
        ),
        r is Ok ==> r->Ok_0.transaction_hash@.len() == 66 && r->Ok_0.raw_transaction@.len() >= 2
            && r->Ok_0.raw_transaction@.len() % 2 == 0,
{
    let eth = EthTransaction {
        to: tx.to,
        value: tx.value,
        gas_price: tx.gas_price,
        gas_limit: tx.gas_limit,
        nonce: tx.nonce,
        data: tx.data,
    };
    match sign_eth_transaction(mnemonic, passphrase, index, eth) {
        Ok(s) => Ok(
            SignedBnbTransaction {
                raw_transaction: s.raw_transaction,
                transaction_hash: s.transaction_hash,
            },
        ),
        Err(e) => Err(e),
    }
}

} // verus!
