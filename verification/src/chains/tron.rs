//! Tron: addresses and the simplified signer.

use crate::chains::ethereum::{address_text, parse_u256, prefixed_hex, u256_parse};
use crate::codec::{base58, base58_text, concat_bytes, copy_range};
use crate::digest::{ethers_keccak256, ethers_keccak256_digest, keccak256, keccak256_digest};
use crate::keys::{
    derivation_path, derive_secret, derived_secret, passphrase_text, path_text,
    public_key_uncompressed, secp256k1_public_key_uncompressed, secp256k1_sign, sign_digest, wipe,
};
use crate::chains::bitcoin::optional_text;
use crate::text::{join2, join7, text_result, utf8_bytes};
use vstd::prelude::*;
use vstd::string::*;

verus! {

/// A derived Tron address with the path that leads to it.
#[derive(Debug)]
pub struct TronAddress {
    pub address: String,
    pub derivation_path: String,
}

/// A transfer request: recipient, value in SUN, and optional gas price and
/// gas limit, all numbers as decimal strings.
#[derive(Debug, Clone)]
pub struct TronTransaction {
    pub to: String,
    pub value: String,
    pub gas_price: Option<String>,
    pub gas_limit: Option<String>,
}

/// Mathematical content of a [`TronTransaction`].
pub struct TronTransactionModel {
    pub to: Seq<char>,
    pub value: Seq<char>,
    pub gas_price: Option<Seq<char>>,
    pub gas_limit: Option<Seq<char>>,
}

impl View for TronTransaction {
    type V = TronTransactionModel;

    open spec fn view(&self) -> TronTransactionModel {
        TronTransactionModel {
            to: self.to@,
            value: self.value@,
            gas_price: match self.gas_price {
                Some(t) => Some(t@),
                None => None,
            },
            gas_limit: match self.gas_limit {
                Some(t) => Some(t@),
                None => None,
            },
        }
    }
}

/// A signed transfer: hash and signature in one hexadecimal string, and the
/// hash alone.
#[derive(Debug)]
pub struct SignedTronTransaction {
    pub raw_transaction: String,
    pub transaction_hash: String,
}

/// Path prefix of Tron keys.
pub open spec fn tron_path_prefix() -> Seq<char> {
    "m/44'/195'/0'/0"@
}

/// The address for the 64 bytes of an uncompressed public key without its
/// leading byte: `T` and the Base58 text of the last 20 bytes of the
/// Keccak-256 hash. No checksum is added.
pub open spec fn tron_address_text(pubkey: Seq<u8>) -> Seq<char> {
    "T"@ + base58(keccak256_digest(pubkey).subrange(12, 32))
}

/// What [`derive_tron_address`] returns, as (address, path).
pub open spec fn tron_address_outcome(mnemonic: Seq<char>, passphrase: Seq<char>, index: u32)
    -> Result<(Seq<char>, Seq<char>), Seq<char>> {
    let path = path_text(tron_path_prefix(), index);
    match derived_secret(mnemonic, passphrase, path) {
        Err(e) => Err(e),
        Ok(secret) => match secp256k1_public_key_uncompressed(secret) {
            None => Err("Failed to create secret key: malformed or out-of-range secret key"@),
            Some(key) => Ok((tron_address_text(key.subrange(1, 65)), path)),
        },
    }
}

/// A number given as optional decimal text, in canonical decimal: the
/// default where none is given.
pub open spec fn number_or(text: Option<Seq<char>>, default: Seq<char>) -> Result<
    Seq<char>,
    Seq<char>,
> {
    match text {
        None => Ok(default),
        Some(t) => match u256_parse(t) {
            Ok(v) => Ok(v.1),
            Err(e) => Err(e),
        },
    }
}

/// The message that is hashed and signed: recipient, value, gas price and gas
/// limit, with colons between.
pub open spec fn tron_message(
    to: Seq<char>,
    value: Seq<char>,
    gas_price: Seq<char>,
    gas_limit: Seq<char>,
) -> Seq<char> {
    to + ":"@ + value + ":"@ + gas_price + ":"@ + gas_limit
}

/// What signing yields once the key is known, as (raw transaction, hash).
/// The gas price defaults to 420 and the gas limit to 21000.
pub open spec fn tron_signed_with_secret(secret: Seq<u8>, tx: TronTransactionModel) -> Result<
    (Seq<char>, Seq<char>),
    Seq<char>,
> {
    match u256_parse(tx.value) {
        Err(e) => Err("Invalid value: "@ + e),
        Ok(value) => match number_or(tx.gas_price, "420"@) {
            Err(e) => Err("Invalid gas price: "@ + e),
            Ok(gas_price) => match number_or(tx.gas_limit, "21000"@) {
                Err(e) => Err("Invalid gas limit: "@ + e),
                Ok(gas_limit) => {
                    let hash = ethers_keccak256_digest(
                        utf8_bytes(tron_message(tx.to, value.1, gas_price, gas_limit)),
                    );
                    match secp256k1_sign(secret, hash) {
                        None => Err(
                            "Failed to create secret key: malformed or out-of-range secret key"@,
                        ),
                        Some(signature) => Ok(
                            (address_text(hash + signature), address_text(hash)),
                        ),
                    }
                },
            },
        },
    }
}

/// What [`sign_tron_transaction`] returns, as (raw transaction, hash).
pub open spec fn tron_signing_outcome(
    mnemonic: Seq<char>,
    passphrase: Seq<char>,
    index: u32,
    tx: TronTransactionModel,
) -> Result<(Seq<char>, Seq<char>), Seq<char>> {
    match derived_secret(mnemonic, passphrase, path_text(tron_path_prefix(), index)) {
        Err(e) => Err(e),
        Ok(secret) => tron_signed_with_secret(secret, tx),
    }
}

/// The (address, path) pair behind a derivation result.
pub open spec fn tron_address_view(r: Result<TronAddress, String>) -> Result<
    (Seq<char>, Seq<char>),
    Seq<char>,
> {
    match r {
        Ok(a) => Ok((a.address@, a.derivation_path@)),
        Err(e) => Err(e@),
    }
}

/// The (raw transaction, hash) pair behind a signing result.
pub open spec fn signed_tron_view(r: Result<SignedTronTransaction, String>) -> Result<
    (Seq<char>, Seq<char>),
    Seq<char>,
> {
    match r {
        Ok(s) => Ok((s.raw_transaction@, s.transaction_hash@)),
        Err(e) => Err(e@),
    }
}

/// The Tron address for the bytes of a public key.
pub fn derive_tron_address_from_pubkey(pubkey: &[u8]) -> (out: String)
    ensures
        out@ == tron_address_text(pubkey@),
{
    let hash = keccak256(pubkey);
    let tail = copy_range(hash.as_slice(), 12, 32);
    let encoded = base58_text(tail.as_slice());
    join2("T", encoded.as_str())
}

/// Derives the Tron address at `m/44'/195'/0'/0/{index}` from the
/// uncompressed public key without its leading byte.
pub fn derive_tron_address(mnemonic: &str, passphrase: Option<&str>, index: u32) -> (r: Result<
    TronAddress,
    String,
>)
    ensures
        tron_address_view(r) == tron_address_outcome(
            mnemonic@,
            passphrase_text(passphrase),
            index,
        ),
{
    let path = derivation_path("m/44'/195'/0'/0", index);
    let mut secret = match derive_secret(mnemonic, passphrase, path.as_str()) {
        Ok(k) => k,
        Err(e) => { return Err(e); },
    };
    let public = public_key_uncompressed(&secret);
    wipe(&mut secret);
    match public {
        None => Err(
            String::from_str("Failed to create secret key: malformed or out-of-range secret key"),
        ),
        Some(key) => {
            let body = copy_range(key.as_slice(), 1, 65);
            Ok(
                TronAddress {
                    address: derive_tron_address_from_pubkey(body.as_slice()),
                    derivation_path: path,
                },
            )
        },
    }
}

fn parse_number_or(text: &Option<String>, default: &str) -> (r: Result<String, String>)
    ensures
        text_result(r) == number_or(optional_text(*text), default@),
{
    match text {
        None => Ok(String::from_str(default)),
        Some(t) => match parse_u256(t.as_str()) {
            Ok(v) => Ok(v.1),
            Err(e) => Err(e),
        },
    }
}

/// Signs a transfer with an already derived private key: parses the
/// numbers, hashes the message `to:value:gas_price:gas_limit` with Keccak-256
/// and signs the hash.
pub fn sign_with_secret(secret: &[u8; 32], tx: &TronTransaction) -> (r: Result<
    SignedTronTransaction,
    String,
>)
    ensures
        signed_tron_view(r) == tron_signed_with_secret(secret@, tx@),
        r is Ok ==> r->Ok_0.transaction_hash@.len() == 66 && r->Ok_0.raw_transaction@.len() == 194,
{
    let value = match parse_u256(tx.value.as_str()) {
        Ok(v) => v.1,
        Err(e) => { return Err(join2("Invalid value: ", e.as_str())); },
    };
    let gas_price = match parse_number_or(&tx.gas_price, "420") {
        Ok(v) => v,
        Err(e) => { return Err(join2("Invalid gas price: ", e.as_str())); },
    };
    let gas_limit = match parse_number_or(&tx.gas_limit, "21000") {
        Ok(v) => v,
        Err(e) => { return Err(join2("Invalid gas limit: ", e.as_str())); },
    };
    let message = join7(
        tx.to.as_str(),
        ":",
        value.as_str(),
        ":",
        gas_price.as_str(),
        ":",
        gas_limit.as_str(),
    );
    let hash = ethers_keccak256(message.as_str().as_bytes());
    let signature = match sign_digest(secret, &hash) {
        Some(s) => s,
        None => {
            return Err(
                String::from_str(
                    "Failed to create secret key: malformed or out-of-range secret key",
                ),
            );
        },
    };
    let raw = concat_bytes(hash.as_slice(), signature.as_slice());
    Ok(
        SignedTronTransaction {
            raw_transaction: prefixed_hex(raw.as_slice()),
            transaction_hash: prefixed_hex(hash.as_slice()),
        },
    )
}

/// Signs a transfer with the key at `m/44'/195'/0'/0/{index}`. The value is
/// in SUN and is taken as given. The hash comes as `0x` and 64 hexadecimal
/// digits, the raw transaction as `0x` and the 192 digits of hash and
/// signature.
pub fn sign_tron_transaction(
    mnemonic: &str,
    passphrase: Option<&str>,
    index: u32,
    tx: TronTransaction,
) -> (r: Result<SignedTronTransaction, String>)
    ensures
        signed_tron_view(r) == tron_signing_outcome(
            mnemonic@,
            passphrase_text(passphrase),
            index,
            tx@,
        ),
        r is Ok ==> r->Ok_0.transaction_hash@.len() == 66 && r->Ok_0.raw_transaction@.len() == 194,
{
    let path = derivation_path("m/44'/195'/0'/0", index);
    let mut secret = match derive_secret(mnemonic, passphrase, path.as_str()) {
        Ok(k) => k,
        Err(e) => { return Err(e); },
    };
    let signed = sign_with_secret(&secret, &tx);
    wipe(&mut secret);
    signed
}

} // verus!
