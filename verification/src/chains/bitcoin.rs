//! Bitcoin addresses and the simplified Bitcoin signer.

use crate::amount::{parse_units, units_outcome};
use crate::codec::{hex_lower, hex_text};
use crate::digest::{bitcoin_sha256, bitcoin_sha256_digest};
use crate::keys::{
    derivation_path, derive_secret, derived_secret, passphrase_text, path_text, wipe,
};
use crate::text::{decimal_digits, decimal_text, join2, join5, same_text, text_result, utf8_bytes};
use bitcoin::address::NetworkUnchecked;
use bitcoin::{Address, CompressedPublicKey, Network, PrivateKey, PublicKey};
use secp256k1::{SecretKey, SECP256K1};
use vstd::prelude::*;
use vstd::string::*;

verus! {

/// A derived Bitcoin address with its path and kind.
#[derive(Debug)]
pub struct BtcAddress {
    pub address: String,
    pub derivation_path: String,
    pub address_type: String,
}

/// A payment request: recipient, amount in BTC as a decimal string, and an
/// optional fee rate.
#[derive(Debug, Clone)]
pub struct BtcTransaction {
    pub to: String,
    pub amount: String,
    pub fee_rate: Option<String>,
}

/// Mathematical content of a [`BtcTransaction`].
pub struct BtcTransactionModel {
    pub to: Seq<char>,
    pub amount: Seq<char>,
    pub fee_rate: Option<Seq<char>>,
}

impl View for BtcTransaction {
    type V = BtcTransactionModel;

    open spec fn view(&self) -> BtcTransactionModel {
        BtcTransactionModel {
            to: self.to@,
            amount: self.amount@,
            fee_rate: match self.fee_rate {
                Some(t) => Some(t@),
                None => None,
            },
        }
    }
}

/// The outcome of signing: a stand-in for the transaction and its
/// identifier.
#[derive(Debug)]
pub struct SignedBtcTransaction {
    pub raw_transaction: String,
    pub transaction_hash: String,
}

/// The three kinds of address that a key can have.
#[derive(Debug, Clone, Copy, PartialEq, Eq, Structural)]
pub enum AddressType {
    /// Pay to public key hash, `1...`.
    Legacy,
    /// Pay to witness public key hash inside a script hash, `3...`.
    Segwit,
    /// Pay to witness public key hash, `bc1...`.
    NativeSegwit,
}

/// What the `bitcoin` crate's address parser returns for the given text:
/// `Ok` with the address as the crate prints it, or `Err` with the parse
/// error's message.
pub uninterp spec fn btc_address_parse(s: Seq<char>) -> Result<Seq<char>, Seq<char>>;

/// The mainnet P2PKH address of the key pair of a private key, as text;
/// `None` where the 32 bytes are not a valid private key.
pub uninterp spec fn btc_p2pkh(secret: Seq<u8>) -> Option<Seq<char>>;

/// The mainnet P2SH-P2WPKH address of the key pair of a private key, as
/// text; `None` where the 32 bytes are not a valid private key.
pub uninterp spec fn btc_p2shwpkh(secret: Seq<u8>) -> Option<Seq<char>>;

/// The mainnet P2WPKH address of the key pair of a private key, as text;
/// `None` where the 32 bytes are not a valid private key.
pub uninterp spec fn btc_p2wpkh(secret: Seq<u8>) -> Option<Seq<char>>;

/// The view behind an optional string.
pub open spec fn optional_text(r: Option<String>) -> Option<Seq<char>> {
    match r {
        Some(a) => Some(a@),
        None => None,
    }
}

/// Parses `s` as a Bitcoin address of any network.
///
/// Trusted: wraps the `FromStr` impl of `bitcoin::Address`, reached through
/// `str::parse`. On success the address is
/// printed back without a network check; on failure the error is rendered with
/// `Display`. The contract only names the result.
#[verifier::external_body]
pub(crate) fn parse_address(s: &str) -> (r: Result<String, String>)
    ensures
        text_result(r) == btc_address_parse(s@),
{
    match s.parse::<Address<NetworkUnchecked>>() {
        Ok(a) => Ok(a.assume_checked().to_string()),
        Err(e) => Err(e.to_string()),
    }
}

/// The legacy address of `secret`.
///
/// Trusted: wraps `secp256k1::SecretKey::from_slice`,
/// `bitcoin::PrivateKey::new`, `PublicKey::from_private_key` and
/// `Address::p2pkh` for the main network, printed with `Display`. `None`
/// stands for an invalid key. The contract only names the result.
#[verifier::external_body]
fn p2pkh_address(secret: &[u8; 32]) -> (r: Option<String>)
    ensures
        optional_text(r) == btc_p2pkh(secret@),
{
    let sk = SecretKey::from_slice(secret).ok()?;
    let pk = PublicKey::from_private_key(SECP256K1, &PrivateKey::new(sk, Network::Bitcoin));
    Some(Address::p2pkh(&pk, Network::Bitcoin).to_string())
}

/// The segwit-in-script-hash address of `secret`.
///
/// Trusted: wraps `secp256k1::SecretKey::from_slice`,
/// `bitcoin::PrivateKey::new`, `PublicKey::from_private_key` and
/// `Address::p2shwpkh` for the main network, printed with `Display`. `None`
/// stands for an invalid key. The contract only names the result.
#[verifier::external_body]
fn p2shwpkh_address(secret: &[u8; 32]) -> (r: Option<String>)
    ensures
        optional_text(r) == btc_p2shwpkh(secret@),
{
    let sk = SecretKey::from_slice(secret).ok()?;
    let pk = PublicKey::from_private_key(SECP256K1, &PrivateKey::new(sk, Network::Bitcoin));
    Some(Address::p2shwpkh(&CompressedPublicKey(pk.inner), Network::Bitcoin).to_string())
}

/// The native segwit address of `secret`.
///
/// Trusted: wraps `secp256k1::SecretKey::from_slice`,
/// `bitcoin::PrivateKey::new`, `PublicKey::from_private_key` and
/// `Address::p2wpkh` for the main network, printed with `Display`. `None`
/// stands for an invalid key. The contract only names the result.
#[verifier::external_body]
fn p2wpkh_address(secret: &[u8; 32]) -> (r: Option<String>)
    ensures
        optional_text(r) == btc_p2wpkh(secret@),
{
    let sk = SecretKey::from_slice(secret).ok()?;
    let pk = PublicKey::from_private_key(SECP256K1, &PrivateKey::new(sk, Network::Bitcoin));
    Some(Address::p2wpkh(&CompressedPublicKey(pk.inner), Network::Bitcoin).to_string())
}

/// The kind that a name stands for: `legacy`, `segwit` or `native_segwit`.
pub open spec fn address_type_of(name: Seq<char>) -> Option<AddressType> {
    if name == "legacy"@ {
        Some(AddressType::Legacy)
    } else if name == "segwit"@ {
        Some(AddressType::Segwit)
    } else if name == "native_segwit"@ {
        Some(AddressType::NativeSegwit)
    } else {
        None
    }
}

/// The path prefix of a kind of address: purpose 44, 49 or 84.
pub open spec fn btc_path_prefix(kind: AddressType) -> Seq<char> {
    match kind {
        AddressType::Legacy => "m/44'/0'/0'/0"@,
        AddressType::Segwit => "m/49'/0'/0'/0"@,
        AddressType::NativeSegwit => "m/84'/0'/0'/0"@,
    }
}

/// The address of a kind for a private key.
pub open spec fn btc_address_of(kind: AddressType, secret: Seq<u8>) -> Option<Seq<char>> {
    match kind {
        AddressType::Legacy => btc_p2pkh(secret),
        AddressType::Segwit => btc_p2shwpkh(secret),
        AddressType::NativeSegwit => btc_p2wpkh(secret),
    }
}

/// What [`derive_btc_address`] returns, as (address, path).
pub open spec fn btc_address_outcome(
    mnemonic: Seq<char>,
    passphrase: Seq<char>,
    index: u32,
    address_type: Seq<char>,
) -> Result<(Seq<char>, Seq<char>), Seq<char>> {
    match address_type_of(address_type) {
        None => Err("Invalid address type"@),
        Some(kind) => {
            let path = path_text(btc_path_prefix(kind), index);
            match derived_secret(mnemonic, passphrase, path) {
                Err(e) => Err(e),
                Ok(secret) => match btc_address_of(kind, secret) {
                    None => Err(
                        "Failed to create secret key: malformed or out-of-range secret key"@,
                    ),
                    Some(a) => Ok((a, path)),
                },
            }
        },
    }
}

/// The text that the stand-in transaction is the hash of: recipient, amount
/// in satoshi and address index, with colons between.
pub open spec fn btc_payload(to: Seq<char>, sats: u64, index: u32) -> Seq<char> {
    to + ":"@ + decimal_digits(sats as nat) + ":"@ + decimal_digits(index as nat)
}

/// The stand-in transaction and its identifier for a payload hash: the
/// identifier is the hash in hexadecimal, the transaction the same behind a
/// fixed header.
pub open spec fn btc_stand_in(hash: Seq<u8>) -> (Seq<char>, Seq<char>) {
    ("cHNidP8AAAAA"@ + hex_lower(hash), hex_lower(hash))
}

/// What [`sign_btc_transaction`] returns, as (raw transaction, hash). The
/// recipient is checked first, then the amount, then the mnemonic and the key
/// at the native segwit path.
pub open spec fn btc_signing_outcome(
    mnemonic: Seq<char>,
    passphrase: Seq<char>,
    index: u32,
    tx: BtcTransactionModel,
) -> Result<(Seq<char>, Seq<char>), Seq<char>> {
    match btc_address_parse(tx.to) {
        Err(e) => Err("Invalid Bitcoin address: "@ + e),
        Ok(to) => match units_outcome(tx.amount, 8) {
            Err(e) => Err("Invalid amount: "@ + e),
            Ok(sats) => match derived_secret(
                mnemonic,
                passphrase,
                path_text("m/84'/0'/0'/0"@, index),
            ) {
                Err(e) => Err(e),
                Ok(_) => Ok(
                    btc_stand_in(bitcoin_sha256_digest(utf8_bytes(btc_payload(to, sats, index)))),
                ),
            },
        },
    }
}

/// The (address, path) pair behind a derivation result.
pub open spec fn btc_address_view(r: Result<BtcAddress, String>) -> Result<
    (Seq<char>, Seq<char>),
    Seq<char>,
> {
    match r {
        Ok(a) => Ok((a.address@, a.derivation_path@)),
        Err(e) => Err(e@),
    }
}

/// The (raw transaction, hash) pair behind a signing result.
pub open spec fn signed_btc_view(r: Result<SignedBtcTransaction, String>) -> Result<
    (Seq<char>, Seq<char>),
    Seq<char>,
> {
    match r {
        Ok(s) => Ok((s.raw_transaction@, s.transaction_hash@)),
        Err(e) => Err(e@),
    }
}

/// Reads the name of an address kind.
pub fn parse_address_type(name: &str) -> (r: Option<AddressType>)
    ensures
        r == address_type_of(name@),
{
    if same_text(name, "legacy") {
        Some(AddressType::Legacy)
    } else if same_text(name, "segwit") {
        Some(AddressType::Segwit)
    } else if same_text(name, "native_segwit") {
        Some(AddressType::NativeSegwit)
    } else {
        None
    }
}

/// The address of the given kind for a private key; `None` where the key is
/// not valid.
pub fn address_for_secret(kind: AddressType, secret: &[u8; 32]) -> (r: Option<String>)
    ensures
        optional_text(r) == btc_address_of(kind, secret@),
{
    match kind {
        AddressType::Legacy => p2pkh_address(secret),
        AddressType::Segwit => p2shwpkh_address(secret),
        AddressType::NativeSegwit => p2wpkh_address(secret),
    }
}

/// Derives the Bitcoin address of kind `address_type` (`legacy`, `segwit` or
/// `native_segwit`) at index `index` of the path for that kind.
pub fn derive_btc_address(
    mnemonic: &str,
    passphrase: Option<&str>,
    index: u32,
    address_type: &str,
) -> (r: Result<BtcAddress, String>)
    ensures
        btc_address_view(r) == btc_address_outcome(
            mnemonic@,
            passphrase_text(passphrase),
            index,
            address_type@,
        ),
        r is Ok ==> r->Ok_0.address_type@ == address_type@,
{
    let kind = match parse_address_type(address_type) {
        Some(k) => k,
        None => { return Err(String::from_str("Invalid address type")); },
    };
    let prefix: &str = match kind {
        AddressType::Legacy => "m/44'/0'/0'/0",
        AddressType::Segwit => "m/49'/0'/0'/0",
        AddressType::NativeSegwit => "m/84'/0'/0'/0",
    };
    let path = derivation_path(prefix, index);
    let mut secret = match derive_secret(mnemonic, passphrase, path.as_str()) {
        Ok(k) => k,
        Err(e) => { return Err(e); },
    };
    let address = address_for_secret(kind, &secret);
    wipe(&mut secret);
    match address {
        None => Err(
            String::from_str("Failed to create secret key: malformed or out-of-range secret key"),
        ),
        Some(address) => Ok(
            BtcAddress {
                address,
                derivation_path: path,
                address_type: String::from_str(address_type),
            },
        ),
    }
}

/// The stand-in transaction for a payment of `sats` satoshi to `to` from
/// address index `index`: no inputs are chosen and nothing is signed; the
/// result is built from the SHA-256 hash of `to:sats:index`. The identifier
/// is the 64 hexadecimal digits of the hash, the transaction those digits
/// behind a header of twelve characters.
pub fn stand_in_transaction(to: &str, sats: u64, index: u32) -> (out: SignedBtcTransaction)
    ensures
        (out.raw_transaction@, out.transaction_hash@) == btc_stand_in(
            bitcoin_sha256_digest(utf8_bytes(btc_payload(to@, sats, index))),
        ),
        out.transaction_hash@.len() == 64,
        out.raw_transaction@.len() == 76,
{
    proof {
        reveal_strlit("cHNidP8AAAAA");
    }
    let sats_text = decimal_text(sats);
    let index_text = decimal_text(index as u64);
    let payload = join5(to, ":", sats_text.as_str(), ":", index_text.as_str());
    let hash = bitcoin_sha256(payload.as_str().as_bytes());
    let digits = hex_text(hash.as_slice());
    SignedBtcTransaction {
        raw_transaction: join2("cHNidP8AAAAA", digits.as_str()),
        transaction_hash: digits,
    }
}

/// Prepares a Bitcoin payment: checks the recipient, converts the amount from
/// BTC to satoshi (eight decimal places, cut off), checks the mnemonic and the
/// key at `m/84'/0'/0'/0/{index}`, and returns the stand-in transaction.
pub fn sign_btc_transaction(
    mnemonic: &str,
    passphrase: Option<&str>,
    index: u32,
    tx: BtcTransaction,
) -> (r: Result<SignedBtcTransaction, String>)
    ensures
        signed_btc_view(r) == btc_signing_outcome(
            mnemonic@,
            passphrase_text(passphrase),
            index,
            tx@,
        ),
        r is Ok ==> r->Ok_0.transaction_hash@.len() == 64 && r->Ok_0.raw_transaction@.len() == 76,
{
    let to = match parse_address(tx.to.as_str()) {
        Ok(a) => a,
        Err(e) => { return Err(join2("Invalid Bitcoin address: ", e.as_str())); },
    };
    let sats = match parse_units(tx.amount.as_str(), 8) {
        Ok(n) => n,
        Err(e) => { return Err(join2("Invalid amount: ", e.as_str())); },
    };
    let path = derivation_path("m/84'/0'/0'/0", index);
    match derive_secret(mnemonic, passphrase, path.as_str()) {
        Ok(k) => {
            let mut secret = k;
            wipe(&mut secret);
        },
        Err(e) => { return Err(e); },
    }
    Ok(stand_in_transaction(to.as_str(), sats, index))
}

} // verus!
