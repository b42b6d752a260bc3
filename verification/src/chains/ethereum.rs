//! Ethereum: addresses and legacy transaction signing. BNB Chain shares both.

use crate::chains::address_validation::{is_eth_address, is_hex_digit};
use crate::codec::{bytes_result, hex_bytes, hex_decode, hex_lower, hex_nibble, hex_text};
use crate::digest::{ethers_keccak256, ethers_keccak256_digest};
use crate::keys::{
    derivation_path, derive_secret, derived_secret, passphrase_text, path_text, wipe,
};
use crate::text::{chars_of, decimal_digits, join2, text_of};
use ethers_core::types::{TransactionRequest, H160, U256};
use ethers_signers::{LocalWallet, Signer};
use std::str::FromStr;
use vstd::prelude::*;
use vstd::string::*;

verus! {

/// A derived Ethereum address with the path that leads to it.
#[derive(Debug)]
pub struct EthAddress {
    pub address: String,
    pub derivation_path: String,
}

/// The fields of a legacy transaction, numbers as decimal strings.
#[derive(Debug, Clone)]
pub struct EthTransaction {
    pub to: String,
    pub value: String,
    pub gas_price: String,
    pub gas_limit: String,
    pub nonce: String,
    pub data: Option<String>,
}

/// Mathematical content of an [`EthTransaction`].
pub struct EthTransactionModel {
    pub to: Seq<char>,
    pub value: Seq<char>,
    pub gas_price: Seq<char>,
    pub gas_limit: Seq<char>,
    pub nonce: Seq<char>,
    pub data: Option<Seq<char>>,
}

impl View for EthTransaction {
    type V = EthTransactionModel;

    open spec fn view(&self) -> EthTransactionModel {
        EthTransactionModel {
            to: self.to@,
            value: self.value@,
            gas_price: self.gas_price@,
            gas_limit: self.gas_limit@,
            nonce: self.nonce@,
            data: match self.data {
                Some(t) => Some(t@),
                None => None,
            },
        }
    }
}

/// A signed transaction: the raw encoding and its hash, both as `0x` and
/// hexadecimal digits.
#[derive(Debug)]
pub struct SignedTransaction {
    pub raw_transaction: String,
    pub transaction_hash: String,
}

/// The 20 address bytes of the wallet that `ethers-signers` builds from a
/// private key, or the message of the error.
pub uninterp spec fn evm_wallet_address(secret: Seq<u8>) -> Result<Seq<u8>, Seq<char>>;

/// What the address type of `ethers-core` parses from text: 20 bytes, or the
/// message of the error.
pub uninterp spec fn h160_parse(s: Seq<char>) -> Result<Seq<u8>, Seq<char>>;

/// The signed RLP encoding that `ethers` produces for a legacy transaction
/// with the given fields under the given private key, or the message of the
/// error. Numbers are 32 big-endian bytes.
pub uninterp spec fn evm_signed_rlp(
    secret: Seq<u8>,
    to: Seq<u8>,
    value: Seq<u8>,
    gas_price: Seq<u8>,
    gas_limit: Seq<u8>,
    nonce: Seq<u8>,
    data: Option<Seq<u8>>,
) -> Result<Seq<u8>, Seq<char>>;

/// The value of a decimal digit.
pub open spec fn digit_value(c: char) -> nat {
    (c as nat - '0' as nat) as nat
}

/// One more than the largest 256-bit number.
pub open spec fn u256_limit() -> nat {
    0x1_0000_0000_0000_0000_0000_0000_0000_0000_0000_0000_0000_0000_0000_0000_0000_0000nat
}

/// Reads `s` as a 256-bit decimal number, left to right, starting from `acc`:
/// the first character that is no digit, or the first digit that takes the
/// number past 256 bits, ends the reading with the message for it. The empty
/// string reads as `acc`.
pub open spec fn u256_scan(s: Seq<char>, acc: nat) -> Result<nat, Seq<char>>
    decreases s.len(),
{
    if s.len() == 0 {
        Ok(acc)
    } else if !('0' <= s[0] <= '9') {
        Err("a character is not in the range 0-9"@)
    } else if acc * 10 + digit_value(s[0]) >= u256_limit() {
        Err("the number is too large for the type"@)
    } else {
        u256_scan(s.drop_first(), acc * 10 + digit_value(s[0]))
    }
}

/// The 32 bytes that spell `n`, most significant first.
pub open spec fn u256_bytes(n: nat) -> Seq<u8> {
    Seq::new(32, |i: int| ((n / vstd::arithmetic::power::pow(256, (31 - i) as nat) as nat) % 256) as u8)
}

/// A parsed 256-bit number: its 32 big-endian bytes and its decimal text.
pub open spec fn u256_parse(s: Seq<char>) -> Result<(Seq<u8>, Seq<char>), Seq<char>> {
    match u256_scan(s, 0) {
        Ok(n) => Ok((u256_bytes(n), decimal_digits(n))),
        Err(e) => Err(e),
    }
}

/// A parsing result with its parts by their views.
pub open spec fn u256_view(r: Result<([u8; 32], String), String>) -> Result<
    (Seq<u8>, Seq<char>),
    Seq<char>,
> {
    match r {
        Ok(p) => Ok((p.0@, p.1@)),
        Err(e) => Err(e@),
    }
}

/// An address result, bytes and message by their views.
pub open spec fn h160_view(r: Result<[u8; 20], String>) -> Result<Seq<u8>, Seq<char>> {
    match r {
        Ok(a) => Ok(a@),
        Err(e) => Err(e@),
    }
}

/// The bytes behind an optional buffer.
pub open spec fn optional_bytes(data: Option<&Vec<u8>>) -> Option<Seq<u8>> {
    match data {
        Some(d) => Some(d@),
        None => None,
    }
}

/// The address of the wallet for `secret`.
///
/// Trusted: wraps `ethers_signers::LocalWallet::from_bytes` and, on the
/// wallet, `address()`. An error is handed back as its `Display` text. The
/// contract only names the result.
#[verifier::external_body]
fn wallet_address(secret: &[u8; 32]) -> (r: Result<[u8; 20], String>)
    ensures
        h160_view(r) == evm_wallet_address(secret@),
{
    match LocalWallet::from_bytes(secret) {
        Ok(w) => Ok(w.address().0),
        Err(e) => Err(e.to_string()),
    }
}

/// Parses an address given as hexadecimal text, with or without `0x`.
///
/// Trusted: wraps `H160::from_str` of `ethers-core`. An error is handed back
/// as its `Display` text. The contract only names the result.
#[verifier::external_body]
pub(crate) fn parse_h160(s: &str) -> (r: Result<[u8; 20], String>)
    ensures
        h160_view(r) == h160_parse(s@),
{
    match H160::from_str(s) {
        Ok(a) => Ok(a.0),
        Err(e) => Err(e.to_string()),
    }
}

/// Parses a 256-bit number given in decimal.
///
/// Trusted: wraps `U256::from_dec_str` of `ethers-core`; the number is handed
/// back as `to_big_endian` and `to_string` give it, an error as its `Display`
/// text. The contract states what the crate's function does: it reads the
/// digits left to right, fails with one message on the first byte that is no
/// digit and with another once the number passes 256 bits.
#[verifier::external_body]
pub(crate) fn parse_u256(s: &str) -> (r: Result<([u8; 32], String), String>)
    ensures
        u256_view(r) == u256_parse(s@),
{
    match U256::from_dec_str(s) {
        Ok(v) => {
            let mut bytes = [0u8; 32];
            v.to_big_endian(&mut bytes);
            Ok((bytes, v.to_string()))
        },
        Err(e) => Err(e.to_string()),
    }
}

/// Signs a legacy transaction and returns its signed RLP encoding.
///
/// Trusted: wraps `TransactionRequest::new` with its builder methods,
/// `LocalWallet::from_bytes`, `sign_transaction_sync` and `rlp_signed`. The
/// signer uses a deterministic nonce, so the bytes depend on the arguments
/// alone. An error is handed back as its `Display` text. The contract only
/// names the result.
#[verifier::external_body]
fn sign_legacy(
    secret: &[u8; 32],
    to: &[u8; 20],
    value: &[u8; 32],
    gas_price: &[u8; 32],
    gas_limit: &[u8; 32],
    nonce: &[u8; 32],
    data: Option<&Vec<u8>>,
) -> (r: Result<Vec<u8>, String>)
    ensures
        bytes_result(r) == evm_signed_rlp(
            secret@,
            to@,
            value@,
            gas_price@,
            gas_limit@,
            nonce@,
            optional_bytes(data),
        ),
{
    let wallet = LocalWallet::from_bytes(secret).map_err(|e| e.to_string())?;
    let mut tx = TransactionRequest::new().to(H160(*to)).value(U256::from_big_endian(value))
        .gas_price(U256::from_big_endian(gas_price)).gas(U256::from_big_endian(gas_limit))
        .nonce(U256::from_big_endian(nonce));
    if let Some(d) = data {
        tx = tx.data(d.clone());
    }
    let signature = wallet.sign_transaction_sync(&tx.clone().into()).map_err(|e| e.to_string())?;
    Ok(tx.rlp_signed(&signature).to_vec())
}

/// Path prefix of Ethereum and BNB Chain keys.
pub open spec fn eth_path_prefix() -> Seq<char> {
    "m/44'/60'/0'/0"@
}

/// The text of an address: `0x` and the 40 hexadecimal digits of its bytes.
pub open spec fn address_text(bytes: Seq<u8>) -> Seq<char> {
    "0x"@ + hex_lower(bytes)
}

/// `s` without any run of `0x` at its front.
pub open spec fn without_0x(s: Seq<char>) -> Seq<char>
    decreases s.len(),
{
    if s.len() >= 2 && s[0] == '0' && s[1] == 'x' {
        without_0x(s.skip(2))
    } else {
        s
    }
}

/// What [`derive_eth_address`] returns, as (address, path).
pub open spec fn eth_address_outcome(mnemonic: Seq<char>, passphrase: Seq<char>, index: u32)
    -> Result<(Seq<char>, Seq<char>), Seq<char>> {
    let path = path_text(eth_path_prefix(), index);
    match derived_secret(mnemonic, passphrase, path) {
        Err(e) => Err(e),
        Ok(secret) => match evm_wallet_address(secret) {
            Err(e) => Err("Failed to create wallet: "@ + e),
            Ok(a) => Ok((address_text(a), path)),
        },
    }
}

/// What signing yields once the key is known, as (raw transaction, hash).
pub open spec fn signed_with_secret(secret: Seq<u8>, tx: EthTransactionModel) -> Result<
    (Seq<char>, Seq<char>),
    Seq<char>,
> {
    match evm_wallet_address(secret) {
        Err(e) => Err("Failed to create wallet: "@ + e),
        Ok(_) => match h160_parse(tx.to) {
            Err(e) => Err("Invalid to address: "@ + e),
            Ok(to) => match u256_parse(tx.value) {
                Err(e) => Err("Invalid value: "@ + e),
                Ok(value) => match u256_parse(tx.gas_price) {
                    Err(e) => Err("Invalid gas price: "@ + e),
                    Ok(gas_price) => match u256_parse(tx.gas_limit) {
                        Err(e) => Err("Invalid gas limit: "@ + e),
                        Ok(gas_limit) => match u256_parse(tx.nonce) {
                            Err(e) => Err("Invalid nonce: "@ + e),
                            Ok(nonce) => match data_bytes(tx.data) {
                                Err(e) => Err("Invalid data hex: "@ + e),
                                Ok(data) => match evm_signed_rlp(
                                    secret,
                                    to,
                                    value.0,
                                    gas_price.0,
                                    gas_limit.0,
                                    nonce.0,
                                    data,
                                ) {
                                    Err(e) => Err("Failed to sign transaction: "@ + e),
                                    Ok(rlp) => Ok(
                                        (
                                            address_text(rlp),
                                            address_text(ethers_keccak256_digest(rlp)),
                                        ),
                                    ),
                                },
                            },
                        },
                    },
                },
            },
        },
    }
}

/// The call data of a transaction: none, or the bytes that its hexadecimal
/// text decodes to once every leading `0x` is dropped.
pub open spec fn data_bytes(data: Option<Seq<char>>) -> Result<Option<Seq<u8>>, Seq<char>> {
    match data {
        None => Ok(None),
        Some(d) => match hex_decode(without_0x(d)) {
            Ok(b) => Ok(Some(b)),
            Err(e) => Err(e),
        },
    }
}

/// What [`sign_eth_transaction`] returns, as (raw transaction, hash).
pub open spec fn eth_signing_outcome(
    mnemonic: Seq<char>,
    passphrase: Seq<char>,
    index: u32,
    tx: EthTransactionModel,
) -> Result<(Seq<char>, Seq<char>), Seq<char>> {
    match derived_secret(mnemonic, passphrase, path_text(eth_path_prefix(), index)) {
        Err(e) => Err(e),
        Ok(secret) => signed_with_secret(secret, tx),
    }
}

/// The (address, path) pair behind a derivation result.
pub open spec fn eth_address_view(r: Result<EthAddress, String>) -> Result<
    (Seq<char>, Seq<char>),
    Seq<char>,
> {
    match r {
        Ok(a) => Ok((a.address@, a.derivation_path@)),
        Err(e) => Err(e@),
    }
}

/// The (raw transaction, hash) pair behind a signing result.
pub open spec fn signed_view(r: Result<SignedTransaction, String>) -> Result<
    (Seq<char>, Seq<char>),
    Seq<char>,
> {
    match r {
        Ok(s) => Ok((s.raw_transaction@, s.transaction_hash@)),
        Err(e) => Err(e@),
    }
}

/// `0x` followed by the lowercase hexadecimal digits of `bytes`.
pub fn prefixed_hex(bytes: &[u8]) -> (out: String)
    ensures
        out@ == address_text(bytes@),
        out@.len() == 2 + 2 * bytes@.len(),
{
    let digits = hex_text(bytes);
    proof {
        reveal_strlit("0x");
    }
    join2("0x", digits.as_str())
}

/// Drops every leading `0x` from `s`.
pub fn strip_0x(s: &str) -> (out: String)
    ensures
        out@ == without_0x(s@),
{
    let chars = chars_of(s);
    let mut start: usize = 0;
    assert(chars@.skip(0) =~= chars@);
    while start < chars.len() && chars.len() - start >= 2 && chars[start] == '0' && chars[start
        + 1] == 'x'
        invariant
            start <= chars.len(),
            without_0x(chars@) == without_0x(chars@.skip(start as int)),
        decreases chars.len() - start,
    {
        proof {
            let rest = chars@.skip(start as int);
            assert(rest[0] == '0' && rest[1] == 'x');
            assert(rest.skip(2) =~= chars@.skip(start as int + 2));
        }
        start = start + 2;
    }
    proof {
        let rest = chars@.skip(start as int);
        if rest.len() >= 2 {
            assert(rest[0] == chars@[start as int] && rest[1] == chars@[start as int + 1]);
        }
        assert(without_0x(rest) == rest);
        assert(rest =~= chars@.subrange(start as int, chars@.len() as int));
    }
    text_of(&chars, start, chars.len())
}

/// Derives the address at `m/44'/60'/0'/0/{index}`: the last 20 bytes of the
/// Keccak-256 hash of the public key, written as `0x` and 40 hexadecimal
/// digits.
pub fn derive_eth_address(mnemonic: &str, passphrase: Option<&str>, index: u32) -> (r: Result<
    EthAddress,
    String,
>)
    ensures
        eth_address_view(r) == eth_address_outcome(mnemonic@, passphrase_text(passphrase), index),
        r is Ok ==> is_eth_address(r->Ok_0.address@),
{
    let path = derivation_path("m/44'/60'/0'/0", index);
    let mut secret = match derive_secret(mnemonic, passphrase, path.as_str()) {
        Ok(k) => k,
        Err(e) => { return Err(e); },
    };
    let wallet = wallet_address(&secret);
    wipe(&mut secret);
    match wallet {
        Err(e) => Err(join2("Failed to create wallet: ", e.as_str())),
        Ok(a) => {
            let address = prefixed_hex(a.as_slice());
            proof {
                lemma_address_text_is_valid(a@);
            }
            Ok(EthAddress { address, derivation_path: path })
        },
    }
}

/// Signs `tx` with an already derived private key: checks the key, parses
/// every field in turn, signs the legacy transaction and reports it with its
/// Keccak-256 hash.
pub fn sign_with_secret(secret: &[u8; 32], tx: &EthTransaction) -> (r: Result<
    SignedTransaction,
    String,
>)
    ensures
        signed_view(r) == signed_with_secret(secret@, tx@),
        r is Ok ==> r->Ok_0.transaction_hash@.len() == 66 && r->Ok_0.raw_transaction@.len() >= 2
            && r->Ok_0.raw_transaction@.len() % 2 == 0,
{
    match wallet_address(secret) {
        Err(e) => { return Err(join2("Failed to create wallet: ", e.as_str())); },
        Ok(_) => {},
    }
    let to = match parse_h160(tx.to.as_str()) {
        Ok(a) => a,
        Err(e) => { return Err(join2("Invalid to address: ", e.as_str())); },
    };
    let value = match parse_u256(tx.value.as_str()) {
        Ok(v) => v,
        Err(e) => { return Err(join2("Invalid value: ", e.as_str())); },
    };
    let gas_price = match parse_u256(tx.gas_price.as_str()) {
        Ok(v) => v,
        Err(e) => { return Err(join2("Invalid gas price: ", e.as_str())); },
    };
    let gas_limit = match parse_u256(tx.gas_limit.as_str()) {
        Ok(v) => v,
        Err(e) => { return Err(join2("Invalid gas limit: ", e.as_str())); },
    };
    let nonce = match parse_u256(tx.nonce.as_str()) {
        Ok(v) => v,
        Err(e) => { return Err(join2("Invalid nonce: ", e.as_str())); },
    };
    let data: Option<Vec<u8>> = match &tx.data {
        None => None,
        Some(d) => {
            let digits = strip_0x(d.as_str());
            match hex_bytes(digits.as_str()) {
                Ok(b) => Some(b),
                Err(e) => { return Err(join2("Invalid data hex: ", e.as_str())); },
            }
        },
    };
    let rlp = match sign_legacy(
        secret,
        &to,
        &value.0,
        &gas_price.0,
        &gas_limit.0,
        &nonce.0,
        data.as_ref(),
    ) {
        Ok(b) => b,
        Err(e) => { return Err(join2("Failed to sign transaction: ", e.as_str())); },
    };
    let raw_transaction = prefixed_hex(rlp.as_slice());
    let hash = ethers_keccak256(rlp.as_slice());
    let transaction_hash = prefixed_hex(hash.as_slice());
    Ok(SignedTransaction { raw_transaction, transaction_hash })
}

/// Signs a legacy transaction with the key at `m/44'/60'/0'/0/{index}`. The
/// raw transaction is the signed RLP encoding, the hash its Keccak-256, both
/// as `0x` and hexadecimal digits; the hash has 66 characters. A field that does not parse gives an error
/// that names the field.
pub fn sign_eth_transaction(
    mnemonic: &str,
    passphrase: Option<&str>,
    index: u32,
    tx: EthTransaction,
) -> (r: Result<SignedTransaction, String>)
    ensures
        signed_view(r) == eth_signing_outcome(mnemonic@, passphrase_text(passphrase), index, tx@),
        r is Ok ==> r->Ok_0.transaction_hash@.len() == 66 && r->Ok_0.raw_transaction@.len() >= 2
            && r->Ok_0.raw_transaction@.len() % 2 == 0,
{
    let path = derivation_path("m/44'/60'/0'/0", index);
    let mut secret = match derive_secret(mnemonic, passphrase, path.as_str()) {
        Ok(k) => k,
        Err(e) => { return Err(e); },
    };
    let signed = sign_with_secret(&secret, &tx);
    wipe(&mut secret);
    signed
}

/// Every lowercase hexadecimal digit is a hexadecimal digit.
pub proof fn lemma_hex_nibble_is_hex_digit(n: int)
    requires
        0 <= n < 16,
    ensures
        is_hex_digit(hex_nibble(n)),
{
}

/// The text of a 20-byte address is a well-formed Ethereum address: `0x`
/// and 40 hexadecimal digits.
pub proof fn lemma_address_text_is_valid(bytes: Seq<u8>)
    requires
        bytes.len() == 20,
    ensures
        is_eth_address(address_text(bytes)),
{
    reveal_strlit("0x");
    let t = address_text(bytes);
    assert(t.len() == 42);
    assert(t[0] == '0' && t[1] == 'x');
    assert forall|i: int| 2 <= i < t.len() implies is_hex_digit(#[trigger] t[i]) by {
        let j = i - 2;
        assert(t[i] == hex_lower(bytes)[j]);
        lemma_hex_nibble_is_hex_digit(bytes[j / 2] as int / 16);
        lemma_hex_nibble_is_hex_digit(bytes[j / 2] as int % 16);
    }
}

} // verus!
