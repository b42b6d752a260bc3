//! Solana: Ed25519 keys, Base58 addresses and the simplified signer.

use crate::amount::{parse_units, units_outcome};
use crate::codec::{base58, base58_text, concat_bytes};
use crate::keys::{
    derivation_path, derive_secret, derived_secret, passphrase_text, path_text, wipe,
};
use crate::text::{decimal_digits, decimal_text, join2, join5, utf8_bytes};
use ed25519_dalek::{Signer, SigningKey, VerifyingKey};
use vstd::prelude::*;
use vstd::string::*;

verus! {

/// A derived Solana address with the path that leads to it.
#[derive(Debug)]
pub struct SolAddress {
    pub address: String,
    pub derivation_path: String,
}

/// A transfer request: recipient, amount in SOL as a decimal string, and an
/// optional recent block hash.
#[derive(Debug, Clone)]
pub struct SolTransaction {
    pub to: String,
    pub amount: String,
    pub recent_blockhash: Option<String>,
}

/// Mathematical content of a [`SolTransaction`].
pub struct SolTransactionModel {
    pub to: Seq<char>,
    pub amount: Seq<char>,
    pub recent_blockhash: Option<Seq<char>>,
}

impl View for SolTransaction {
    type V = SolTransactionModel;

    open spec fn view(&self) -> SolTransactionModel {
        SolTransactionModel {
            to: self.to@,
            amount: self.amount@,
            recent_blockhash: match self.recent_blockhash {
                Some(t) => Some(t@),
                None => None,
            },
        }
    }
}

/// A signed message: signature and message in one Base58 string, and the
/// signature alone.
#[derive(Debug)]
pub struct SignedSolTransaction {
    pub raw_transaction: String,
    pub signature: String,
}

/// The Ed25519 public key (32 bytes) of a 32-byte private key.
pub uninterp spec fn ed25519_public_key(secret: Seq<u8>) -> Seq<u8>;

/// The Ed25519 signature (64 bytes) of a message under a private key.
pub uninterp spec fn ed25519_signature(secret: Seq<u8>, message: Seq<u8>) -> Seq<u8>;

/// The public key of `secret`.
///
/// Trusted: wraps `ed25519_dalek::SigningKey::from_bytes`,
/// `VerifyingKey::from` and `to_bytes`, none of which can fail. The contract
/// names the result; its length is in the type.
#[verifier::external_body]
fn public_key(secret: &[u8; 32]) -> (out: [u8; 32])
    ensures
        out@ == ed25519_public_key(secret@),
{
    VerifyingKey::from(&SigningKey::from_bytes(secret)).to_bytes()
}

/// The signature of `message` under `secret`.
///
/// Trusted: wraps `ed25519_dalek::SigningKey::from_bytes`, `Signer::sign` and
/// `Signature::to_bytes`. Ed25519 signatures are deterministic. The contract
/// names the result; its length is in the type.
#[verifier::external_body]
fn sign_message(secret: &[u8; 32], message: &[u8]) -> (out: [u8; 64])
    ensures
        out@ == ed25519_signature(secret@, message@),
{
    SigningKey::from_bytes(secret).sign(message).to_bytes()
}

/// Path prefix of Solana keys; the address index behind it is not
/// hardened.
pub open spec fn sol_path_prefix() -> Seq<char> {
    "m/44'/501'/0'/0'"@
}

/// What [`derive_sol_address`] returns, as (address, path).
pub open spec fn sol_address_outcome(mnemonic: Seq<char>, passphrase: Seq<char>, index: u32)
    -> Result<(Seq<char>, Seq<char>), Seq<char>> {
    let path = path_text(sol_path_prefix(), index);
    match derived_secret(mnemonic, passphrase, path) {
        Err(e) => Err(e),
        Ok(secret) => Ok((base58(ed25519_public_key(secret)), path)),
    }
}

/// The block hash that goes into the message: the given one, or `default`.
pub open spec fn blockhash_text(blockhash: Option<Seq<char>>) -> Seq<char> {
    match blockhash {
        Some(b) => b,
        None => "default"@,
    }
}

/// The message that is signed: recipient, amount in lamports and block hash,
/// with colons between.
pub open spec fn sol_message(to: Seq<char>, lamports: u64, blockhash: Seq<char>) -> Seq<char> {
    to + ":"@ + decimal_digits(lamports as nat) + ":"@ + blockhash
}

/// What signing yields once the key is known, as (raw transaction,
/// signature).
pub open spec fn sol_signed_with_secret(secret: Seq<u8>, tx: SolTransactionModel) -> Result<
    (Seq<char>, Seq<char>),
    Seq<char>,
> {
    match units_outcome(tx.amount, 9) {
        Err(e) => Err("Invalid amount: "@ + e),
        Ok(lamports) => {
            let message = utf8_bytes(
                sol_message(tx.to, lamports, blockhash_text(tx.recent_blockhash)),
            );
            let signature = ed25519_signature(secret, message);
            Ok((base58(signature + message), base58(signature)))
        },
    }
}

/// What [`sign_sol_transaction`] returns, as (raw transaction, signature).
pub open spec fn sol_signing_outcome(
    mnemonic: Seq<char>,
    passphrase: Seq<char>,
    index: u32,
    tx: SolTransactionModel,
) -> Result<(Seq<char>, Seq<char>), Seq<char>> {
    match derived_secret(mnemonic, passphrase, path_text(sol_path_prefix(), index)) {
        Err(e) => Err(e),
        Ok(secret) => sol_signed_with_secret(secret, tx),
    }
}

/// The (address, path) pair behind a derivation result.
pub open spec fn sol_address_view(r: Result<SolAddress, String>) -> Result<
    (Seq<char>, Seq<char>),
    Seq<char>,
> {
    match r {
        Ok(a) => Ok((a.address@, a.derivation_path@)),
        Err(e) => Err(e@),
    }
}

/// The (raw transaction, signature) pair behind a signing result.
pub open spec fn signed_sol_view(r: Result<SignedSolTransaction, String>) -> Result<
    (Seq<char>, Seq<char>),
    Seq<char>,
> {
    match r {
        Ok(s) => Ok((s.raw_transaction@, s.signature@)),
        Err(e) => Err(e@),
    }
}

/// Derives the Solana address at `m/44'/501'/0'/0'/{index}`: the Ed25519
/// public key in Base58, without hashing.
pub fn derive_sol_address(mnemonic: &str, passphrase: Option<&str>, index: u32) -> (r: Result<
    SolAddress,
    String,
>)
    ensures
        sol_address_view(r) == sol_address_outcome(mnemonic@, passphrase_text(passphrase), index),
{
    let path = derivation_path("m/44'/501'/0'/0'", index);
    let mut secret = match derive_secret(mnemonic, passphrase, path.as_str()) {
        Ok(k) => k,
        Err(e) => { return Err(e); },
    };
    let key = public_key(&secret);
    wipe(&mut secret);
    Ok(SolAddress { address: base58_text(key.as_slice()), derivation_path: path })
}

/// Signs a transfer with an already derived private key: converts the amount
/// from SOL to lamports (nine decimal places, cut off), signs the message
/// `to:lamports:blockhash`, and encodes signature and message in Base58.
pub fn sign_with_secret(secret: &[u8; 32], tx: &SolTransaction) -> (r: Result<
    SignedSolTransaction,
    String,
>)
    ensures
        signed_sol_view(r) == sol_signed_with_secret(secret@, tx@),
{
    let lamports = match parse_units(tx.amount.as_str(), 9) {
        Ok(n) => n,
        Err(e) => { return Err(join2("Invalid amount: ", e.as_str())); },
    };
    let amount_text = decimal_text(lamports);
    let blockhash: &str = match &tx.recent_blockhash {
        Some(b) => b.as_str(),
        None => "default",
    };
    let message = join5(tx.to.as_str(), ":", amount_text.as_str(), ":", blockhash);
    let message_bytes = message.as_str().as_bytes();
    let signature = sign_message(secret, message_bytes);
    let both = concat_bytes(signature.as_slice(), message_bytes);
    Ok(
        SignedSolTransaction {
            raw_transaction: base58_text(both.as_slice()),
            signature: base58_text(signature.as_slice()),
        },
    )
}

/// Signs a transfer with the key at `m/44'/501'/0'/0'/{index}`. What is
/// signed is the message `to:lamports:blockhash`, not a transaction in the
/// network's wire format.
pub fn sign_sol_transaction(
    mnemonic: &str,
    passphrase: Option<&str>,
    index: u32,
    tx: SolTransaction,
) -> (r: Result<SignedSolTransaction, String>)
    ensures
        signed_sol_view(r) == sol_signing_outcome(
            mnemonic@,
            passphrase_text(passphrase),
            index,
            tx@,
        ),
{
    let path = derivation_path("m/44'/501'/0'/0'", index);
    let mut secret = match derive_secret(mnemonic, passphrase, path.as_str()) {
        Ok(k) => k,
        Err(e) => { return Err(e); },
    };
    let signed = sign_with_secret(&secret, &tx);
    wipe(&mut secret);
    signed
}

} // verus!
