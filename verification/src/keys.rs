//! From a mnemonic to a private key: seed bytes, hierarchical derivation
//! along a path, and the secp256k1 operations that the chains share.

use crate::crypto::mnemonic::{bip39_parse, bip39_seed, parse_phrase, seed_of};
use crate::text::{decimal_digits, decimal_text, join2, join3};
use secp256k1::{Message, PublicKey, SecretKey, SECP256K1};
use tiny_hderive::bip32::ExtendedPrivKey;
use vstd::prelude::*;
use vstd::string::*;
use zeroize::Zeroize;

verus! {

/// What the `tiny-hderive` crate derives from a seed along a path written as
/// text: the 32 bytes of the private key, or the `Debug` text of the error.
pub uninterp spec fn bip32_secret(seed: Seq<u8>, path: Seq<char>) -> Result<Seq<u8>, Seq<char>>;

/// The compressed public key (33 bytes) of a secp256k1 private key, or `None`
/// where the 32 bytes are not a valid private key.
pub uninterp spec fn secp256k1_public_key(secret: Seq<u8>) -> Option<Seq<u8>>;

/// The uncompressed public key (65 bytes) of a secp256k1 private key, or
/// `None` where the 32 bytes are not a valid private key.
pub uninterp spec fn secp256k1_public_key_uncompressed(secret: Seq<u8>) -> Option<Seq<u8>>;

/// The compact ECDSA signature (64 bytes) of a 32-byte digest under a
/// secp256k1 private key, with the deterministic nonce of RFC 6979; `None`
/// where the 32 bytes are not a valid private key.
pub uninterp spec fn secp256k1_sign(secret: Seq<u8>, digest: Seq<u8>) -> Option<Seq<u8>>;

/// A key result, bytes and message by their views.
pub open spec fn key_result(r: Result<[u8; 32], String>) -> Result<Seq<u8>, Seq<char>> {
    match r {
        Ok(k) => Ok(k@),
        Err(e) => Err(e@),
    }
}

/// Derives the private key at `path` from `seed`.
///
/// Trusted: wraps `tiny_hderive::bip32::ExtendedPrivKey::derive` and, on the
/// derived key, `secret()`. An error is handed back as its `Debug` text. The
/// contract only names the result; the key's length is in the type.
#[verifier::external_body]
fn derive_from_seed(seed: &[u8; 64], path: &str) -> (r: Result<[u8; 32], String>)
    ensures
        key_result(r) == bip32_secret(seed@, path@),
{
    match ExtendedPrivKey::derive(seed, path) {
        Ok(k) => Ok(k.secret()),
        Err(e) => Err(format!("{:?}", e)),
    }
}

/// The compressed public key of `secret`.
///
/// Trusted: wraps `secp256k1::SecretKey::from_slice`,
/// `PublicKey::from_secret_key` on the crate's global context and
/// `serialize`. `None` stands for the one error that `from_slice` can return
/// for 32 bytes, an invalid key. The contract only names the result.
#[verifier::external_body]
pub(crate) fn public_key(secret: &[u8; 32]) -> (r: Option<[u8; 33]>)
    ensures
        match r {
            Some(k) => secp256k1_public_key(secret@) == Some(k@),
            None => secp256k1_public_key(secret@) is None,
        },
{
    match SecretKey::from_slice(secret) {
        Ok(sk) => Some(PublicKey::from_secret_key(SECP256K1, &sk).serialize()),
        Err(_) => None,
    }
}

/// The uncompressed public key of `secret`.
///
/// Trusted: wraps `secp256k1::SecretKey::from_slice`,
/// `PublicKey::from_secret_key` on the crate's global context and
/// `serialize_uncompressed`. `None` stands for an invalid key. The contract
/// names the result and says that it is there exactly when the compressed key
/// is: both fail only where `from_slice` does.
#[verifier::external_body]
pub(crate) fn public_key_uncompressed(secret: &[u8; 32]) -> (r: Option<[u8; 65]>)
    ensures
        match r {
            Some(k) => secp256k1_public_key_uncompressed(secret@) == Some(k@),
            None => secp256k1_public_key_uncompressed(secret@) is None,
        },
        r is Some <==> secp256k1_public_key(secret@) is Some,
{
    match SecretKey::from_slice(secret) {
        Ok(sk) => Some(PublicKey::from_secret_key(SECP256K1, &sk).serialize_uncompressed()),
        Err(_) => None,
    }
}

/// Signs a 32-byte digest with `secret` and returns the compact signature.
///
/// Trusted: wraps `secp256k1::SecretKey::from_slice`,
/// `Message::from_digest_slice` (which takes exactly 32 bytes),
/// `Secp256k1::sign_ecdsa` on the crate's global context and
/// `serialize_compact`. The nonce is deterministic, so the signature depends
/// on the two arguments alone. `None` stands for an invalid key. The contract
/// names the result and says that it is there exactly when the public key is:
/// both fail only where `from_slice` does.
#[verifier::external_body]
pub(crate) fn sign_digest(secret: &[u8; 32], digest: &[u8; 32]) -> (r: Option<[u8; 64]>)
    ensures
        match r {
            Some(s) => secp256k1_sign(secret@, digest@) == Some(s@),
            None => secp256k1_sign(secret@, digest@) is None,
        },
        r is Some <==> secp256k1_public_key(secret@) is Some,
{
    let sk = SecretKey::from_slice(secret).ok()?;
    let message = Message::from_digest_slice(digest).ok()?;
    Some(SECP256K1.sign_ecdsa(&message, &sk).serialize_compact())
}

/// Overwrites a buffer of key material with zeros.
///
/// Trusted: wraps `zeroize::Zeroize::zeroize` for a byte array, which sets
/// every byte to zero.
#[verifier::external_body]
pub(crate) fn wipe<const N: usize>(buf: &mut [u8; N])
    ensures
        final(buf)@ == Seq::new(N as nat, |i: int| 0u8),
{
    buf.zeroize();
}

/// One step of a derivation path: the index of the child key, and whether
/// the derivation is hardened, which mixes the parent's private key in.
pub struct PathStep {
    pub index: u32,
    pub hardened: bool,
}

/// A step as it is written: a slash, the index in decimal, and an
/// apostrophe where the step is hardened.
pub open spec fn step_text(step: PathStep) -> Seq<char> {
    if step.hardened {
        "/"@ + decimal_digits(step.index as nat) + "'"@
    } else {
        "/"@ + decimal_digits(step.index as nat)
    }
}

/// A path as it is written: `m`, and then its steps in order.
pub open spec fn steps_text(steps: Seq<PathStep>) -> Seq<char>
    decreases steps.len(),
{
    if steps.len() == 0 {
        "m"@
    } else {
        steps_text(steps.drop_last()) + step_text(steps.last())
    }
}

/// A hardened step.
pub open spec fn hardened(index: u32) -> PathStep {
    PathStep { index, hardened: true }
}

/// A step that is not hardened.
pub open spec fn normal(index: u32) -> PathStep {
    PathStep { index, hardened: false }
}

/// The text of the derivation path that extends `prefix` by the address
/// index: the prefix, a slash, and the index in decimal.
pub open spec fn path_text(prefix: Seq<char>, index: u32) -> Seq<char> {
    prefix + "/"@ + decimal_digits(index as nat)
}

/// The derivation path that extends `prefix` by the address index.
pub fn derivation_path(prefix: &str, index: u32) -> (path: String)
    ensures
        path@ == path_text(prefix@, index),
{
    let digits = decimal_text(index as u64);
    join3(prefix, "/", digits.as_str())
}

/// The passphrase to use: the given one, or the empty string.
pub open spec fn passphrase_text(passphrase: Option<&str>) -> Seq<char> {
    match passphrase {
        Some(p) => p@,
        None => Seq::<char>::empty(),
    }
}

/// The private key that a mnemonic, a passphrase and a path lead to: the
/// mnemonic must parse, then its seed is derived along the path.
pub open spec fn derived_secret(mnemonic: Seq<char>, passphrase: Seq<char>, path: Seq<char>)
    -> Result<Seq<u8>, Seq<char>> {
    match bip39_parse(mnemonic) {
        Err(e) => Err("Invalid mnemonic: "@ + e),
        Ok(_) => match bip32_secret(bip39_seed(mnemonic, passphrase), path) {
            Err(e) => Err("Failed to derive key: "@ + e),
            Ok(k) => Ok(k),
        },
    }
}

/// Derives the private key for `mnemonic` at `path`. Without a passphrase the
/// empty one is used. Fails with `Invalid mnemonic: ..` when the phrase does
/// not parse and with `Failed to derive key: ..` when the derivation does.
/// The seed is overwritten with zeros before the function returns.
pub fn derive_secret(mnemonic: &str, passphrase: Option<&str>, path: &str) -> (r: Result<
    [u8; 32],
    String,
>)
    ensures
        key_result(r) == derived_secret(mnemonic@, passphrase_text(passphrase), path@),
{
    match parse_phrase(mnemonic) {
        Err(e) => Err(join2("Invalid mnemonic: ", e.as_str())),
        Ok(_) => {
            let pass: &str = match passphrase {
                Some(p) => p,
                None => {
                    proof {
                        reveal_strlit("");
                    }
                    ""
                },
            };
            assert(pass@ =~= passphrase_text(passphrase));
            let mut seed = seed_of(mnemonic, pass);
            let derived = derive_from_seed(&seed, path);
            wipe(&mut seed);
            match derived {
                Err(e) => Err(join2("Failed to derive key: ", e.as_str())),
                Ok(k) => Ok(k),
            }
        },
    }
}

} // verus!
