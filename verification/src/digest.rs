//! Hash functions, each taken from the crate that the chain in question
//! uses. The digests are named, not defined: nothing is proved of their
//! values but that equal inputs give equal digests.

use sha2::Digest;
use vstd::prelude::*;

verus! {

/// SHA-256 of `data` as the `sha2` crate computes it; 32 bytes.
pub uninterp spec fn sha256_digest(data: Seq<u8>) -> Seq<u8>;

/// SHA-256 of `data` as the `bitcoin` crate's hash module computes it; 32
/// bytes.
pub uninterp spec fn bitcoin_sha256_digest(data: Seq<u8>) -> Seq<u8>;

/// Keccak-256 of `data` as the `sha3` crate computes it; 32 bytes.
pub uninterp spec fn keccak256_digest(data: Seq<u8>) -> Seq<u8>;

/// Keccak-256 of `data` as `ethers_core::utils::keccak256` computes it; 32
/// bytes.
pub uninterp spec fn ethers_keccak256_digest(data: Seq<u8>) -> Seq<u8>;

/// SHA-256 of `data`.
///
/// Trusted: wraps `sha2::Sha256::digest`. The contract names the digest; its
/// length is in the type.
#[verifier::external_body]
pub(crate) fn sha256(data: &[u8]) -> (out: [u8; 32])
    ensures
        out@ == sha256_digest(data@),
{
    sha2::Sha256::digest(data).into()
}

/// SHA-256 of `data`.
///
/// Trusted: wraps `bitcoin::hashes::sha256::Hash::hash`. The contract names
/// the digest; its length is in the type.
#[verifier::external_body]
pub(crate) fn bitcoin_sha256(data: &[u8]) -> (out: [u8; 32])
    ensures
        out@ == bitcoin_sha256_digest(data@),
{
    bitcoin::hashes::Hash::to_byte_array(
        <bitcoin::hashes::sha256::Hash as bitcoin::hashes::Hash>::hash(data),
    )
}

/// Keccak-256 of `data`.
///
/// Trusted: wraps `sha3::Keccak256::digest`. The contract names the digest;
/// its length is in the type.
#[verifier::external_body]
pub(crate) fn keccak256(data: &[u8]) -> (out: [u8; 32])
    ensures
        out@ == keccak256_digest(data@),
{
    sha3::Keccak256::digest(data).into()
}

/// Keccak-256 of `data`.
///
/// Trusted: wraps `ethers_core::utils::keccak256`. The contract names the
/// digest; its length is in the type.
#[verifier::external_body]
pub(crate) fn ethers_keccak256(data: &[u8]) -> (out: [u8; 32])
    ensures
        out@ == ethers_keccak256_digest(data@),
{
    ethers_core::utils::keccak256(data)
}

} // verus!
