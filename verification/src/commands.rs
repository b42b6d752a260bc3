//! The wallet's entry points for callers that name the chain as text.

use crate::chains::address_validation::{
    validate_address_with_message as validate_with_message, verdict, AddressValidationResult,
};
use crate::chains::{
    address_for, derive_address as derive_for, index_of_path, sign_transaction as sign_for,
    signing_outcome, ChainType,
};
use crate::text::{join2, lowercased, same_text, str_lowercase, str_uppercase, text_result, uppercased};
use vstd::prelude::*;
use vstd::string::*;

verus! {

/// The chain that a lowercased name stands for: `eth`, `btc`, `sol`, `bnb`,
/// `tron`, and `kaspa` or `kas`.
pub open spec fn chain_named(lower: Seq<char>) -> Option<ChainType> {
    if lower == "eth"@ {
        Some(ChainType::Eth)
    } else if lower == "btc"@ {
        Some(ChainType::Btc)
    } else if lower == "sol"@ {
        Some(ChainType::Sol)
    } else if lower == "bnb"@ {
        Some(ChainType::Bnb)
    } else if lower == "tron"@ {
        Some(ChainType::Tron)
    } else if lower == "kaspa"@ || lower == "kas"@ {
        Some(ChainType::Kaspa)
    } else {
        None
    }
}

/// What [`parse_chain`] returns for a name.
pub open spec fn chain_outcome(name: Seq<char>) -> Result<ChainType, Seq<char>> {
    match chain_named(str_lowercase(name)) {
        Some(c) => Ok(c),
        None => Err("Unsupported chain: "@ + name),
    }
}

/// The views behind a chain result.
pub open spec fn chain_view(r: Result<ChainType, String>) -> Result<ChainType, Seq<char>> {
    match r {
        Ok(c) => Ok(c),
        Err(e) => Err(e@),
    }
}

/// Reads the name of a chain, in any case. An unknown name gives an error
/// that repeats it.
pub fn parse_chain(name: &str) -> (r: Result<ChainType, String>)
    ensures
        chain_view(r) == chain_outcome(name@),
{
    let lower = lowercased(name);
    let l = lower.as_str();
    if same_text(l, "eth") {
        Ok(ChainType::Eth)
    } else if same_text(l, "btc") {
        Ok(ChainType::Btc)
    } else if same_text(l, "sol") {
        Ok(ChainType::Sol)
    } else if same_text(l, "bnb") {
        Ok(ChainType::Bnb)
    } else if same_text(l, "tron") {
        Ok(ChainType::Tron)
    } else if same_text(l, "kaspa") || same_text(l, "kas") {
        Ok(ChainType::Kaspa)
    } else {
        Err(join2("Unsupported chain: ", name))
    }
}

/// Derives the address of the chain named `chain` for `mnemonic`, at the
/// address index that the last segment of `derivation_path` gives, or
/// zero.
pub fn derive_address(chain: &str, mnemonic: &str, derivation_path: Option<&str>) -> (r: Result<
    String,
    String,
>)
    ensures
        text_result(r) == (match chain_outcome(chain@) {
            Err(e) => Err(e),
            Ok(c) => address_for(c, mnemonic@, index_of_path(derivation_path)),
        }),
{
    match parse_chain(chain) {
        Err(e) => Err(e),
        Ok(c) => derive_for(c, mnemonic, derivation_path),
    }
}

/// Signs the transaction that `tx_data` describes as JSON, for the chain
/// named `chain`, and returns the signed transaction as JSON.
pub fn sign_transaction(chain: &str, mnemonic: &str, tx_data: &str) -> (r: Result<String, String>)
    ensures
        text_result(r) == (match chain_outcome(chain@) {
            Err(e) => Err(e),
            Ok(c) => signing_outcome(c, mnemonic@, tx_data@),
        }),
{
    match parse_chain(chain) {
        Err(e) => Err(e),
        Ok(c) => sign_for(c, mnemonic, tx_data),
    }
}

/// Validates `address` for the chain named `chain`, in any case, and says
/// why when it is rejected.
pub fn validate_address_with_message(chain: &str, address: &str) -> (r: AddressValidationResult)
    ensures
        r@ == verdict(str_uppercase(chain@), address@),
{
    let upper = uppercased(chain);
    validate_with_message(upper.as_str(), address)
}

/// Whether `address` is valid for the chain named `chain`, in any case.
pub fn validate_address(chain: &str, address: &str) -> (r: bool)
    ensures
        r == verdict(str_uppercase(chain@), address@).is_valid,
{
    validate_address_with_message(chain, address).is_valid
}

} // verus!
