//! Format checks of addresses without a message, for callers that only have
//! the address: by chain name in any case, and detection of the chains that
//! an address could belong to.

use crate::chains::address_validation::{
    is_btc_address, is_eth_address, is_kaspa_address, is_sol_address, is_tron_address,
    validate_btc_address, validate_eth_address, validate_sol_address, validate_tron_address,
};
use crate::text::{chars_of, has_prefix, lowercased, same_text, starts_with, str_lowercase};
use vstd::prelude::*;
use vstd::string::*;

verus! {

/// Whether `address` carries the prefix `kaspa:` or `kaspatest:` and decodes
/// as a Kaspa address.
pub fn validate_kaspa_address(address: &str) -> (r: bool)
    ensures
        r == is_kaspa_address(address@),
{
    crate::chains::address_validation::validate_kaspa_address(address)
}

/// Whether `address` has the format of the chain whose lowercased name is
/// `chain`; `false` for an unknown chain.
pub open spec fn format_ok(chain: Seq<char>, address: Seq<char>) -> bool {
    if chain == "eth"@ || chain == "bnb"@ {
        is_eth_address(address)
    } else if chain == "btc"@ {
        is_btc_address(address)
    } else if chain == "sol"@ {
        is_sol_address(address)
    } else if chain == "tron"@ {
        is_tron_address(address)
    } else if chain == "kaspa"@ || chain == "kas"@ {
        is_kaspa_address(address)
    } else {
        false
    }
}

/// Whether `address` has the format of the chain named `chain`, in any
/// case: `eth`, `bnb`, `btc`, `sol`, `tron`, and `kaspa` or `kas`.
pub fn validate_address(chain: &str, address: &str) -> (r: bool)
    ensures
        r == format_ok(str_lowercase(chain@), address@),
{
    let lower = lowercased(chain);
    let name = lower.as_str();
    if same_text(name, "eth") || same_text(name, "bnb") {
        validate_eth_address(address)
    } else if same_text(name, "btc") {
        validate_btc_address(address)
    } else if same_text(name, "sol") {
        validate_sol_address(address)
    } else if same_text(name, "tron") {
        validate_tron_address(address)
    } else if same_text(name, "kaspa") || same_text(name, "kas") {
        validate_kaspa_address(address)
    } else {
        false
    }
}

/// The chains whose format `address` has, in the order Ethereum, BNB Chain,
/// Bitcoin, Solana, Tron, Kaspa. Ethereum and BNB Chain come together; an
/// address that starts with `T` is not reported for Solana.
pub open spec fn chains_of(address: Seq<char>) -> Seq<Seq<char>> {
    (if is_eth_address(address) {
        seq!["eth"@, "bnb"@]
    } else {
        Seq::<Seq<char>>::empty()
    }) + (if is_btc_address(address) {
        seq!["btc"@]
    } else {
        Seq::<Seq<char>>::empty()
    }) + (if is_sol_address(address) && !has_prefix(address, "T"@) {
        seq!["sol"@]
    } else {
        Seq::<Seq<char>>::empty()
    }) + (if is_tron_address(address) {
        seq!["tron"@]
    } else {
        Seq::<Seq<char>>::empty()
    }) + (if is_kaspa_address(address) {
        seq!["kaspa"@]
    } else {
        Seq::<Seq<char>>::empty()
    })
}

/// The strings of `names`, each by its view.
pub open spec fn names_view(names: Seq<String>) -> Seq<Seq<char>> {
    Seq::new(names.len(), |i: int| names[i]@)
}

/// The chains whose format `address` has, most likely first.
pub fn detect_chain_from_address(address: &str) -> (chains: Vec<String>)
    ensures
        names_view(chains@) == chains_of(address@),
{
    let mut chains: Vec<String> = Vec::new();
    let ghost mut model: Seq<Seq<char>> = Seq::empty();
    assert(names_view(chains@) =~= model);
    if validate_eth_address(address) {
        chains.push(String::from_str("eth"));
        chains.push(String::from_str("bnb"));
        proof {
            model = model + seq!["eth"@, "bnb"@];
        }
        assert(names_view(chains@) =~= model);
    } else {
        proof {
            model = model + Seq::<Seq<char>>::empty();
        }
    }
    if validate_btc_address(address) {
        chains.push(String::from_str("btc"));
        proof {
            model = model + seq!["btc"@];
        }
        assert(names_view(chains@) =~= model);
    } else {
        proof {
            model = model + Seq::<Seq<char>>::empty();
        }
    }
    let chars = chars_of(address);
    if validate_sol_address(address) && !starts_with(&chars, "T") {
        chains.push(String::from_str("sol"));
        proof {
            model = model + seq!["sol"@];
        }
        assert(names_view(chains@) =~= model);
    } else {
        proof {
            model = model + Seq::<Seq<char>>::empty();
        }
    }
    if validate_tron_address(address) {
        chains.push(String::from_str("tron"));
        proof {
            model = model + seq!["tron"@];
        }
        assert(names_view(chains@) =~= model);
    } else {
        proof {
            model = model + Seq::<Seq<char>>::empty();
        }
    }
    if validate_kaspa_address(address) {
        chains.push(String::from_str("kaspa"));
        proof {
            model = model + seq!["kaspa"@];
        }
        assert(names_view(chains@) =~= model);
    } else {
        proof {
            model = model + Seq::<Seq<char>>::empty();
        }
    }
    assert(names_view(chains@) =~= model);
    chains
}

} // verus!
