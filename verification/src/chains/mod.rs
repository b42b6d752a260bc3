//! Per-chain address derivation, signing and address validation, and the
//! dispatcher that routes a chain to its module.

pub mod address_validation;
pub mod bitcoin;
pub mod bnb;
pub mod ethereum;
pub mod kaspa;
pub mod solana;
pub mod tron;

use crate::amount::{all_digits, digits_number, digits_only, digits_value};
use crate::chains::bitcoin::{
    btc_address_outcome, btc_signing_outcome, derive_btc_address, sign_btc_transaction,
    BtcTransaction, BtcTransactionModel,
};
use crate::chains::ethereum::{
    derive_eth_address, eth_address_outcome, eth_signing_outcome, sign_eth_transaction,
    EthTransaction, EthTransactionModel,
};
use crate::chains::kaspa::{
    derive_kaspa_address, kaspa_address_outcome, kaspa_signing_outcome, sign_kaspa_transaction,
    KaspaTransaction, KaspaTransactionModel,
};
use crate::chains::solana::{
    derive_sol_address, sign_sol_transaction, sol_address_outcome, sol_signing_outcome,
    SolTransaction, SolTransactionModel,
};
use crate::chains::tron::{
    derive_tron_address, sign_tron_transaction, tron_address_outcome, tron_signing_outcome,
    TronTransaction, TronTransactionModel,
};
use crate::json::{
    get_number, get_optional_text, get_required_text, json_object_parse, json_quoted, members,
    number_of, optional_text, parse_object, quote, required_text, JsonField, JsonModel,
};
use crate::text::{chars_of, join2, join7, text_result};
use vstd::prelude::*;
use vstd::string::*;

verus! {

/// The chains that the wallet knows.
#[derive(Debug, Clone, Copy, PartialEq, Eq, Structural)]
pub enum ChainType {
    Eth,
    Btc,
    Sol,
    Bnb,
    Tron,
    Kaspa,
}

/// Index at which the last segment of a path starts: behind its last slash,
/// or at the front where it has none.
pub open spec fn segment_start(path: Seq<char>) -> int
    decreases path.len(),
{
    if path.len() == 0 {
        0
    } else if path.last() == '/' {
        path.len() as int
    } else {
        segment_start(path.drop_last())
    }
}

/// The number that `s` spells as an unsigned 32-bit integer: an optional `+`
/// and at least one digit, nothing else, and a value within range.
pub open spec fn parse_u32(s: Seq<char>) -> Option<u32> {
    let body = if s.len() > 0 && s[0] == '+' {
        s.skip(1)
    } else {
        s
    };
    if body.len() > 0 && all_digits(body) && digits_value(body) <= u32::MAX {
        Some(digits_value(body) as u32)
    } else {
        None
    }
}

/// The address index that a caller's path asks for: the number in its last
/// segment, and zero where there is no path or no number there.
pub open spec fn index_of_path(path: Option<&str>) -> u32 {
    match path {
        None => 0,
        Some(p) => match parse_u32(p@.skip(segment_start(p@))) {
            Some(i) => i,
            None => 0,
        },
    }
}

/// The address index that a caller's path asks for.
pub fn path_index(path: Option<&str>) -> (index: u32)
    ensures
        index == index_of_path(path),
{
    let p = match path {
        None => { return 0; },
        Some(p) => p,
    };
    let chars = chars_of(p);
    let n = chars.len();
    let mut k: usize = n;
    assert(chars@.take(n as int) =~= chars@);
    while k > 0 && chars[k - 1] != '/'
        invariant
            k <= n,
            n == chars.len(),
            segment_start(chars@) == segment_start(chars@.take(k as int)),
        decreases k,
    {
        assert(chars@.take(k as int).drop_last() =~= chars@.take(k as int - 1));
        k = k - 1;
    }
    assert(segment_start(chars@) == k) by {
        if k > 0 {
            assert(chars@.take(k as int).last() == chars@[k as int - 1]);
        }
    }
    let ghost segment = chars@.skip(k as int);
    let from: usize = if k < n && chars[k] == '+' {
        k + 1
    } else {
        k
    };
    proof {
        if k < n {
            assert(segment[0] == chars@[k as int]);
        }
        let body = if segment.len() > 0 && segment[0] == '+' {
            segment.skip(1)
        } else {
            segment
        };
        assert(body =~= chars@.subrange(from as int, n as int));
    }
    if from == n || !digits_only(&chars, from, n) {
        return 0;
    }
    let value = digits_number(&chars, from, n);
    if value > 0xffff_ffff {
        0
    } else {
        value as u32
    }
}

/// The first part of a pair, or the error.
pub open spec fn first_of(r: Result<(Seq<char>, Seq<char>), Seq<char>>) -> Result<
    Seq<char>,
    Seq<char>,
> {
    match r {
        Ok(p) => Ok(p.0),
        Err(e) => Err(e),
    }
}

/// The address of `chain` at `index` for a mnemonic without passphrase.
/// Bitcoin addresses are native segwit; BNB Chain shares Ethereum's.
pub open spec fn address_for(chain: ChainType, mnemonic: Seq<char>, index: u32) -> Result<
    Seq<char>,
    Seq<char>,
> {
    let none = Seq::<char>::empty();
    match chain {
        ChainType::Eth => first_of(eth_address_outcome(mnemonic, none, index)),
        ChainType::Bnb => first_of(eth_address_outcome(mnemonic, none, index)),
        ChainType::Btc => first_of(btc_address_outcome(mnemonic, none, index, "native_segwit"@)),
        ChainType::Sol => first_of(sol_address_outcome(mnemonic, none, index)),
        ChainType::Tron => first_of(tron_address_outcome(mnemonic, none, index)),
        ChainType::Kaspa => first_of(kaspa_address_outcome(mnemonic, none, index)),
    }
}

/// Derives the address of `chain` for `mnemonic`. The address index is the
/// number in the last segment of `derivation_path`, or zero.
pub fn derive_address(chain: ChainType, mnemonic: &str, derivation_path: Option<&str>) -> (r:
    Result<String, String>)
    ensures
        text_result(r) == address_for(chain, mnemonic@, index_of_path(derivation_path)),
{
    let index = path_index(derivation_path);
    match chain {
        ChainType::Eth => match derive_eth_address(mnemonic, None, index) {
            Ok(a) => Ok(a.address),
            Err(e) => Err(e),
        },
        ChainType::Bnb => match derive_eth_address(mnemonic, None, index) {
            Ok(a) => Ok(a.address),
            Err(e) => Err(e),
        },
        ChainType::Btc => match derive_btc_address(mnemonic, None, index, "native_segwit") {
            Ok(a) => Ok(a.address),
            Err(e) => Err(e),
        },
        ChainType::Sol => match derive_sol_address(mnemonic, None, index) {
            Ok(a) => Ok(a.address),
            Err(e) => Err(e),
        },
        ChainType::Tron => match derive_tron_address(mnemonic, None, index) {
            Ok(a) => Ok(a.address),
            Err(e) => Err(e),
        },
        ChainType::Kaspa => match derive_kaspa_address(mnemonic, None, index) {
            Ok(a) => Ok(a.address),
            Err(e) => Err(e),
        },
    }
}

/// The Ethereum or BNB Chain transaction in the members of an object.
pub open spec fn eth_fields(doc: Seq<(Seq<char>, JsonModel)>) -> Result<
    EthTransactionModel,
    Seq<char>,
> {
    match required_text(doc, "to"@) {
        Err(e) => Err(e),
        Ok(to) => match required_text(doc, "value"@) {
            Err(e) => Err(e),
            Ok(value) => match required_text(doc, "gas_price"@) {
                Err(e) => Err(e),
                Ok(gas_price) => match required_text(doc, "gas_limit"@) {
                    Err(e) => Err(e),
                    Ok(gas_limit) => match required_text(doc, "nonce"@) {
                        Err(e) => Err(e),
                        Ok(nonce) => match optional_text(doc, "data"@) {
                            Err(e) => Err(e),
                            Ok(data) => Ok(
                                EthTransactionModel { to, value, gas_price, gas_limit, nonce, data },
                            ),
                        },
                    },
                },
            },
        },
    }
}

/// The Bitcoin payment in the members of an object.
pub open spec fn btc_fields(doc: Seq<(Seq<char>, JsonModel)>) -> Result<
    BtcTransactionModel,
    Seq<char>,
> {
    match required_text(doc, "to"@) {
        Err(e) => Err(e),
        Ok(to) => match required_text(doc, "amount"@) {
            Err(e) => Err(e),
            Ok(amount) => match optional_text(doc, "fee_rate"@) {
                Err(e) => Err(e),
                Ok(fee_rate) => Ok(BtcTransactionModel { to, amount, fee_rate }),
            },
        },
    }
}

/// The Solana transfer in the members of an object.
pub open spec fn sol_fields(doc: Seq<(Seq<char>, JsonModel)>) -> Result<
    SolTransactionModel,
    Seq<char>,
> {
    match required_text(doc, "to"@) {
        Err(e) => Err(e),
        Ok(to) => match required_text(doc, "amount"@) {
            Err(e) => Err(e),
            Ok(amount) => match optional_text(doc, "recent_blockhash"@) {
                Err(e) => Err(e),
                Ok(recent_blockhash) => Ok(SolTransactionModel { to, amount, recent_blockhash }),
            },
        },
    }
}

/// The Tron transfer in the members of an object.
pub open spec fn tron_fields(doc: Seq<(Seq<char>, JsonModel)>) -> Result<
    TronTransactionModel,
    Seq<char>,
> {
    match required_text(doc, "to"@) {
        Err(e) => Err(e),
        Ok(to) => match required_text(doc, "value"@) {
            Err(e) => Err(e),
            Ok(value) => match optional_text(doc, "gas_price"@) {
                Err(e) => Err(e),
                Ok(gas_price) => match optional_text(doc, "gas_limit"@) {
                    Err(e) => Err(e),
                    Ok(gas_limit) => Ok(TronTransactionModel { to, value, gas_price, gas_limit }),
                },
            },
        },
    }
}

/// The Kaspa transfer in the members of an object.
pub open spec fn kaspa_fields(doc: Seq<(Seq<char>, JsonModel)>) -> Result<
    KaspaTransactionModel,
    Seq<char>,
> {
    match required_text(doc, "to"@) {
        Err(e) => Err(e),
        Ok(to) => match required_text(doc, "amount"@) {
            Err(e) => Err(e),
            Ok(amount) => match optional_text(doc, "fee"@) {
                Err(e) => Err(e),
                Ok(fee) => Ok(KaspaTransactionModel { to, amount, fee }),
            },
        },
    }
}

/// The address index in the members of an object: the member `index` cut to
/// 32 bits where it is a non-negative integer, and zero otherwise.
pub open spec fn index_in(doc: Seq<(Seq<char>, JsonModel)>) -> u32 {
    match number_of(doc, "index"@) {
        Some(n) => (n % 0x1_0000_0000) as u32,
        None => 0,
    }
}

/// A signed transaction as JSON: the raw transaction, and a second member
/// under the given name.
pub open spec fn signed_json(raw: Seq<char>, second_name: Seq<char>, second: Seq<char>) -> Seq<
    char,
> {
    "{\"raw_transaction\":"@ + json_quoted(raw) + ",\""@ + second_name + "\":"@ + json_quoted(
        second,
    ) + "}"@
}

/// A signing result as JSON, or its error.
pub open spec fn as_json(r: Result<(Seq<char>, Seq<char>), Seq<char>>, second_name: Seq<char>)
    -> Result<Seq<char>, Seq<char>> {
    match r {
        Ok(p) => Ok(signed_json(p.0, second_name, p.1)),
        Err(e) => Err(e),
    }
}

/// What signing yields for the members of a request, for a mnemonic without
/// passphrase: the request must fit the chain's schema, the address index is
/// the member `index` or zero, and the outcome is written as JSON.
pub open spec fn signing_of_members(
    chain: ChainType,
    mnemonic: Seq<char>,
    doc: Seq<(Seq<char>, JsonModel)>,
) -> Result<Seq<char>, Seq<char>> {
    let none = Seq::<char>::empty();
    let index = index_in(doc);
    match chain {
        ChainType::Eth => match eth_fields(doc) {
            Err(e) => Err("Invalid ETH transaction: "@ + e),
            Ok(tx) => as_json(eth_signing_outcome(mnemonic, none, index, tx), "transaction_hash"@),
        },
        ChainType::Bnb => match eth_fields(doc) {
            Err(e) => Err("Invalid BNB transaction: "@ + e),
            Ok(tx) => as_json(eth_signing_outcome(mnemonic, none, index, tx), "transaction_hash"@),
        },
        ChainType::Btc => match btc_fields(doc) {
            Err(e) => Err("Invalid BTC transaction: "@ + e),
            Ok(tx) => as_json(btc_signing_outcome(mnemonic, none, index, tx), "transaction_hash"@),
        },
        ChainType::Sol => match sol_fields(doc) {
            Err(e) => Err("Invalid SOL transaction: "@ + e),
            Ok(tx) => as_json(sol_signing_outcome(mnemonic, none, index, tx), "signature"@),
        },
        ChainType::Tron => match tron_fields(doc) {
            Err(e) => Err("Invalid TRON transaction: "@ + e),
            Ok(tx) => as_json(tron_signing_outcome(mnemonic, none, index, tx), "transaction_hash"@),
        },
        ChainType::Kaspa => match kaspa_fields(doc) {
            Err(e) => Err("Invalid KASPA transaction: "@ + e),
            Ok(tx) => as_json(
                kaspa_signing_outcome(mnemonic, none, index, tx),
                "transaction_hash"@,
            ),
        },
    }
}

/// The name of a chain in error messages.
pub open spec fn chain_label(chain: ChainType) -> Seq<char> {
    match chain {
        ChainType::Eth => "ETH"@,
        ChainType::Bnb => "BNB"@,
        ChainType::Btc => "BTC"@,
        ChainType::Sol => "SOL"@,
        ChainType::Tron => "TRON"@,
        ChainType::Kaspa => "KASPA"@,
    }
}

/// What [`sign_transaction`] returns: the text must be JSON and an object,
/// and then signing goes by its members.
pub open spec fn signing_outcome(chain: ChainType, mnemonic: Seq<char>, tx_data: Seq<char>)
    -> Result<Seq<char>, Seq<char>> {
    match json_object_parse(tx_data) {
        Err(e) => Err("Invalid transaction data: "@ + e),
        Ok(None) => Err("Invalid "@ + chain_label(chain) + " transaction: expected an object"@),
        Ok(Some(doc)) => signing_of_members(chain, mnemonic, doc),
    }
}

/// Reads an Ethereum or BNB Chain transaction from the members of an
/// object.
pub fn eth_transaction_from(fields: &Vec<JsonField>) -> (r: Result<EthTransaction, String>)
    ensures
        match r {
            Ok(tx) => eth_fields(members(fields@)) == Ok::<EthTransactionModel, Seq<char>>(tx@),
            Err(e) => eth_fields(members(fields@)) == Err::<EthTransactionModel, Seq<char>>(e@),
        },
{
    let to = match get_required_text(fields, "to") {
        Ok(t) => t,
        Err(e) => { return Err(e); },
    };
    let value = match get_required_text(fields, "value") {
        Ok(t) => t,
        Err(e) => { return Err(e); },
    };
    let gas_price = match get_required_text(fields, "gas_price") {
        Ok(t) => t,
        Err(e) => { return Err(e); },
    };
    let gas_limit = match get_required_text(fields, "gas_limit") {
        Ok(t) => t,
        Err(e) => { return Err(e); },
    };
    let nonce = match get_required_text(fields, "nonce") {
        Ok(t) => t,
        Err(e) => { return Err(e); },
    };
    let data = match get_optional_text(fields, "data") {
        Ok(t) => t,
        Err(e) => { return Err(e); },
    };
    Ok(EthTransaction { to, value, gas_price, gas_limit, nonce, data })
}

/// Reads a Bitcoin payment from the members of an object.
pub fn btc_transaction_from(fields: &Vec<JsonField>) -> (r: Result<BtcTransaction, String>)
    ensures
        match r {
            Ok(tx) => btc_fields(members(fields@)) == Ok::<BtcTransactionModel, Seq<char>>(tx@),
            Err(e) => btc_fields(members(fields@)) == Err::<BtcTransactionModel, Seq<char>>(e@),
        },
{
    let to = match get_required_text(fields, "to") {
        Ok(t) => t,
        Err(e) => { return Err(e); },
    };
    let amount = match get_required_text(fields, "amount") {
        Ok(t) => t,
        Err(e) => { return Err(e); },
    };
    let fee_rate = match get_optional_text(fields, "fee_rate") {
        Ok(t) => t,
        Err(e) => { return Err(e); },
    };
    Ok(BtcTransaction { to, amount, fee_rate })
}

/// Reads a Solana transfer from the members of an object.
pub fn sol_transaction_from(fields: &Vec<JsonField>) -> (r: Result<SolTransaction, String>)
    ensures
        match r {
            Ok(tx) => sol_fields(members(fields@)) == Ok::<SolTransactionModel, Seq<char>>(tx@),
            Err(e) => sol_fields(members(fields@)) == Err::<SolTransactionModel, Seq<char>>(e@),
        },
{
    let to = match get_required_text(fields, "to") {
        Ok(t) => t,
        Err(e) => { return Err(e); },
    };
    let amount = match get_required_text(fields, "amount") {
        Ok(t) => t,
        Err(e) => { return Err(e); },
    };
    let recent_blockhash = match get_optional_text(fields, "recent_blockhash") {
        Ok(t) => t,
        Err(e) => { return Err(e); },
    };
    Ok(SolTransaction { to, amount, recent_blockhash })
}

/// Reads a Tron transfer from the members of an object.
pub fn tron_transaction_from(fields: &Vec<JsonField>) -> (r: Result<TronTransaction, String>)
    ensures
        match r {
            Ok(tx) => tron_fields(members(fields@)) == Ok::<TronTransactionModel, Seq<char>>(tx@),
            Err(e) => tron_fields(members(fields@)) == Err::<TronTransactionModel, Seq<char>>(e@),
        },
{
    let to = match get_required_text(fields, "to") {
        Ok(t) => t,
        Err(e) => { return Err(e); },
    };
    let value = match get_required_text(fields, "value") {
        Ok(t) => t,
        Err(e) => { return Err(e); },
    };
    let gas_price = match get_optional_text(fields, "gas_price") {
        Ok(t) => t,
        Err(e) => { return Err(e); },
    };
    let gas_limit = match get_optional_text(fields, "gas_limit") {
        Ok(t) => t,
        Err(e) => { return Err(e); },
    };
    Ok(TronTransaction { to, value, gas_price, gas_limit })
}

/// Reads a Kaspa transfer from the members of an object.
pub fn kaspa_transaction_from(fields: &Vec<JsonField>) -> (r: Result<KaspaTransaction, String>)
    ensures
        match r {
            Ok(tx) => kaspa_fields(members(fields@)) == Ok::<KaspaTransactionModel, Seq<char>>(
                tx@,
            ),
            Err(e) => kaspa_fields(members(fields@)) == Err::<KaspaTransactionModel, Seq<char>>(
                e@,
            ),
        },
{
    let to = match get_required_text(fields, "to") {
        Ok(t) => t,
        Err(e) => { return Err(e); },
    };
    let amount = match get_required_text(fields, "amount") {
        Ok(t) => t,
        Err(e) => { return Err(e); },
    };
    let fee = match get_optional_text(fields, "fee") {
        Ok(t) => t,
        Err(e) => { return Err(e); },
    };
    Ok(KaspaTransaction { to, amount, fee })
}

/// The address index in the members of an object.
pub fn index_from(fields: &Vec<JsonField>) -> (index: u32)
    ensures
        index == index_in(members(fields@)),
{
    match get_number(fields, "index") {
        Some(n) => (n % 0x1_0000_0000) as u32,
        None => 0,
    }
}

/// Writes a signed transaction as JSON.
pub fn write_signed(raw: &str, second_name: &str, second: &str) -> (r: Result<String, String>)
    ensures
        text_result(r) == Ok::<Seq<char>, Seq<char>>(signed_json(raw@, second_name@, second@)),
{
    let a = match quote(raw) {
        Ok(t) => t,
        Err(e) => { return Err(join2("Failed to serialize: ", e.as_str())); },
    };
    let b = match quote(second) {
        Ok(t) => t,
        Err(e) => { return Err(join2("Failed to serialize: ", e.as_str())); },
    };
    Ok(join7("{\"raw_transaction\":", a.as_str(), ",\"", second_name, "\":", b.as_str(), "}"))
}

/// Signs the request in `fields` for `chain`.
pub fn sign_members(chain: ChainType, mnemonic: &str, fields: &Vec<JsonField>) -> (r: Result<
    String,
    String,
>)
    ensures
        text_result(r) == signing_of_members(chain, mnemonic@, members(fields@)),
{
    let index = index_from(fields);
    match chain {
        ChainType::Eth => {
            let tx = match eth_transaction_from(fields) {
                Ok(tx) => tx,
                Err(e) => { return Err(join2("Invalid ETH transaction: ", e.as_str())); },
            };
            match sign_eth_transaction(mnemonic, None, index, tx) {
                Ok(s) => write_signed(
                    s.raw_transaction.as_str(),
                    "transaction_hash",
                    s.transaction_hash.as_str(),
                ),
                Err(e) => Err(e),
            }
        },
        ChainType::Bnb => {
            let tx = match eth_transaction_from(fields) {
                Ok(tx) => tx,
                Err(e) => { return Err(join2("Invalid BNB transaction: ", e.as_str())); },
            };
            match sign_eth_transaction(mnemonic, None, index, tx) {
                Ok(s) => write_signed(
                    s.raw_transaction.as_str(),
                    "transaction_hash",
                    s.transaction_hash.as_str(),
                ),
                Err(e) => Err(e),
            }
        },
        ChainType::Btc => {
            let tx = match btc_transaction_from(fields) {
                Ok(tx) => tx,
                Err(e) => { return Err(join2("Invalid BTC transaction: ", e.as_str())); },
            };
            match sign_btc_transaction(mnemonic, None, index, tx) {
                Ok(s) => write_signed(
                    s.raw_transaction.as_str(),
                    "transaction_hash",
                    s.transaction_hash.as_str(),
                ),
                Err(e) => Err(e),
            }
        },
        ChainType::Sol => {
            let tx = match sol_transaction_from(fields) {
                Ok(tx) => tx,
                Err(e) => { return Err(join2("Invalid SOL transaction: ", e.as_str())); },
            };
            match sign_sol_transaction(mnemonic, None, index, tx) {
                Ok(s) => write_signed(s.raw_transaction.as_str(), "signature", s.signature.as_str()),
                Err(e) => Err(e),
            }
        },
        ChainType::Tron => {
            let tx = match tron_transaction_from(fields) {
                Ok(tx) => tx,
                Err(e) => { return Err(join2("Invalid TRON transaction: ", e.as_str())); },
            };
            match sign_tron_transaction(mnemonic, None, index, tx) {
                Ok(s) => write_signed(
                    s.raw_transaction.as_str(),
                    "transaction_hash",
                    s.transaction_hash.as_str(),
                ),
                Err(e) => Err(e),
            }
        },
        ChainType::Kaspa => {
            let tx = match kaspa_transaction_from(fields) {
                Ok(tx) => tx,
                Err(e) => { return Err(join2("Invalid KASPA transaction: ", e.as_str())); },
            };
            match sign_kaspa_transaction(mnemonic, None, index, tx) {
                Ok(s) => write_signed(
                    s.raw_transaction.as_str(),
                    "transaction_hash",
                    s.transaction_hash.as_str(),
                ),
                Err(e) => Err(e),
            }
        },
    }
}

fn label_of(chain: ChainType) -> (label: &'static str)
    ensures
        label@ == chain_label(chain),
{
    match chain {
        ChainType::Eth => "ETH",
        ChainType::Bnb => "BNB",
        ChainType::Btc => "BTC",
        ChainType::Sol => "SOL",
        ChainType::Tron => "TRON",
        ChainType::Kaspa => "KASPA",
    }
}

/// Signs the transaction that `tx_data` describes as a JSON object in the
/// schema of `chain`, with the key at the address index that the member
/// `index` gives (zero without one), and returns the signed transaction as
/// JSON. The fields are read by their names: JSON that is no object, an
/// array of the values in order too, is refused.
pub fn sign_transaction(chain: ChainType, mnemonic: &str, tx_data: &str) -> (r: Result<
    String,
    String,
>)
    ensures
        text_result(r) == signing_outcome(chain, mnemonic@, tx_data@),
{
    match parse_object(tx_data) {
        Err(e) => Err(join2("Invalid transaction data: ", e.as_str())),
        Ok(None) => {
            let head = join2("Invalid ", label_of(chain));
            Err(join2(head.as_str(), " transaction: expected an object"))
        },
        Ok(Some(fields)) => sign_members(chain, mnemonic, &fields),
    }
}

} // verus!
