//! Format checks of address strings, per chain, with a reason for each
//! rejection.

use crate::chains::bitcoin::{btc_address_parse, parse_address};
use crate::chains::kaspa::{kaspa_decode, Address};
use crate::text::{
    byte_len, chars_of, decimal_digits, decimal_text, has_prefix, join2, join3, same_text,
    starts_with, str_trim, trimmed,
};
use vstd::prelude::*;
use vstd::string::*;

verus! {

/// Hexadecimal digit, either case.
pub open spec fn is_hex_digit(c: char) -> bool {
    ('0' <= c <= '9') || ('a' <= c <= 'f') || ('A' <= c <= 'F')
}

/// Character of the Base58 alphabet, which leaves out `0`, `O`, `I` and `l`.
pub open spec fn is_base58_char(c: char) -> bool {
    ('1' <= c <= '9') || ('A' <= c <= 'H') || ('J' <= c <= 'N') || ('P' <= c <= 'Z') || ('a' <= c
        <= 'k') || ('m' <= c <= 'z')
}

/// All characters of `s` from index `from` on are hexadecimal digits.
pub open spec fn all_hex_from(s: Seq<char>, from: int) -> bool {
    forall|i: int| from <= i < s.len() ==> is_hex_digit(#[trigger] s[i])
}

/// All characters of `s` from index `from` on are in the Base58 alphabet.
pub open spec fn all_base58_from(s: Seq<char>, from: int) -> bool {
    forall|i: int| from <= i < s.len() ==> is_base58_char(#[trigger] s[i])
}

/// An Ethereum-style address: `0x` and 40 hexadecimal digits.
pub open spec fn is_eth_address(s: Seq<char>) -> bool {
    s.len() == 42 && s[0] == '0' && s[1] == 'x' && all_hex_from(s, 2)
}

/// A Solana address: 32 to 44 Base58 characters.
pub open spec fn is_sol_address(s: Seq<char>) -> bool {
    32 <= s.len() <= 44 && all_base58_from(s, 0)
}

/// A Tron address: `T` and 33 Base58 characters.
pub open spec fn is_tron_address(s: Seq<char>) -> bool {
    s.len() == 34 && s[0] == 'T' && all_base58_from(s, 1)
}

/// A Bitcoin address: whatever the Bitcoin address parser accepts.
pub open spec fn is_btc_address(s: Seq<char>) -> bool {
    btc_address_parse(s) is Ok
}

/// A Kaspa address: one of the two known prefixes, and a payload that the
/// Kaspa address parser accepts.
pub open spec fn is_kaspa_address(s: Seq<char>) -> bool {
    (has_prefix(s, "kaspa:"@) || has_prefix(s, "kaspatest:"@)) && kaspa_decode(s) is Ok
}

fn hex_digit(c: char) -> (r: bool)
    ensures
        r == is_hex_digit(c),
{
    (c >= '0' && c <= '9') || (c >= 'a' && c <= 'f') || (c >= 'A' && c <= 'F')
}

fn base58_char(c: char) -> (r: bool)
    ensures
        r == is_base58_char(c),
{
    (c >= '1' && c <= '9') || (c >= 'A' && c <= 'H') || (c >= 'J' && c <= 'N') || (c >= 'P' && c
        <= 'Z') || (c >= 'a' && c <= 'k') || (c >= 'm' && c <= 'z')
}

fn hex_from(chars: &Vec<char>, from: usize) -> (r: bool)
    ensures
        r == all_hex_from(chars@, from as int),
{
    let mut i: usize = from;
    while i < chars.len()
        invariant
            from <= i,
            forall|k: int| from <= k < i && k < chars.len() ==> is_hex_digit(#[trigger] chars@[k]),
        decreases chars.len() - i,
    {
        if !hex_digit(chars[i]) {
            return false;
        }
        i = i + 1;
    }
    true
}

fn base58_from(chars: &Vec<char>, from: usize) -> (r: bool)
    ensures
        r == all_base58_from(chars@, from as int),
{
    let mut i: usize = from;
    while i < chars.len()
        invariant
            from <= i,
            forall|k: int|
                from <= k < i && k < chars.len() ==> is_base58_char(#[trigger] chars@[k]),
        decreases chars.len() - i,
    {
        if !base58_char(chars[i]) {
            return false;
        }
        i = i + 1;
    }
    true
}

/// Whether `address` is `0x` followed by 40 hexadecimal digits.
pub fn validate_eth_address(address: &str) -> (r: bool)
    ensures
        r == is_eth_address(address@),
{
    let chars = chars_of(address);
    chars.len() == 42 && chars[0] == '0' && chars[1] == 'x' && hex_from(&chars, 2)
}

/// Whether the Bitcoin address parser accepts `address`: legacy, P2SH and
/// native segwit forms alike.
pub fn validate_btc_address(address: &str) -> (r: bool)
    ensures
        r == is_btc_address(address@),
{
    parse_address(address).is_ok()
}

/// Whether `address` is 32 to 44 characters of the Base58 alphabet.
pub fn validate_sol_address(address: &str) -> (r: bool)
    ensures
        r == is_sol_address(address@),
{
    let chars = chars_of(address);
    if chars.len() < 32 || chars.len() > 44 {
        return false;
    }
    base58_from(&chars, 0)
}

/// Whether `address` is `T` followed by 33 characters of the Base58
/// alphabet.
pub fn validate_tron_address(address: &str) -> (r: bool)
    ensures
        r == is_tron_address(address@),
{
    let chars = chars_of(address);
    if chars.len() != 34 || chars[0] != 'T' {
        return false;
    }
    base58_from(&chars, 1)
}

/// Whether `address` carries a Kaspa prefix and decodes as a Kaspa address.
pub fn validate_kaspa_address(address: &str) -> (r: bool)
    ensures
        r == is_kaspa_address(address@),
{
    let chars = chars_of(address);
    if !starts_with(&chars, "kaspa:") && !starts_with(&chars, "kaspatest:") {
        return false;
    }
    Address::parse(address).is_ok()
}

/// Outcome of validating an address, with the reason when it is rejected.
#[derive(Debug, Clone)]
pub struct AddressValidationResult {
    pub is_valid: bool,
    pub error_message: Option<String>,
}

/// Mathematical content of an [`AddressValidationResult`].
pub struct Verdict {
    pub is_valid: bool,
    pub error_message: Option<Seq<char>>,
}

impl View for AddressValidationResult {
    type V = Verdict;

    open spec fn view(&self) -> Verdict {
        Verdict {
            is_valid: self.is_valid,
            error_message: match self.error_message {
                Some(m) => Some(m@),
                None => None,
            },
        }
    }
}

/// The verdict that accepts.
pub open spec fn accepted() -> Verdict {
    Verdict { is_valid: true, error_message: None }
}

/// The verdict that rejects with `message`.
pub open spec fn rejected(message: Seq<char>) -> Verdict {
    Verdict { is_valid: false, error_message: Some(message) }
}

/// Verdict on a trimmed, non-empty Ethereum or BNB address.
pub open spec fn eth_verdict(a: Seq<char>) -> Verdict {
    if !has_prefix(a, "0x"@) {
        rejected("以太坊地址必须以 0x 开头"@)
    } else if byte_len(a) != 42 {
        rejected("以太坊地址长度应为 42 字符，当前为 "@ + decimal_digits(byte_len(a)) + " 字符"@)
    } else if !all_hex_from(a, 2) {
        rejected("以太坊地址包含无效字符，只能包含 0-9 和 a-f（或 A-F）"@)
    } else {
        accepted()
    }
}

/// Verdict on a trimmed, non-empty Bitcoin address.
pub open spec fn btc_verdict(a: Seq<char>) -> Verdict {
    match btc_address_parse(a) {
        Ok(_) => accepted(),
        Err(e) => rejected("Bitcoin 地址格式无效: "@ + e),
    }
}

/// Verdict on a trimmed, non-empty Solana address.
pub open spec fn sol_verdict(a: Seq<char>) -> Verdict {
    if byte_len(a) < 32 || byte_len(a) > 44 {
        rejected("Solana 地址长度应在 32-44 字符之间，当前为 "@ + decimal_digits(byte_len(a)) + " 字符"@)
    } else if !all_base58_from(a, 0) {
        rejected("Solana 地址包含无效字符，必须是有效的 Base58 编码"@)
    } else {
        accepted()
    }
}

/// Verdict on a trimmed, non-empty Tron address.
pub open spec fn tron_verdict(a: Seq<char>) -> Verdict {
    if !has_prefix(a, "T"@) {
        rejected("Tron 地址必须以 T 开头"@)
    } else if byte_len(a) != 34 {
        rejected("Tron 地址长度应为 34 字符，当前为 "@ + decimal_digits(byte_len(a)) + " 字符"@)
    } else if !all_base58_from(a, 1) {
        rejected("Tron 地址包含无效字符，必须是有效的 Base58 编码"@)
    } else {
        accepted()
    }
}

/// Verdict on a trimmed, non-empty Kaspa address.
pub open spec fn kaspa_verdict(a: Seq<char>) -> Verdict {
    if !has_prefix(a, "kaspa:"@) && !has_prefix(a, "kaspatest:"@) {
        rejected("Kaspa 地址必须以 kaspa: 或 kaspatest: 开头"@)
    } else {
        match kaspa_decode(a) {
            Ok(_) => accepted(),
            Err(e) => rejected("Kaspa 地址格式无效: "@ + e),
        }
    }
}

/// Verdict on `address` for the chain named `chain`. The address is trimmed
/// first; the chain name is matched as it stands, in upper case.
pub open spec fn verdict(chain: Seq<char>, address: Seq<char>) -> Verdict {
    let a = str_trim(address);
    if a.len() == 0 {
        rejected("地址不能为空"@)
    } else if chain == "ETH"@ || chain == "BNB"@ {
        eth_verdict(a)
    } else if chain == "BTC"@ {
        btc_verdict(a)
    } else if chain == "SOL"@ {
        sol_verdict(a)
    } else if chain == "TRON"@ {
        tron_verdict(a)
    } else if chain == "KASPA"@ || chain == "KAS"@ {
        kaspa_verdict(a)
    } else {
        rejected("不支持的链类型: "@ + chain)
    }
}

fn accept() -> (r: AddressValidationResult)
    ensures
        r@ == accepted(),
{
    AddressValidationResult { is_valid: true, error_message: None }
}

fn reject(message: String) -> (r: AddressValidationResult)
    ensures
        r@ == rejected(message@),
{
    AddressValidationResult { is_valid: false, error_message: Some(message) }
}

fn length_message(head: &str, len: usize, tail: &str) -> (m: String)
    ensures
        m@ == head@ + decimal_digits(len as nat) + tail@,
{
    let digits = decimal_text(len as u64);
    join3(head, digits.as_str(), tail)
}

fn check_eth(a: &str, chars: &Vec<char>) -> (r: AddressValidationResult)
    requires
        chars@ == a@,
    ensures
        r@ == eth_verdict(a@),
{
    if !starts_with(chars, "0x") {
        return reject(String::from_str("以太坊地址必须以 0x 开头"));
    }
    if a.as_bytes().len() != 42 {
        return reject(length_message("以太坊地址长度应为 42 字符，当前为 ", a.as_bytes().len(), " 字符"));
    }
    if !hex_from(chars, 2) {
        return reject(
            String::from_str("以太坊地址包含无效字符，只能包含 0-9 和 a-f（或 A-F）"),
        );
    }
    accept()
}

fn check_btc(a: &str) -> (r: AddressValidationResult)
    ensures
        r@ == btc_verdict(a@),
{
    match parse_address(a) {
        Ok(_) => accept(),
        Err(e) => reject(join2("Bitcoin 地址格式无效: ", e.as_str())),
    }
}

fn check_sol(a: &str, chars: &Vec<char>) -> (r: AddressValidationResult)
    requires
        chars@ == a@,
    ensures
        r@ == sol_verdict(a@),
{
    if a.as_bytes().len() < 32 || a.as_bytes().len() > 44 {
        return reject(
            length_message("Solana 地址长度应在 32-44 字符之间，当前为 ", a.as_bytes().len(), " 字符"),
        );
    }
    if !base58_from(chars, 0) {
        return reject(String::from_str("Solana 地址包含无效字符，必须是有效的 Base58 编码"));
    }
    accept()
}

fn check_tron(a: &str, chars: &Vec<char>) -> (r: AddressValidationResult)
    requires
        chars@ == a@,
    ensures
        r@ == tron_verdict(a@),
{
    if !starts_with(chars, "T") {
        return reject(String::from_str("Tron 地址必须以 T 开头"));
    }
    if a.as_bytes().len() != 34 {
        return reject(length_message("Tron 地址长度应为 34 字符，当前为 ", a.as_bytes().len(), " 字符"));
    }
    if !base58_from(chars, 1) {
        return reject(String::from_str("Tron 地址包含无效字符，必须是有效的 Base58 编码"));
    }
    accept()
}

fn check_kaspa(a: &str, chars: &Vec<char>) -> (r: AddressValidationResult)
    requires
        chars@ == a@,
    ensures
        r@ == kaspa_verdict(a@),
{
    if !starts_with(chars, "kaspa:") && !starts_with(chars, "kaspatest:") {
        return reject(String::from_str("Kaspa 地址必须以 kaspa: 或 kaspatest: 开头"));
    }
    match Address::parse(a) {
        Ok(_) => accept(),
        Err(e) => reject(join2("Kaspa 地址格式无效: ", e.as_str())),
    }
}

/// Validates `address` for the chain named `chain` (`ETH`, `BNB`, `BTC`,
/// `SOL`, `TRON`, `KASPA` or `KAS`) and says why when it is rejected. An
/// unknown chain name is rejected with a message that names it.
pub fn validate_address_with_message(chain: &str, address: &str) -> (r: AddressValidationResult)
    ensures
        r@ == verdict(chain@, address@),
{
    let a = trimmed(address);
    let chars = chars_of(a);
    if chars.len() == 0 {
        return reject(String::from_str("地址不能为空"));
    }
    if same_text(chain, "ETH") || same_text(chain, "BNB") {
        check_eth(a, &chars)
    } else if same_text(chain, "BTC") {
        check_btc(a)
    } else if same_text(chain, "SOL") {
        check_sol(a, &chars)
    } else if same_text(chain, "TRON") {
        check_tron(a, &chars)
    } else if same_text(chain, "KASPA") || same_text(chain, "KAS") {
        check_kaspa(a, &chars)
    } else {
        reject(join2("不支持的链类型: ", chain))
    }
}

/// Whether `address` is valid for the chain named `chain`.
pub fn validate_address(chain: &str, address: &str) -> (r: bool)
    ensures
        r == verdict(chain@, address@).is_valid,
{
    validate_address_with_message(chain, address).is_valid
}

} // verus!
