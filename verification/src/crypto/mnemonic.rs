//! BIP-39 mnemonic phrases: generation, validation and conversion to seed
//! bytes.

use crate::text::{join2, text_result};
use bip39::{Language, Mnemonic};
use rand::RngCore;
use vstd::prelude::*;
use vstd::string::*;
use zeroize::Zeroize;

verus! {

/// A parsed mnemonic: the phrase in normalized form and its number of words.
#[derive(Debug)]
pub struct MnemonicInfo {
    pub mnemonic: String,
    pub word_count: usize,
}

/// What the `bip39` crate's English parser returns for the given text: the
/// phrase as the crate prints it with its number of words, or the `Debug`
/// text of the parse error.
pub uninterp spec fn bip39_parse(text: Seq<char>) -> Result<(Seq<char>, nat), Seq<char>>;

/// What the `bip39` crate makes of the given entropy bytes: the English
/// phrase, or the `Debug` text of the error.
pub uninterp spec fn bip39_from_entropy(entropy: Seq<u8>) -> Result<Seq<char>, Seq<char>>;

/// The 64 seed bytes that the `bip39` crate derives from a phrase that parses
/// and a passphrase.
pub uninterp spec fn bip39_seed(text: Seq<char>, passphrase: Seq<char>) -> Seq<u8>;

/// A parsing result with its strings by their views.
pub open spec fn parsed_view(r: Result<(String, usize), String>) -> Result<
    (Seq<char>, nat),
    Seq<char>,
> {
    match r {
        Ok(p) => Ok((p.0@, p.1 as nat)),
        Err(e) => Err(e@),
    }
}

/// Whether `text` parses as a mnemonic of `words` words that is printed as
/// `text` itself.
pub open spec fn parses_as(text: Seq<char>, words: nat) -> bool {
    bip39_parse(text) == Ok::<(Seq<char>, nat), Seq<char>>((text, words))
}

/// Entropy lengths, in bytes, that encode as a mnemonic: 16, 20, 24, 28, 32.
pub open spec fn valid_entropy_len(len: nat) -> bool {
    len % 4 == 0 && 16 <= len <= 32
}

/// Parses `text` as an English mnemonic.
///
/// Trusted: wraps `bip39::Mnemonic::parse_in_normalized` with
/// `Language::English`. A parsed mnemonic is handed back as its `Display`
/// text and its `word_count()`; an error as its `Debug` text. The contract
/// only names the result.
#[verifier::external_body]
pub(crate) fn parse_phrase(text: &str) -> (r: Result<(String, usize), String>)
    ensures
        parsed_view(r) == bip39_parse(text@),
{
    match Mnemonic::parse_in_normalized(Language::English, text) {
        Ok(m) => Ok((m.to_string(), m.word_count())),
        Err(e) => Err(format!("{:?}", e)),
    }
}

/// The seed bytes of a mnemonic that parses.
///
/// Trusted: wraps `bip39::Mnemonic::to_seed` on the mnemonic that
/// `parse_in_normalized` yields for `text`; the `requires` leaves out texts
/// that do not parse. The contract only names the result; the length is in
/// the type.
#[verifier::external_body]
pub(crate) fn seed_of(text: &str, passphrase: &str) -> (seed: [u8; 64])
    requires
        bip39_parse(text@) is Ok,
    ensures
        seed@ == bip39_seed(text@, passphrase@),
{
    Mnemonic::parse_in_normalized(Language::English, text).unwrap().to_seed(passphrase)
}

/// Encodes entropy bytes as an English mnemonic.
///
/// Trusted: wraps `bip39::Mnemonic::from_entropy`. The phrase is handed back
/// as its `Display` text, an error as its `Debug` text. Beside naming the
/// result, the contract says when the call succeeds, as the two length checks
/// at the top of the crate's function show: the length is a multiple of four
/// bytes between 16 and 32. It also says that the phrase parses back as
/// itself, with three words for every four bytes of entropy. No sentence of
/// the crate's documentation says so; it is read from its encoder and its
/// parser, which undo each other step by step: the encoder writes the words
/// that the bits of entropy and checksum pick from the sorted word list, with
/// one space between; the parser looks each word up in the same list, puts
/// the same bits together and compares the same checksum.
#[verifier::external_body]
fn phrase_of_entropy(entropy: &[u8]) -> (r: Result<String, String>)
    ensures
        text_result(r) == bip39_from_entropy(entropy@),
        r is Ok <==> valid_entropy_len(entropy@.len()),
        r is Ok ==> parses_as(r->Ok_0@, (entropy@.len() * 3 / 4) as nat),
{
    match Mnemonic::from_entropy(entropy) {
        Ok(m) => Ok(m.to_string()),
        Err(e) => Err(format!("{:?}", e)),
    }
}

/// Fills `buf` with random bytes.
///
/// Trusted: wraps `rand::thread_rng().fill_bytes`. Nothing is claimed of the
/// bytes; the length stays as it was.
#[verifier::external_body]
fn fill_random(buf: &mut Vec<u8>)
    ensures
        final(buf)@.len() == old(buf)@.len(),
{
    rand::thread_rng().fill_bytes(buf);
}

/// Overwrites `buf` with zeros and empties it.
///
/// Trusted: wraps `zeroize::Zeroize::zeroize` for `Vec<u8>`, which zeroes the
/// elements and then clears the vector.
#[verifier::external_body]
fn wipe(buf: &mut Vec<u8>)
    ensures
        final(buf)@.len() == 0,
{
    buf.zeroize();
}

/// Number of entropy bytes behind a mnemonic of `word_count` words;
/// `None` for a word count that is not 12, 15, 18, 21 or 24.
pub open spec fn entropy_len(word_count: nat) -> Option<nat> {
    if word_count == 12 {
        Some(16)
    } else if word_count == 15 {
        Some(20)
    } else if word_count == 18 {
        Some(24)
    } else if word_count == 21 {
        Some(28)
    } else if word_count == 24 {
        Some(32)
    } else {
        None
    }
}

/// What [`mnemonic_from_entropy`] returns for the given entropy.
pub open spec fn entropy_outcome(entropy: Seq<u8>) -> Result<Seq<char>, Seq<char>> {
    match bip39_from_entropy(entropy) {
        Ok(p) => Ok(p),
        Err(e) => Err("Failed to generate mnemonic: "@ + e),
    }
}

/// What [`validate_mnemonic`] returns for the given text.
pub open spec fn validation_outcome(text: Seq<char>) -> Result<bool, Seq<char>> {
    match bip39_parse(text) {
        Ok(_) => Ok(true),
        Err(e) => Err("Invalid mnemonic: "@ + e),
    }
}

/// Encodes the given entropy as an English mnemonic phrase, which has three
/// words for every four bytes and parses back as itself.
pub fn mnemonic_from_entropy(entropy: &[u8]) -> (r: Result<String, String>)
    ensures
        text_result(r) == entropy_outcome(entropy@),
        r is Ok <==> valid_entropy_len(entropy@.len()),
        r is Ok ==> parses_as(r->Ok_0@, (entropy@.len() * 3 / 4) as nat),
{
    match phrase_of_entropy(entropy) {
        Ok(p) => Ok(p),
        Err(e) => Err(join2("Failed to generate mnemonic: ", e.as_str())),
    }
}

/// Generates a mnemonic of `word_count` words from fresh random entropy of
/// `word_count * 32 / 3` bits, and wipes the entropy buffer afterwards.
///
/// Succeeds exactly for 12, 15, 18, 21 and 24 words; the phrase is the
/// encoding of some entropy of that many bits, and it parses back as itself
/// with `word_count` words, so that [`validate_mnemonic`] accepts it.
pub fn generate_mnemonic(word_count: usize) -> (r: Result<String, String>)
    ensures
        r is Ok ==> parses_as(r->Ok_0@, word_count as nat),
        entropy_len(word_count as nat) is None ==> text_result(r) == Err::<Seq<char>, Seq<char>>(
            "Invalid word count. Must be 12, 15, 18, 21, or 24"@,
        ),
        entropy_len(word_count as nat) is Some ==> r is Ok && exists|entropy: Seq<u8>|
            entropy.len() == entropy_len(word_count as nat)->Some_0 && #[trigger] entropy_outcome(
                entropy,
            ) == text_result(r),
{
    let entropy_bits: usize = if word_count == 12 {
        128
    } else if word_count == 15 {
        160
    } else if word_count == 18 {
        192
    } else if word_count == 21 {
        224
    } else if word_count == 24 {
        256
    } else {
        return Err(String::from_str("Invalid word count. Must be 12, 15, 18, 21, or 24"));
    };
    let mut entropy: Vec<u8> = vec![0u8; entropy_bits / 8];
    fill_random(&mut entropy);
    let r = mnemonic_from_entropy(entropy.as_slice());
    proof {
        assert(entropy_outcome(entropy@) == text_result(r));
    }
    wipe(&mut entropy);
    r
}

/// Checks that `mnemonic` is an English BIP-39 phrase: known words, a valid
/// word count and a matching checksum. Returns `Ok(true)` when it is, and an
/// error that starts with `Invalid mnemonic: ` when it is not.
pub fn validate_mnemonic(mnemonic: &str) -> (r: Result<bool, String>)
    ensures
        match r {
            Ok(b) => validation_outcome(mnemonic@) == Ok::<bool, Seq<char>>(b),
            Err(e) => validation_outcome(mnemonic@) == Err::<bool, Seq<char>>(e@),
        },
{
    match parse_phrase(mnemonic) {
        Ok(_) => Ok(true),
        Err(e) => Err(join2("Invalid mnemonic: ", e.as_str())),
    }
}

/// Parses `mnemonic` and reports its normalized phrase and word count.
pub fn get_mnemonic_info(mnemonic: &str) -> (r: Result<MnemonicInfo, String>)
    ensures
        match r {
            Ok(info) => bip39_parse(mnemonic@) == Ok::<(Seq<char>, nat), Seq<char>>(
                (info.mnemonic@, info.word_count as nat),
            ),
            Err(e) => bip39_parse(mnemonic@) is Err && e@ == "Invalid mnemonic: "@
                + bip39_parse(mnemonic@)->Err_0,
        },
{
    match parse_phrase(mnemonic) {
        Ok(p) => Ok(MnemonicInfo { mnemonic: p.0, word_count: p.1 }),
        Err(e) => Err(join2("Invalid mnemonic: ", e.as_str())),
    }
}

} // verus!
