//! Kaspa addresses and the Kaspa signer.

use crate::codec::{copy_range, hex_lower, hex_text};
use crate::digest::{sha256, sha256_digest};
use crate::keys::{
    derivation_path, derive_secret, derived_secret, passphrase_text, path_text, public_key,
    secp256k1_public_key, secp256k1_sign, sign_digest, wipe,
};
use crate::text::{
    chars_of, first_index, index_of_char, join2, join7, same_text, text_of, utf8_bytes,
};
use vstd::prelude::*;
use vstd::string::*;

verus! {

/// A derived Kaspa address with the path that leads to it.
#[derive(Debug)]
pub struct KaspaAddress {
    pub address: String,
    pub derivation_path: String,
}

/// A transfer request: recipient, amount and optional fee, as given.
#[derive(Debug, Clone)]
pub struct KaspaTransaction {
    pub to: String,
    pub amount: String,
    pub fee: Option<String>,
}

/// Mathematical content of a [`KaspaTransaction`].
pub struct KaspaTransactionModel {
    pub to: Seq<char>,
    pub amount: Seq<char>,
    pub fee: Option<Seq<char>>,
}

impl View for KaspaTransaction {
    type V = KaspaTransactionModel;

    open spec fn view(&self) -> KaspaTransactionModel {
        KaspaTransactionModel {
            to: self.to@,
            amount: self.amount@,
            fee: match self.fee {
                Some(t) => Some(t@),
                None => None,
            },
        }
    }
}

/// A signed transfer: the request as JSON with the signature in hexadecimal
/// behind it, and the hash of the JSON.
#[derive(Debug)]
pub struct SignedKaspaTransaction {
    pub raw_transaction: String,
    pub transaction_hash: String,
}

/// Network prefix of a Kaspa address.
#[derive(Debug, Clone, Copy, PartialEq, Eq, Structural)]
pub enum Prefix {
    Mainnet,
    Testnet,
    Simnet,
    Devnet,
}

/// Payload kind of a Kaspa address.
#[derive(Debug, Clone, Copy, PartialEq, Eq, Structural)]
pub enum Version {
    /// Schnorr public key, 32 bytes.
    PubKey,
    /// ECDSA public key, 33 bytes.
    PubKeyECDSA,
    /// Script hash, 32 bytes.
    ScriptHash,
}

impl Version {
    /// Payload length that the version calls for.
    pub open spec fn spec_public_key_len(&self) -> nat {
        match self {
            Version::PubKey => 32,
            Version::PubKeyECDSA => 33,
            Version::ScriptHash => 32,
        }
    }

    /// Payload length that the version calls for.
    pub fn public_key_len(&self) -> (n: usize)
        ensures
            n == self.spec_public_key_len(),
    {
        match self {
            Version::PubKey => 32,
            Version::PubKeyECDSA => 33,
            Version::ScriptHash => 32,
        }
    }
}

/// A decoded Kaspa address.
#[derive(Debug, Clone)]
pub struct Address {
    pub prefix: Prefix,
    pub version: Version,
    pub payload: Vec<u8>,
}

/// Mathematical content of an [`Address`].
pub struct AddressModel {
    pub prefix: Prefix,
    pub version: Version,
    pub payload: Seq<u8>,
}

impl View for Address {
    type V = AddressModel;

    open spec fn view(&self) -> AddressModel {
        AddressModel { prefix: self.prefix, version: self.version, payload: self.payload@ }
    }
}

/// The text that the `kaspa-addresses` crate prints for an address with the
/// given parts.
pub uninterp spec fn kaspa_address_encode(prefix: Prefix, version: Version, payload: Seq<u8>) -> Seq<
    char,
>;

/// What the `kaspa-addresses` crate's parser returns for a text of decodable
/// shape: the parts of the address, or the parse error's message.
pub uninterp spec fn kaspa_address_decode(s: Seq<char>) -> Result<
    (Prefix, Version, Seq<u8>),
    Seq<char>,
>;

/// The 32 characters of a payload; each stands for five bits, which are its
/// place in this text.
pub open spec fn payload_alphabet() -> Seq<char> {
    "qpzry9x8gf2tvdw0s3jn54khce6mua7l"@
}

/// The five bits that `c` stands for; the length of the alphabet for a
/// character that is not in it.
pub open spec fn five_bits(c: char) -> int {
    first_index(payload_alphabet(), c)
}

/// Whether all of `p` are characters of the payload alphabet.
pub open spec fn all_in_alphabet(p: Seq<char>) -> bool {
    forall|i: int| 0 <= i < p.len() ==> five_bits(#[trigger] p[i]) < payload_alphabet().len()
}

/// Whether `prefix` is one of the four network names.
pub open spec fn known_prefix(prefix: Seq<char>) -> bool {
    prefix == "kaspa"@ || prefix == "kaspatest"@ || prefix == "kaspasim"@ || prefix == "kaspadev"@
}

/// The payload length that a version byte calls for, where it is the byte of
/// a version.
pub open spec fn version_length(byte: int) -> Option<int> {
    if byte == 0 {
        Some(32)
    } else if byte == 1 {
        Some(33)
    } else if byte == 8 {
        Some(32)
    } else {
        None
    }
}

/// Number of whole bytes in `n` groups of five bits.
pub open spec fn whole_bytes(n: int) -> int {
    n * 5 / 8
}

/// Whether the text behind the colon, at least eight characters of the
/// alphabet, has a payload that can be taken apart: behind the eight
/// characters of the checksum stand a version byte, which is the first eight
/// bits, and, where that byte is the byte of a version, as many bytes as the
/// version calls for.
pub open spec fn payload_shape(p: Seq<char>) -> bool {
    let bytes = whole_bytes(p.len() - 8);
    let version = five_bits(p[0]) * 8 + five_bits(p[1]) / 4;
    bytes >= 1 && (version_length(version) is None || version_length(version) == Some(bytes - 1))
}

/// Whether the `kaspa-addresses` crate's parser can be asked about `text`.
/// It can where it gives its answer before it takes the payload apart: the
/// text has no colon, the name before the first colon is no network, a
/// character behind it is not in the alphabet, or fewer than eight characters
/// stand there. Otherwise the payload must have the shape that the parser
/// relies on once the checksum has matched.
pub open spec fn decodable_shape(text: Seq<char>) -> bool {
    let colon = first_index(text, ':');
    let payload = text.skip(colon + 1);
    colon == text.len() || !known_prefix(text.take(colon)) || !all_in_alphabet(payload)
        || payload.len() < 8 || payload_shape(payload)
}

/// What parsing a text as a Kaspa address gives: what the `kaspa-addresses`
/// crate's parser returns, and an error for a text whose payload has not the
/// shape that this parser relies on.
pub open spec fn kaspa_decode(text: Seq<char>) -> Result<(Prefix, Version, Seq<u8>), Seq<char>> {
    if decodable_shape(text) {
        kaspa_address_decode(text)
    } else {
        Err("The address payload has the wrong length"@)
    }
}

/// The parts of a parsed address, with the payload by its view.
pub open spec fn parsed_address(r: Result<Address, String>) -> Result<
    (Prefix, Version, Seq<u8>),
    Seq<char>,
> {
    match r {
        Ok(a) => Ok((a.prefix, a.version, a.payload@)),
        Err(e) => Err(e@),
    }
}

/// The parts of a decoding result, with the payload by its view.
pub open spec fn decoded_parts(r: Result<(Prefix, Version, Vec<u8>), String>) -> Result<
    (Prefix, Version, Seq<u8>),
    Seq<char>,
> {
    match r {
        Ok(p) => Ok((p.0, p.1, p.2@)),
        Err(e) => Err(e@),
    }
}

/// Prints the address with the given parts.
///
/// Trusted: wraps `kaspa_addresses::Address::new` followed by the crate's
/// conversion into `String`. `new` asserts that the payload has the length of
/// the version, hence the `requires`. The contract only names the result.
#[verifier::external_body]
fn encode_parts(prefix: Prefix, version: Version, payload: &[u8]) -> (out: String)
    requires
        payload@.len() == version.spec_public_key_len(),
    ensures
        out@ == kaspa_address_encode(prefix, version, payload@),
{
    let p = match prefix {
        Prefix::Mainnet => kaspa_addresses::Prefix::Mainnet,
        Prefix::Testnet => kaspa_addresses::Prefix::Testnet,
        Prefix::Simnet => kaspa_addresses::Prefix::Simnet,
        Prefix::Devnet => kaspa_addresses::Prefix::Devnet,
    };
    let v = match version {
        Version::PubKey => kaspa_addresses::Version::PubKey,
        Version::PubKeyECDSA => kaspa_addresses::Version::PubKeyECDSA,
        Version::ScriptHash => kaspa_addresses::Version::ScriptHash,
    };
    String::from(kaspa_addresses::Address::new(p, v, payload))
}

/// Parses the text of a Kaspa address into its parts.
///
/// Trusted: wraps `kaspa_addresses::Address::try_from`. A parsed address is
/// handed back as its three public fields; an error as its `Display` text. The
/// contract only names the result. Once the checksum has matched, the crate's
/// function reads the first byte of the payload and builds the address with an
/// assertion on the payload's length; the `requires` leaves out the texts on
/// which either could fail.
#[verifier::external_body]
fn decode_parts(text: &str) -> (r: Result<(Prefix, Version, Vec<u8>), String>)
    requires
        decodable_shape(text@),
    ensures
        decoded_parts(r) == kaspa_address_decode(text@),
{
    let a = kaspa_addresses::Address::try_from(text).map_err(|e| e.to_string())?;
    let prefix = match a.prefix {
        kaspa_addresses::Prefix::Mainnet => Prefix::Mainnet,
        kaspa_addresses::Prefix::Testnet => Prefix::Testnet,
        kaspa_addresses::Prefix::Simnet => Prefix::Simnet,
        kaspa_addresses::Prefix::Devnet => Prefix::Devnet,
    };
    let version = match a.version {
        kaspa_addresses::Version::PubKey => Version::PubKey,
        kaspa_addresses::Version::PubKeyECDSA => Version::PubKeyECDSA,
        kaspa_addresses::Version::ScriptHash => Version::ScriptHash,
    };
    Ok((prefix, version, a.payload.to_vec()))
}

fn alphabet_place(alphabet: &Vec<char>, c: char) -> (place: usize)
    requires
        alphabet@ == payload_alphabet(),
    ensures
        place == five_bits(c),
        place <= alphabet.len(),
{
    index_of_char(alphabet, c)
}

/// Whether the parser of the `kaspa-addresses` crate can be asked about
/// `text`: see [`decodable_shape`].
pub fn has_decodable_shape(text: &str) -> (r: bool)
    ensures
        r == decodable_shape(text@),
{
    let chars = chars_of(text);
    let len = chars.len();
    let colon = index_of_char(&chars, ':');
    if colon == len {
        return true;
    }
    let prefix = text_of(&chars, 0, colon);
    assert(prefix@ =~= text@.take(colon as int));
    let name = prefix.as_str();
    if !(same_text(name, "kaspa") || same_text(name, "kaspatest") || same_text(name, "kaspasim")
        || same_text(name, "kaspadev")) {
        return true;
    }
    let start: usize = colon + 1;
    let ghost payload = text@.skip(colon + 1);
    assert(payload.len() == len - start);
    assert forall|i: int| 0 <= i < payload.len() implies payload[i] == chars@[start + i] by {}
    let alphabet = chars_of("qpzry9x8gf2tvdw0s3jn54khce6mua7l");
    let mut i: usize = start;
    while i < len
        invariant
            start <= i <= len,
            len == chars.len(),
            chars@ == text@,
            payload == text@.skip(start as int),
            start == first_index(text@, ':') + 1,
            alphabet@ == payload_alphabet(),
            forall|k: int| 0 <= k < i - start ==> five_bits(#[trigger] payload[k]) < alphabet.len(),
        decreases len - i,
    {
        let place = alphabet_place(&alphabet, chars[i]);
        assert(payload[i - start] == chars@[i as int]);
        if place >= alphabet.len() {
            assert(!all_in_alphabet(payload)) by {
                assert(five_bits(payload[i - start]) >= payload_alphabet().len());
            }
            return true;
        }
        i = i + 1;
    }
    assert(all_in_alphabet(payload));
    let count: usize = len - start;
    if count < 8 {
        return true;
    }
    let groups: usize = count - 8;
    let bytes: usize = groups / 8 * 5 + (groups % 8) * 5 / 8;
    assert(bytes == whole_bytes(groups as int));
    if bytes < 1 {
        return false;
    }
    assert(groups >= 2);
    assert(payload[0] == chars@[start as int] && payload[1] == chars@[start + 1]);
    let high = alphabet_place(&alphabet, chars[start]);
    let low = alphabet_place(&alphabet, chars[start + 1]);
    proof {
        reveal_strlit("qpzry9x8gf2tvdw0s3jn54khce6mua7l");
        assert(alphabet.len() == 32);
        assert(high < 32 && low < 32) by {
            assert(five_bits(payload[0]) < alphabet.len());
            assert(five_bits(payload[1]) < alphabet.len());
        }
    }
    let version: usize = high * 8 + low / 4;
    if version == 0 || version == 8 {
        bytes - 1 == 32
    } else if version == 1 {
        bytes - 1 == 33
    } else {
        true
    }
}

impl Address {
    /// An address with the given parts. The payload must have the length that
    /// the version calls for.
    pub fn new(prefix: Prefix, version: Version, payload: &[u8]) -> (a: Address)
        requires
            payload@.len() == version.spec_public_key_len(),
        ensures
            a@ == (AddressModel { prefix, version, payload: payload@ }),
    {
        let mut bytes: Vec<u8> = Vec::new();
        let mut i: usize = 0;
        while i < payload.len()
            invariant
                i <= payload.len(),
                bytes@ == payload@.subrange(0, i as int),
            decreases payload.len() - i,
        {
            bytes.push(payload[i]);
            i = i + 1;
            assert(bytes@ =~= payload@.subrange(0, i as int));
        }
        assert(payload@.subrange(0, payload@.len() as int) =~= payload@);
        Address { prefix, version, payload: bytes }
    }

    /// The address in its text form, `prefix:payload`, when the payload has
    /// the length of the version; `None` otherwise.
    pub fn encode(&self) -> (out: Option<String>)
        ensures
            self.payload@.len() == self.version.spec_public_key_len() ==> out is Some
                && out->Some_0@ == kaspa_address_encode(
                self.prefix,
                self.version,
                self.payload@,
            ),
            self.payload@.len() != self.version.spec_public_key_len() ==> out is None,
    {
        if self.payload.len() == self.version.public_key_len() {
            Some(encode_parts(self.prefix, self.version, self.payload.as_slice()))
        } else {
            None
        }
    }

    /// Parses an address from its text form: a network name, a colon, and
    /// the payload with its checksum. A text whose payload has not the length
    /// that its version byte calls for is refused before the checksum is
    /// looked at.
    pub fn parse(text: &str) -> (r: Result<Address, String>)
        ensures
            parsed_address(r) == kaspa_decode(text@),
    {
        if !has_decodable_shape(text) {
            return Err(String::from_str("The address payload has the wrong length"));
        }
        match decode_parts(text) {
            Ok(p) => Ok(Address { prefix: p.0, version: p.1, payload: p.2 }),
            Err(e) => Err(e),
        }
    }
}

/// Path prefix of Kaspa keys.
pub open spec fn kaspa_path_prefix() -> Seq<char> {
    "m/44'/111111'/0'/0"@
}

/// The private key for an address index with its path, or the reason why
/// there is none.
pub open spec fn kaspa_key_outcome(mnemonic: Seq<char>, passphrase: Seq<char>, index: u32)
    -> Result<(Seq<u8>, Seq<char>), Seq<char>> {
    let path = path_text(kaspa_path_prefix(), index);
    match derived_secret(mnemonic, passphrase, path) {
        Err(e) => Err(e),
        Ok(secret) => match secp256k1_public_key(secret) {
            None => Err("Invalid secret key: InvalidSecretKey"@),
            Some(_) => Ok((secret, path)),
        },
    }
}

/// The mainnet address of a compressed public key: version `PubKey` with the
/// 32 bytes behind the leading byte as its payload.
pub open spec fn kaspa_address_text(pubkey: Seq<u8>) -> Seq<char> {
    kaspa_address_encode(Prefix::Mainnet, Version::PubKey, pubkey.subrange(1, 33))
}

/// What [`derive_kaspa_address`] returns, as (address, path).
pub open spec fn kaspa_address_outcome(mnemonic: Seq<char>, passphrase: Seq<char>, index: u32)
    -> Result<(Seq<char>, Seq<char>), Seq<char>> {
    match kaspa_key_outcome(mnemonic, passphrase, index) {
        Err(e) => Err(e),
        Ok(k) => Ok((kaspa_address_text(secp256k1_public_key(k.0)->Some_0), k.1)),
    }
}

/// The fee that goes into the request: the given one, or `0`.
pub open spec fn fee_text(fee: Option<Seq<char>>) -> Seq<char> {
    match fee {
        Some(f) => f,
        None => "0"@,
    }
}

/// The request as the JSON text that is hashed; the fields go in as they
/// are.
pub open spec fn kaspa_request(tx: KaspaTransactionModel) -> Seq<char> {
    "{\"to\":\""@ + tx.to + "\",\"amount\":\""@ + tx.amount + "\",\"fee\":\""@ + fee_text(tx.fee)
        + "\"}"@
}

/// What signing yields once the key is known, as (raw transaction, hash).
pub open spec fn kaspa_signed_with_secret(secret: Seq<u8>, tx: KaspaTransactionModel) -> Result<
    (Seq<char>, Seq<char>),
    Seq<char>,
> {
    let request = kaspa_request(tx);
    let hash = sha256_digest(utf8_bytes(request));
    match secp256k1_sign(secret, hash) {
        None => Err("Invalid secret key: InvalidSecretKey"@),
        Some(signature) => Ok((request + hex_lower(signature), hex_lower(hash))),
    }
}

/// What [`sign_kaspa_transaction`] returns, as (raw transaction, hash).
pub open spec fn kaspa_signing_outcome(
    mnemonic: Seq<char>,
    passphrase: Seq<char>,
    index: u32,
    tx: KaspaTransactionModel,
) -> Result<(Seq<char>, Seq<char>), Seq<char>> {
    match kaspa_key_outcome(mnemonic, passphrase, index) {
        Err(e) => Err(e),
        Ok(k) => kaspa_signed_with_secret(k.0, tx),
    }
}

/// The (key, path) pair behind a key result.
pub open spec fn kaspa_key_view(r: Result<([u8; 32], String), String>) -> Result<
    (Seq<u8>, Seq<char>),
    Seq<char>,
> {
    match r {
        Ok(k) => Ok((k.0@, k.1@)),
        Err(e) => Err(e@),
    }
}

/// The (address, path) pair behind a derivation result.
pub open spec fn kaspa_address_view(r: Result<KaspaAddress, String>) -> Result<
    (Seq<char>, Seq<char>),
    Seq<char>,
> {
    match r {
        Ok(a) => Ok((a.address@, a.derivation_path@)),
        Err(e) => Err(e@),
    }
}

/// The (raw transaction, hash) pair behind a signing result.
pub open spec fn signed_kaspa_view(r: Result<SignedKaspaTransaction, String>) -> Result<
    (Seq<char>, Seq<char>),
    Seq<char>,
> {
    match r {
        Ok(s) => Ok((s.raw_transaction@, s.transaction_hash@)),
        Err(e) => Err(e@),
    }
}

/// The mainnet address of a compressed secp256k1 public key.
pub fn derive_kaspa_address_from_pubkey(pubkey: &[u8; 33]) -> (r: Result<String, String>)
    ensures
        r is Ok,
        r->Ok_0@ == kaspa_address_text(pubkey@),
{
    let payload = copy_range(pubkey.as_slice(), 1, 33);
    Ok(encode_parts(Prefix::Mainnet, Version::PubKey, payload.as_slice()))
}

/// Derives the private key at `m/44'/111111'/0'/0/{index}` and checks that
/// it is a valid secp256k1 key. A key that is not valid is overwritten with
/// zeros before the error is returned.
pub fn derive_key_from_mnemonic(mnemonic: &str, passphrase: Option<&str>, index: u32) -> (r: Result<
    ([u8; 32], String),
    String,
>)
    ensures
        kaspa_key_view(r) == kaspa_key_outcome(mnemonic@, passphrase_text(passphrase), index),
{
    let path = derivation_path("m/44'/111111'/0'/0", index);
    let mut secret = match derive_secret(mnemonic, passphrase, path.as_str()) {
        Ok(k) => k,
        Err(e) => { return Err(e); },
    };
    match public_key(&secret) {
        None => {
            wipe(&mut secret);
            Err(String::from_str("Invalid secret key: InvalidSecretKey"))
        },
        Some(_) => Ok((secret, path)),
    }
}

/// Derives the Kaspa mainnet address at `m/44'/111111'/0'/0/{index}`.
pub fn derive_kaspa_address(mnemonic: &str, passphrase: Option<&str>, index: u32) -> (r: Result<
    KaspaAddress,
    String,
>)
    ensures
        kaspa_address_view(r) == kaspa_address_outcome(
            mnemonic@,
            passphrase_text(passphrase),
            index,
        ),
{
    let (mut secret, path) = match derive_key_from_mnemonic(mnemonic, passphrase, index) {
        Ok(k) => k,
        Err(e) => { return Err(e); },
    };
    let public = public_key(&secret);
    wipe(&mut secret);
    match public {
        None => Err(String::from_str("Invalid secret key: InvalidSecretKey")),
        Some(pubkey) => match derive_kaspa_address_from_pubkey(&pubkey) {
            Ok(address) => Ok(KaspaAddress { address, derivation_path: path }),
            Err(e) => Err(e),
        },
    }
}

/// Signs a transfer with an already derived private key: the request is
/// written as JSON, hashed with SHA-256 and the hash signed.
pub fn sign_with_secret(secret: &[u8; 32], tx: &KaspaTransaction) -> (r: Result<
    SignedKaspaTransaction,
    String,
>)
    ensures
        signed_kaspa_view(r) == kaspa_signed_with_secret(secret@, tx@),
        r is Ok ==> r->Ok_0.transaction_hash@.len() == 64 && r->Ok_0.raw_transaction@.len()
            == kaspa_request(tx@).len() + 128,
{
    let fee: &str = match &tx.fee {
        Some(f) => f.as_str(),
        None => "0",
    };
    let request = join7(
        "{\"to\":\"",
        tx.to.as_str(),
        "\",\"amount\":\"",
        tx.amount.as_str(),
        "\",\"fee\":\"",
        fee,
        "\"}",
    );
    let hash = sha256(request.as_str().as_bytes());
    let signature = match sign_digest(secret, &hash) {
        Some(s) => s,
        None => { return Err(String::from_str("Invalid secret key: InvalidSecretKey")); },
    };
    let signature_text = hex_text(signature.as_slice());
    Ok(
        SignedKaspaTransaction {
            raw_transaction: join2(request.as_str(), signature_text.as_str()),
            transaction_hash: hex_text(hash.as_slice()),
        },
    )
}

/// Signs a transfer with the key at `m/44'/111111'/0'/0/{index}`. The hash
/// comes as 64 hexadecimal digits; the raw transaction is the request with
/// the 128 digits of the signature behind it.
pub fn sign_kaspa_transaction(
    mnemonic: &str,
    passphrase: Option<&str>,
    index: u32,
    tx: KaspaTransaction,
) -> (r: Result<SignedKaspaTransaction, String>)
    ensures
        signed_kaspa_view(r) == kaspa_signing_outcome(
            mnemonic@,
            passphrase_text(passphrase),
            index,
            tx@,
        ),
        r is Ok ==> r->Ok_0.transaction_hash@.len() == 64 && r->Ok_0.raw_transaction@.len()
            == kaspa_request(tx@).len() + 128,
{
    let (mut secret, _) = match derive_key_from_mnemonic(mnemonic, passphrase, index) {
        Ok(k) => k,
        Err(e) => { return Err(e); },
    };
    let signed = sign_with_secret(&secret, &tx);
    wipe(&mut secret);
    signed
}

} // verus!
