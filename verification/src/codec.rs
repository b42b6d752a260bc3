//! Byte-to-text encodings used by the chains: lowercase hexadecimal and
//! Base58.

use vstd::prelude::*;

verus! {

/// The lowercase hexadecimal digit for `n`, which is below 16.
pub open spec fn hex_nibble(n: int) -> char {
    if n == 0 {
        '0'
    } else if n == 1 {
        '1'
    } else if n == 2 {
        '2'
    } else if n == 3 {
        '3'
    } else if n == 4 {
        '4'
    } else if n == 5 {
        '5'
    } else if n == 6 {
        '6'
    } else if n == 7 {
        '7'
    } else if n == 8 {
        '8'
    } else if n == 9 {
        '9'
    } else if n == 10 {
        'a'
    } else if n == 11 {
        'b'
    } else if n == 12 {
        'c'
    } else if n == 13 {
        'd'
    } else if n == 14 {
        'e'
    } else {
        'f'
    }
}

/// Lowercase hexadecimal text of `bytes`: two digits per byte, high nibble
/// first.
pub open spec fn hex_lower(bytes: Seq<u8>) -> Seq<char> {
    Seq::new(
        2 * bytes.len(),
        |i: int|
            if i % 2 == 0 {
                hex_nibble(bytes[i / 2] as int / 16)
            } else {
                hex_nibble(bytes[i / 2] as int % 16)
            },
    )
}

/// The number that `bytes` spell in base 256, most significant byte first.
pub open spec fn be_value(bytes: Seq<u8>) -> nat
    decreases bytes.len(),
{
    if bytes.len() == 0 {
        0
    } else {
        be_value(bytes.drop_last()) * 256 + bytes.last() as nat
    }
}

/// Number of zero bytes at the front of `bytes`.
pub open spec fn leading_zeros(bytes: Seq<u8>) -> nat
    decreases bytes.len(),
{
    if bytes.len() == 0 || bytes[0] != 0 {
        0
    } else {
        1 + leading_zeros(bytes.drop_first())
    }
}

/// The Base58 alphabet in the Bitcoin order.
pub open spec fn base58_alphabet() -> Seq<char> {
    "123456789ABCDEFGHJKLMNPQRSTUVWXYZabcdefghijkmnopqrstuvwxyz"@
}

/// The Base58 digits of `n`, most significant first; none for zero.
pub open spec fn base58_digits(n: nat) -> Seq<char>
    decreases n,
{
    if n == 0 {
        Seq::<char>::empty()
    } else {
        base58_digits(n / 58).push(base58_alphabet()[(n % 58) as int])
    }
}

/// Base58 text of `bytes`: one `1` per leading zero byte, then the Base58
/// digits of the number that the bytes spell.
pub open spec fn base58(bytes: Seq<u8>) -> Seq<char> {
    Seq::new(leading_zeros(bytes), |i: int| '1') + base58_digits(be_value(bytes))
}

/// The bytes `src[from..to]`.
pub fn copy_range(src: &[u8], from: usize, to: usize) -> (out: Vec<u8>)
    requires
        from <= to <= src@.len(),
    ensures
        out@ == src@.subrange(from as int, to as int),
{
    let mut out: Vec<u8> = Vec::new();
    let mut i: usize = from;
    while i < to
        invariant
            from <= i <= to <= src@.len(),
            out@ == src@.subrange(from as int, i as int),
        decreases to - i,
    {
        out.push(src[i]);
        i = i + 1;
        assert(out@ =~= src@.subrange(from as int, i as int));
    }
    out
}

/// The bytes of `a` followed by those of `b`.
pub fn concat_bytes(a: &[u8], b: &[u8]) -> (out: Vec<u8>)
    ensures
        out@ == a@ + b@,
{
    let mut out = copy_range(a, 0, a.len());
    assert(a@.subrange(0, a@.len() as int) =~= a@);
    let mut i: usize = 0;
    while i < b.len()
        invariant
            i <= b@.len(),
            out@ == a@ + b@.subrange(0, i as int),
        decreases b.len() - i,
    {
        out.push(b[i]);
        i = i + 1;
        assert(out@ =~= a@ + b@.subrange(0, i as int));
    }
    assert(b@.subrange(0, b@.len() as int) =~= b@);
    out
}

/// Whether `c` is a hexadecimal digit, either case.
pub open spec fn is_hex_char(c: char) -> bool {
    ('0' <= c <= '9') || ('a' <= c <= 'f') || ('A' <= c <= 'F')
}

/// The value of the hexadecimal digit `c`.
pub open spec fn hex_value(c: char) -> int {
    if '0' <= c <= '9' {
        c as int - '0' as int
    } else if 'a' <= c <= 'f' {
        c as int - 'a' as int + 10
    } else {
        c as int - 'A' as int + 10
    }
}

/// Whether all of `s` are hexadecimal digits.
pub open spec fn all_hex(s: Seq<char>) -> bool {
    forall|i: int| 0 <= i < s.len() ==> is_hex_char(#[trigger] s[i])
}

/// The message of the `hex` crate for text of even length with a character
/// that is no hexadecimal digit; it shows the first such byte and where it
/// stands.
pub uninterp spec fn hex_invalid_character_message(s: Seq<char>) -> Seq<char>;

/// What the `hex` crate's decoder returns for the given text: an error for
/// an odd number of bytes, else an error for the first byte that is no
/// hexadecimal digit, else one byte for each pair of digits, the first digit
/// of a pair being the high half.
pub open spec fn hex_decode(s: Seq<char>) -> Result<Seq<u8>, Seq<char>> {
    if vstd::utf8::encode_utf8(s).len() % 2 != 0 {
        Err("Odd number of digits"@)
    } else if !all_hex(s) {
        Err(hex_invalid_character_message(s))
    } else {
        Ok(Seq::new(s.len() / 2, |i: int| (hex_value(s[2 * i]) * 16 + hex_value(s[2 * i + 1])) as u8))
    }
}

/// A decoding result, bytes and message by their views.
pub open spec fn bytes_result(r: Result<Vec<u8>, String>) -> Result<Seq<u8>, Seq<char>> {
    match r {
        Ok(b) => Ok(b@),
        Err(e) => Err(e@),
    }
}

/// Lowercase hexadecimal text of `bytes`.
///
/// Trusted: wraps `hex::encode`, documented to encode every byte as two
/// lowercase hexadecimal digits.
#[verifier::external_body]
pub(crate) fn hex_text(bytes: &[u8]) -> (out: String)
    ensures
        out@ == hex_lower(bytes@),
{
    hex::encode(bytes)
}

/// Decodes hexadecimal text into bytes.
///
/// Trusted: wraps `hex::decode`; an error is handed back as its `Display`
/// text. The contract states what the crate's function does: it refuses an
/// odd number of bytes, then reads the pairs in order and refuses the first
/// byte that is no hexadecimal digit. Only the message for such a byte is
/// named, not stated: it prints the byte as a character in `Debug` form.
#[verifier::external_body]
pub(crate) fn hex_bytes(s: &str) -> (r: Result<Vec<u8>, String>)
    ensures
        bytes_result(r) == hex_decode(s@),
        r is Err && vstd::utf8::encode_utf8(s@).len() % 2 == 0 ==> r->Err_0@
            == hex_invalid_character_message(s@),
{
    hex::decode(s).map_err(|e| e.to_string())
}

/// Base58 text of `bytes`, in the Bitcoin alphabet and without a checksum.
///
/// Trusted: wraps `bs58::encode(..).into_string()` with the crate's default
/// alphabet. The contract states the encoding: the bytes read as one
/// big-endian number written in base 58, behind one `1` for each leading zero
/// byte.
#[verifier::external_body]
pub(crate) fn base58_text(bytes: &[u8]) -> (out: String)
    ensures
        out@ == base58(bytes@),
{
    bs58::encode(bytes).into_string()
}

} // verus!
