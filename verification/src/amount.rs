//! Conversion of decimal amounts, given as text, into whole base units:
//! BTC into satoshi, SOL into lamports.
//!
//! The conversion is exact decimal arithmetic: the amount is multiplied by a
//! power of ten and cut off towards zero, and what does not fit an unsigned
//! 64-bit number is clamped to its range.

use crate::text::chars_of;
use vstd::prelude::*;
use vstd::string::*;

verus! {

/// Whether `c` is a decimal digit.
pub open spec fn is_digit(c: char) -> bool {
    '0' <= c <= '9'
}

/// The value of the decimal digit `c`.
pub open spec fn digit_val(c: char) -> nat {
    (c as nat - '0' as nat) as nat
}

/// Whether all of `s` are decimal digits.
pub open spec fn all_digits(s: Seq<char>) -> bool {
    forall|i: int| 0 <= i < s.len() ==> is_digit(#[trigger] s[i])
}

/// The number that the digits `s` spell; zero for no digits.
pub open spec fn digits_value(s: Seq<char>) -> nat
    decreases s.len(),
{
    if s.len() == 0 {
        0
    } else {
        digits_value(s.drop_last()) * 10 + digit_val(s.last())
    }
}

/// Whether `s` starts with a sign.
pub open spec fn has_sign(s: Seq<char>) -> bool {
    s.len() > 0 && (s[0] == '+' || s[0] == '-')
}

/// `s` without its sign, if it has one.
pub open spec fn unsigned_part(s: Seq<char>) -> Seq<char> {
    if has_sign(s) {
        s.skip(1)
    } else {
        s
    }
}

/// Index of the first `.` in `s`, or the length of `s` where there is none.
pub open spec fn dot_index(s: Seq<char>) -> int
    decreases s.len(),
{
    if s.len() == 0 || s[0] == '.' {
        0
    } else {
        1 + dot_index(s.drop_first())
    }
}

/// The digits before the decimal point.
pub open spec fn whole_digits(s: Seq<char>) -> Seq<char> {
    unsigned_part(s).take(dot_index(unsigned_part(s)))
}

/// The digits behind the decimal point; none where there is no point.
pub open spec fn fraction_digits(s: Seq<char>) -> Seq<char> {
    let u = unsigned_part(s);
    if dot_index(u) < u.len() {
        u.skip(dot_index(u) + 1)
    } else {
        Seq::<char>::empty()
    }
}

/// A decimal amount: an optional sign, digits, and optionally a point and
/// more digits, with at least one digit in all.
pub open spec fn is_decimal_amount(s: Seq<char>) -> bool {
    &&& all_digits(whole_digits(s))
    &&& all_digits(fraction_digits(s))
    &&& whole_digits(s).len() + fraction_digits(s).len() > 0
}

/// The first `decimals` digits of the fraction, with zeros where the
/// fraction is shorter.
pub open spec fn scaled_fraction(s: Seq<char>, decimals: nat) -> Seq<char> {
    Seq::new(
        decimals,
        |i: int|
            if i < fraction_digits(s).len() {
                fraction_digits(s)[i]
            } else {
                '0'
            },
    )
}

/// The amount times ten to the power `decimals`, cut off towards zero, for
/// an amount without regard to its sign.
pub open spec fn scaled_magnitude(s: Seq<char>, decimals: nat) -> nat {
    digits_value(whole_digits(s) + scaled_fraction(s, decimals))
}

/// The number of base units in the decimal amount `s` at `decimals` decimal
/// places: zero for a negative amount, and at most `u64::MAX`.
pub open spec fn base_units(s: Seq<char>, decimals: nat) -> nat {
    if s.len() > 0 && s[0] == '-' {
        0
    } else if scaled_magnitude(s, decimals) > u64::MAX {
        u64::MAX as nat
    } else {
        scaled_magnitude(s, decimals)
    }
}

/// What [`parse_units`] returns: the base units of a decimal amount, or the
/// reason why the text is none.
pub open spec fn units_outcome(s: Seq<char>, decimals: nat) -> Result<u64, Seq<char>> {
    if s.len() == 0 {
        Err("cannot parse float from empty string"@)
    } else if !is_decimal_amount(s) {
        Err("invalid float literal"@)
    } else {
        Ok(base_units(s, decimals) as u64)
    }
}

/// The views behind a conversion result.
pub open spec fn units_view(r: Result<u64, String>) -> Result<u64, Seq<char>> {
    match r {
        Ok(n) => Ok(n),
        Err(e) => Err(e@),
    }
}

fn digits_in(chars: &Vec<char>, from: usize, to: usize) -> (r: bool)
    requires
        from <= to <= chars.len(),
    ensures
        r == all_digits(chars@.subrange(from as int, to as int)),
{
    let mut i: usize = from;
    while i < to
        invariant
            from <= i <= to <= chars.len(),
            forall|k: int| from <= k < i ==> is_digit(#[trigger] chars@[k]),
        decreases to - i,
    {
        if !(chars[i] >= '0' && chars[i] <= '9') {
            assert(chars@.subrange(from as int, to as int)[i - from] == chars@[i as int]);
            return false;
        }
        i = i + 1;
    }
    assert forall|k: int| 0 <= k < to - from implies is_digit(
        #[trigger] chars@.subrange(from as int, to as int)[k],
    ) by {
        assert(chars@.subrange(from as int, to as int)[k] == chars@[from + k]);
    }
    true
}

fn digit_number(c: char) -> (d: u64)
    requires
        is_digit(c),
    ensures
        d == digit_val(c),
        d <= 9,
{
    (c as u32 - '0' as u32) as u64
}

/// One more digit behind a clamped number: `acc` stands for a number that may
/// have been clamped to `u64::MAX` already.
fn push_digit(acc: u64, d: u64) -> (out: u64)
    requires
        d <= 9,
    ensures
        out == (if acc * 10 + d > u64::MAX {
            u64::MAX as int
        } else {
            acc * 10 + d
        }),
{
    match acc.checked_mul(10) {
        None => u64::MAX,
        Some(m) => match m.checked_add(d) {
            None => u64::MAX,
            Some(v) => v,
        },
    }
}

/// The clamp of a number to the range of `u64`.
pub open spec fn clamp(n: nat) -> nat {
    if n > u64::MAX {
        u64::MAX as nat
    } else {
        n
    }
}

/// The number that the digits `chars[from..to]` spell, clamped to the range
/// of `u64`.
pub fn digits_number(chars: &Vec<char>, from: usize, to: usize) -> (out: u64)
    requires
        from <= to <= chars.len(),
        all_digits(chars@.subrange(from as int, to as int)),
    ensures
        out == clamp(digits_value(chars@.subrange(from as int, to as int))),
{
    let ghost digits = chars@.subrange(from as int, to as int);
    let mut acc: u64 = 0;
    let mut i: usize = from;
    assert(digits.take(0) =~= Seq::<char>::empty());
    while i < to
        invariant
            from <= i <= to <= chars.len(),
            digits == chars@.subrange(from as int, to as int),
            all_digits(digits),
            acc == clamp(digits_value(digits.take(i - from))),
        decreases to - i,
    {
        proof {
            let next = digits.take(i - from + 1);
            assert(next.drop_last() =~= digits.take(i - from));
            assert(next.last() == chars@[i as int]);
            assert(is_digit(digits[i - from]));
        }
        acc = push_digit(acc, digit_number(chars[i]));
        i = i + 1;
    }
    assert(digits.take(to - from) =~= digits);
    acc
}

/// Whether `chars[from..to]` are all decimal digits.
pub fn digits_only(chars: &Vec<char>, from: usize, to: usize) -> (r: bool)
    requires
        from <= to <= chars.len(),
    ensures
        r == all_digits(chars@.subrange(from as int, to as int)),
{
    digits_in(chars, from, to)
}

proof fn lemma_dot_index(s: Seq<char>, i: int)
    requires
        0 <= i <= s.len(),
        forall|k: int| 0 <= k < i ==> s[k] != '.',
        i == s.len() || s[i] == '.',
    ensures
        dot_index(s) == i,
    decreases i,
{
    if i > 0 {
        let rest = s.drop_first();
        assert forall|k: int| 0 <= k < i - 1 implies rest[k] != '.' by {
            assert(rest[k] == s[k + 1]);
        }
        lemma_dot_index(rest, i - 1);
    }
}

/// Converts the decimal amount `text` into base units at `decimals` decimal
/// places. An amount is an optional sign, digits, and optionally a point and
/// more digits. Digits beyond the given places are cut off, a negative
/// amount counts as zero, and an amount beyond the range of `u64` as
/// `u64::MAX`. Nothing else is an amount: a number with an exponent such as
/// `1e3`, and the words `inf`, `infinity` and `nan`, are refused like any
/// other text.
pub fn parse_units(text: &str, decimals: u8) -> (r: Result<u64, String>)
    ensures
        units_view(r) == units_outcome(text@, decimals as nat),
{
    let chars = chars_of(text);
    let n = chars.len();
    if n == 0 {
        return Err(String::from_str("cannot parse float from empty string"));
    }
    let negative = chars[0] == '-';
    let start: usize = if chars[0] == '+' || chars[0] == '-' {
        1
    } else {
        0
    };
    let ghost u = unsigned_part(chars@);
    assert(u =~= chars@.subrange(start as int, n as int));
    let mut dot: usize = start;
    while dot < n && chars[dot] != '.'
        invariant
            start <= dot <= n,
            n == chars.len(),
            forall|k: int| start <= k < dot ==> chars@[k] != '.',
        decreases n - dot,
    {
        dot = dot + 1;
    }
    proof {
        assert forall|k: int| 0 <= k < dot - start implies u[k] != '.' by {
            assert(u[k] == chars@[start + k]);
        }
        lemma_dot_index(u, dot - start);
        assert(whole_digits(chars@) =~= chars@.subrange(start as int, dot as int));
    }
    let frac_from: usize = if dot < n {
        dot + 1
    } else {
        n
    };
    proof {
        assert(fraction_digits(chars@) =~= chars@.subrange(frac_from as int, n as int));
    }
    let well_formed = digits_in(&chars, start, dot) && digits_in(&chars, frac_from, n) && (dot
        - start) + (n - frac_from) > 0;
    if !well_formed {
        return Err(String::from_str("invalid float literal"));
    }
    let ghost whole = whole_digits(chars@);
    let ghost frac = scaled_fraction(chars@, decimals as nat);
    let mut acc: u64 = 0;
    let mut i: usize = start;
    assert(whole.take(0) =~= Seq::<char>::empty());
    while i < dot
        invariant
            start <= i <= dot <= n,
            n == chars.len(),
            whole == chars@.subrange(start as int, dot as int),
            all_digits(whole),
            acc == clamp(digits_value(whole.take(i - start))),
        decreases dot - i,
    {
        proof {
            let next = whole.take(i - start + 1);
            assert(next.drop_last() =~= whole.take(i - start));
            assert(next.last() == chars@[i as int]);
            assert(is_digit(whole[i - start]));
        }
        acc = push_digit(acc, digit_number(chars[i]));
        i = i + 1;
    }
    assert(whole.take(dot - start) =~= whole);
    let mut j: u8 = 0;
    assert((whole + frac.take(0)) =~= whole);
    while j < decimals
        invariant
            j <= decimals,
            start <= dot <= n,
            frac_from <= n,
            n == chars.len(),
            frac == scaled_fraction(chars@, decimals as nat),
            fraction_digits(chars@) == chars@.subrange(frac_from as int, n as int),
            all_digits(fraction_digits(chars@)),
            acc == clamp(digits_value(whole + frac.take(j as int))),
        decreases decimals - j,
    {
        let c: char = if (j as usize) < n - frac_from {
            chars[frac_from + j as usize]
        } else {
            '0'
        };
        proof {
            let next = whole + frac.take(j + 1);
            assert(next.drop_last() =~= whole + frac.take(j as int));
            assert(next.last() == frac[j as int]);
            assert(frac[j as int] == c);
            if (j as int) < fraction_digits(chars@).len() {
                assert(is_digit(fraction_digits(chars@)[j as int]));
            }
        }
        acc = push_digit(acc, digit_number(c));
        j = j + 1;
    }
    assert(frac.take(decimals as int) =~= frac);
    if negative {
        Ok(0)
    } else {
        Ok(acc)
    }
}

} // verus!
