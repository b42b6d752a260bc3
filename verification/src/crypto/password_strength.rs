//! A simple estimate of how strong a password is, from its length, the
//! kinds of characters in it and a few well-known weak patterns.

use crate::text::{
    byte_len, char_is_lowercase, char_is_uppercase, chars_of, contains_text, is_lowercase,
    is_uppercase, join2, lowercased, occurs_in, str_lowercase,
};
use vstd::prelude::*;
use vstd::string::*;

verus! {

/// How strong a password is.
#[derive(Debug, Clone, Copy, PartialEq, Eq, Structural)]
pub enum PasswordStrength {
    VeryWeak,
    Weak,
    Medium,
    Strong,
    VeryStrong,
}

impl PasswordStrength {
    /// The strength for a score: very weak up to 1, then one step per point,
    /// very strong from 5.
    pub open spec fn spec_from_score(score: u8) -> PasswordStrength {
        if score <= 1 {
            PasswordStrength::VeryWeak
        } else if score == 2 {
            PasswordStrength::Weak
        } else if score == 3 {
            PasswordStrength::Medium
        } else if score == 4 {
            PasswordStrength::Strong
        } else {
            PasswordStrength::VeryStrong
        }
    }

    /// The rank of the strength, 0 for very weak to 4 for very strong.
    pub open spec fn spec_value(&self) -> u8 {
        match self {
            PasswordStrength::VeryWeak => 0,
            PasswordStrength::Weak => 1,
            PasswordStrength::Medium => 2,
            PasswordStrength::Strong => 3,
            PasswordStrength::VeryStrong => 4,
        }
    }

    /// The Chinese name of the strength.
    pub open spec fn spec_cn(&self) -> Seq<char> {
        match self {
            PasswordStrength::VeryWeak => "非常弱"@,
            PasswordStrength::Weak => "弱"@,
            PasswordStrength::Medium => "中等"@,
            PasswordStrength::Strong => "强"@,
            PasswordStrength::VeryStrong => "非常强"@,
        }
    }

    /// The English name of the strength.
    pub open spec fn spec_en(&self) -> Seq<char> {
        match self {
            PasswordStrength::VeryWeak => "Very Weak"@,
            PasswordStrength::Weak => "Weak"@,
            PasswordStrength::Medium => "Medium"@,
            PasswordStrength::Strong => "Strong"@,
            PasswordStrength::VeryStrong => "Very Strong"@,
        }
    }

    /// Medium or stronger.
    pub open spec fn spec_is_sufficient(&self) -> bool {
        self.spec_value() >= 2
    }

    /// The strength for a score.
    pub fn from_score(score: u8) -> (s: PasswordStrength)
        ensures
            s == PasswordStrength::spec_from_score(score),
    {
        if score <= 1 {
            PasswordStrength::VeryWeak
        } else if score == 2 {
            PasswordStrength::Weak
        } else if score == 3 {
            PasswordStrength::Medium
        } else if score == 4 {
            PasswordStrength::Strong
        } else {
            PasswordStrength::VeryStrong
        }
    }

    /// The rank of the strength, for comparing.
    pub fn value(&self) -> (v: u8)
        ensures
            v == self.spec_value(),
    {
        match self {
            PasswordStrength::VeryWeak => 0,
            PasswordStrength::Weak => 1,
            PasswordStrength::Medium => 2,
            PasswordStrength::Strong => 3,
            PasswordStrength::VeryStrong => 4,
        }
    }

    /// The Chinese name of the strength.
    pub fn to_string_cn(&self) -> (name: &'static str)
        ensures
            name@ == self.spec_cn(),
    {
        match self {
            PasswordStrength::VeryWeak => "非常弱",
            PasswordStrength::Weak => "弱",
            PasswordStrength::Medium => "中等",
            PasswordStrength::Strong => "强",
            PasswordStrength::VeryStrong => "非常强",
        }
    }

    /// The English name of the strength.
    pub fn to_string_en(&self) -> (name: &'static str)
        ensures
            name@ == self.spec_en(),
    {
        match self {
            PasswordStrength::VeryWeak => "Very Weak",
            PasswordStrength::Weak => "Weak",
            PasswordStrength::Medium => "Medium",
            PasswordStrength::Strong => "Strong",
            PasswordStrength::VeryStrong => "Very Strong",
        }
    }

    /// Whether the strength is enough for a wallet: medium or stronger.
    pub fn is_sufficient(&self) -> (r: bool)
        ensures
            r == self.spec_is_sufficient(),
    {
        match self {
            PasswordStrength::VeryWeak => false,
            PasswordStrength::Weak => false,
            _ => true,
        }
    }
}

/// What the check of a password has found.
#[derive(Debug, Clone)]
pub struct PasswordStrengthResult {
    pub strength: PasswordStrength,
    /// 0 to 4.
    pub score: u8,
    /// A rough estimate of the time that guessing takes, in seconds.
    pub crack_time_seconds: u64,
    /// Advice, in the order in which the checks are made.
    pub feedback: Vec<String>,
}

/// One of the characters `!@#$%^&*()_+-=[]{}|;:,.<>?`.
pub open spec fn is_special(c: char) -> bool {
    c == '!' || c == '@' || c == '#' || c == '$' || c == '%' || c == '^' || c == '&' || c == '*'
        || c == '(' || c == ')' || c == '_' || c == '+' || c == '-' || c == '=' || c == '['
        || c == ']' || c == '{' || c == '}' || c == '|' || c == ';' || c == ':' || c == ','
        || c == '.' || c == '<' || c == '>' || c == '?'
}

/// Whether `s` holds an uppercase letter.
pub open spec fn has_upper(s: Seq<char>) -> bool {
    exists|i: int| 0 <= i < s.len() && char_is_uppercase(#[trigger] s[i])
}

/// Whether `s` holds a lowercase letter.
pub open spec fn has_lower(s: Seq<char>) -> bool {
    exists|i: int| 0 <= i < s.len() && char_is_lowercase(#[trigger] s[i])
}

/// Whether `s` holds one of the digits `0` to `9`.
pub open spec fn has_digit(s: Seq<char>) -> bool {
    exists|i: int| 0 <= i < s.len() && '0' <= #[trigger] s[i] <= '9'
}

/// Whether `s` holds a special character.
pub open spec fn has_special(s: Seq<char>) -> bool {
    exists|i: int| 0 <= i < s.len() && is_special(#[trigger] s[i])
}

/// Whether `s`, in lower case, holds one of the well-known weak patterns.
pub open spec fn has_common_pattern(s: Seq<char>) -> bool {
    let lower = str_lowercase(s);
    occurs_in(lower, "123456"@) || occurs_in(lower, "password"@) || occurs_in(lower, "qwerty"@)
        || occurs_in(lower, "abc123"@)
}

/// One where the condition holds, else zero.
pub open spec fn point(b: bool) -> nat {
    if b {
        1
    } else {
        0
    }
}

/// The points before the weak patterns are looked at: one for twelve bytes
/// or more, and one for each kind of character.
pub open spec fn raw_score(s: Seq<char>) -> nat {
    point(byte_len(s) >= 12) + point(has_upper(s)) + point(has_lower(s)) + point(has_digit(s))
        + point(has_special(s))
}

/// The score of a password: the points, less one for a weak pattern, and
/// four at most.
pub open spec fn score_of(s: Seq<char>) -> nat {
    let raw = raw_score(s);
    let adjusted = if has_common_pattern(s) && raw > 0 {
        (raw - 1) as nat
    } else {
        raw
    };
    if adjusted > 4 {
        4
    } else {
        adjusted
    }
}

/// The time that guessing a password of a given score may take, in
/// seconds: from a second to a year.
pub open spec fn crack_time(score: nat) -> nat {
    if score == 0 {
        1
    } else if score == 1 {
        60
    } else if score == 2 {
        3600
    } else if score == 3 {
        86400
    } else if score == 4 {
        31536000
    } else {
        3153600000
    }
}

/// The line of advice where `needed`, none otherwise.
pub open spec fn advice(needed: bool, line: Seq<char>) -> Seq<Seq<char>> {
    if needed {
        seq![line]
    } else {
        Seq::<Seq<char>>::empty()
    }
}

/// The advice for a password, in the order of the checks.
pub open spec fn feedback_of(s: Seq<char>) -> Seq<Seq<char>> {
    advice(byte_len(s) < 8, "密码至少需要8个字符"@) + advice(!has_upper(s), "建议包含大写字母"@) + advice(
        !has_lower(s),
        "建议包含小写字母"@,
    ) + advice(!has_digit(s), "建议包含数字"@) + advice(!has_special(s), "建议包含特殊字符"@) + advice(
        has_common_pattern(s),
        "警告: 密码包含常见弱密码模式"@,
    )
}

/// The lines of `lines`, each by its view.
pub open spec fn lines_view(lines: Seq<String>) -> Seq<Seq<char>> {
    Seq::new(lines.len(), |i: int| lines[i]@)
}

fn special(c: char) -> (r: bool)
    ensures
        r == is_special(c),
{
    c == '!' || c == '@' || c == '#' || c == '$' || c == '%' || c == '^' || c == '&' || c == '*'
        || c == '(' || c == ')' || c == '_' || c == '+' || c == '-' || c == '=' || c == '['
        || c == ']' || c == '{' || c == '}' || c == '|' || c == ';' || c == ':' || c == ','
        || c == '.' || c == '<' || c == '>' || c == '?'
}

/// The four kinds of characters in `chars`: upper, lower, digit, special.
fn kinds(chars: &Vec<char>) -> (k: (bool, bool, bool, bool))
    ensures
        k.0 == has_upper(chars@),
        k.1 == has_lower(chars@),
        k.2 == has_digit(chars@),
        k.3 == has_special(chars@),
{
    let mut upper = false;
    let mut lower = false;
    let mut digit = false;
    let mut other = false;
    let mut i: usize = 0;
    while i < chars.len()
        invariant
            i <= chars.len(),
            upper == (exists|k: int| 0 <= k < i && char_is_uppercase(#[trigger] chars@[k])),
            lower == (exists|k: int| 0 <= k < i && char_is_lowercase(#[trigger] chars@[k])),
            digit == (exists|k: int| 0 <= k < i && '0' <= #[trigger] chars@[k] <= '9'),
            other == (exists|k: int| 0 <= k < i && is_special(#[trigger] chars@[k])),
        decreases chars.len() - i,
    {
        let c = chars[i];
        if is_uppercase(c) {
            upper = true;
        }
        if is_lowercase(c) {
            lower = true;
        }
        if c >= '0' && c <= '9' {
            digit = true;
        }
        if special(c) {
            other = true;
        }
        i = i + 1;
    }
    (upper, lower, digit, other)
}

fn common_pattern(password: &str) -> (r: bool)
    ensures
        r == has_common_pattern(password@),
{
    let lower = lowercased(password);
    let chars = chars_of(lower.as_str());
    contains_text(&chars, "123456") || contains_text(&chars, "password") || contains_text(
        &chars,
        "qwerty",
    ) || contains_text(&chars, "abc123")
}

fn add_advice(feedback: &mut Vec<String>, needed: bool, line: &str)
    ensures
        lines_view(final(feedback)@) == lines_view(old(feedback)@) + advice(needed, line@),
{
    if needed {
        feedback.push(String::from_str(line));
        assert(lines_view(feedback@) =~= lines_view(old(feedback)@) + seq![line@]);
    } else {
        assert(lines_view(feedback@) =~= lines_view(old(feedback)@) + Seq::<Seq<char>>::empty());
    }
}

/// Rates `password`: one point for twelve bytes or more, one for each of
/// uppercase letters, lowercase letters, digits and special characters, one
/// off for a well-known weak pattern, four at most. The advice says what is
/// missing.
pub fn check_password_strength(password: &str) -> (r: PasswordStrengthResult)
    ensures
        r.score == score_of(password@),
        r.strength == PasswordStrength::spec_from_score(r.score),
        r.crack_time_seconds == crack_time(r.score as nat),
        lines_view(r.feedback@) == feedback_of(password@),
{
    let mut score: u8 = 0;
    let mut feedback: Vec<String> = Vec::new();
    assert(lines_view(feedback@) =~= Seq::<Seq<char>>::empty());
    let len = password.as_bytes().len();
    add_advice(&mut feedback, len < 8, "密码至少需要8个字符");
    if len >= 12 {
        score = score + 1;
    }
    let chars = chars_of(password);
    let k = kinds(&chars);
    if k.0 {
        score = score + 1;
    }
    if k.1 {
        score = score + 1;
    }
    if k.2 {
        score = score + 1;
    }
    if k.3 {
        score = score + 1;
    }
    assert(score == raw_score(password@));
    add_advice(&mut feedback, !k.0, "建议包含大写字母");
    add_advice(&mut feedback, !k.1, "建议包含小写字母");
    add_advice(&mut feedback, !k.2, "建议包含数字");
    add_advice(&mut feedback, !k.3, "建议包含特殊字符");
    let common = common_pattern(password);
    add_advice(&mut feedback, common, "警告: 密码包含常见弱密码模式");
    if common && score > 0 {
        score = score - 1;
    }
    if score > 4 {
        score = 4;
    }
    let strength = PasswordStrength::from_score(score);
    let crack_time_seconds: u64 = if score == 0 {
        1
    } else if score == 1 {
        60
    } else if score == 2 {
        3600
    } else if score == 3 {
        86400
    } else {
        31536000
    };
    PasswordStrengthResult { strength, score, crack_time_seconds, feedback }
}

/// What [`validate_password_strength`] returns: a password under eight
/// bytes is too short, and one that rates below medium or below the asked
/// strength is too weak.
pub open spec fn password_verdict(password: Seq<char>, min_strength: PasswordStrength) -> Result<
    (),
    Seq<char>,
> {
    let strength = PasswordStrength::spec_from_score(score_of(password) as u8);
    if byte_len(password) < 8 {
        Err("密码至少需要8个字符"@)
    } else if !strength.spec_is_sufficient() || strength.spec_value() < min_strength.spec_value() {
        Err("密码强度不足: "@ + strength.spec_cn())
    } else {
        Ok(())
    }
}

/// Checks that `password` has eight bytes or more and rates at least medium
/// and at least `min_strength`.
pub fn validate_password_strength(password: &str, min_strength: PasswordStrength) -> (r: Result<
    (),
    String,
>)
    ensures
        match r {
            Ok(_) => password_verdict(password@, min_strength) is Ok,
            Err(e) => password_verdict(password@, min_strength) == Err::<(), Seq<char>>(e@),
        },
{
    if password.as_bytes().len() < 8 {
        return Err(String::from_str("密码至少需要8个字符"));
    }
    let result = check_password_strength(password);
    if !result.strength.is_sufficient() || result.strength.value() < min_strength.value() {
        return Err(join2("密码强度不足: ", result.strength.to_string_cn()));
    }
    Ok(())
}

} // verus!
