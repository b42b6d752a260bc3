//! The little of JSON that the wallet reads and writes: a flat object of
//! strings and numbers on the way in, quoted strings on the way out.

use crate::codec::hex_nibble;
use crate::text::{join3, same_text, text_result};
use vstd::prelude::*;
use vstd::string::*;

verus! {

/// A value of a JSON object, as far as the wallet looks into it.
#[derive(Debug, Clone)]
pub enum JsonValue {
    Null,
    Text(String),
    /// A number; its value where it is a non-negative integer below 2^64.
    Number(Option<u64>),
    /// A boolean, an array or an object.
    Other,
}

/// Mathematical content of a [`JsonValue`].
pub enum JsonModel {
    Null,
    Text(Seq<char>),
    Number(Option<u64>),
    Other,
}

impl View for JsonValue {
    type V = JsonModel;

    open spec fn view(&self) -> JsonModel {
        match self {
            JsonValue::Null => JsonModel::Null,
            JsonValue::Text(t) => JsonModel::Text(t@),
            JsonValue::Number(n) => JsonModel::Number(*n),
            JsonValue::Other => JsonModel::Other,
        }
    }
}

/// One member of a JSON object.
#[derive(Debug, Clone)]
pub struct JsonField {
    pub name: String,
    pub value: JsonValue,
}

impl View for JsonField {
    type V = (Seq<char>, JsonModel);

    open spec fn view(&self) -> (Seq<char>, JsonModel) {
        (self.name@, self.value@)
    }
}

/// The members of an object, each by its view.
pub open spec fn members(fields: Seq<JsonField>) -> Seq<(Seq<char>, JsonModel)> {
    Seq::new(fields.len(), |i: int| fields[i]@)
}

/// What the `serde_json` parser makes of a text: an error message where the
/// text is no JSON, `None` where it is JSON but no object, and else the
/// members of the object, each name once.
pub uninterp spec fn json_object_parse(text: Seq<char>) -> Result<
    Option<Seq<(Seq<char>, JsonModel)>>,
    Seq<char>,
>;

/// A parsing result with the members by their views.
pub open spec fn parsed_members(r: Result<Option<Vec<JsonField>>, String>) -> Result<
    Option<Seq<(Seq<char>, JsonModel)>>,
    Seq<char>,
> {
    match r {
        Ok(Some(fields)) => Ok(Some(members(fields@))),
        Ok(None) => Ok(None),
        Err(e) => Err(e@),
    }
}

/// Parses `text` as JSON and hands out the members of a top-level object.
///
/// Trusted: wraps `serde_json::from_str` for `serde_json::Value`. The members
/// of an object are handed back in the order of the crate's map, a string as
/// its text, a number as `as_u64()` gives it, anything nested without its
/// content; an error as its `Display` text. The contract only names the
/// result.
#[verifier::external_body]
pub(crate) fn parse_object(text: &str) -> (r: Result<Option<Vec<JsonField>>, String>)
    ensures
        parsed_members(r) == json_object_parse(text@),
{
    match serde_json::from_str::<serde_json::Value>(text) {
        Err(e) => Err(e.to_string()),
        Ok(serde_json::Value::Object(map)) => Ok(Some(map.into_iter().map(|(name, v)| JsonField {
            name,
            value: match v {
                serde_json::Value::Null => JsonValue::Null,
                serde_json::Value::String(t) => JsonValue::Text(t),
                serde_json::Value::Number(n) => JsonValue::Number(n.as_u64()),
                _ => JsonValue::Other,
            },
        }).collect())),
        Ok(_) => Ok(None),
    }
}

/// What stands for `c` inside a JSON string: a short escape for the quote,
/// the backslash and five control characters, `\u00XX` for the other
/// characters below U+0020, and the character itself otherwise.
pub open spec fn escaped_char(c: char) -> Seq<char> {
    if c == '"' {
        seq!['\\', '"']
    } else if c == '\\' {
        seq!['\\', '\\']
    } else if c == '\u{8}' {
        seq!['\\', 'b']
    } else if c == '\t' {
        seq!['\\', 't']
    } else if c == '\n' {
        seq!['\\', 'n']
    } else if c == '\u{c}' {
        seq!['\\', 'f']
    } else if c == '\r' {
        seq!['\\', 'r']
    } else if (c as u32) < 0x20 {
        seq!['\\', 'u', '0', '0', hex_nibble(c as int / 16), hex_nibble(c as int % 16)]
    } else {
        seq![c]
    }
}

/// The characters of `s`, each as it stands inside a JSON string.
pub open spec fn escaped(s: Seq<char>) -> Seq<char>
    decreases s.len(),
{
    if s.len() == 0 {
        Seq::<char>::empty()
    } else {
        escaped(s.drop_last()) + escaped_char(s.last())
    }
}

/// `s` as a JSON string: escaped, between double quotes.
pub open spec fn json_quoted(s: Seq<char>) -> Seq<char> {
    seq!['"'] + escaped(s) + seq!['"']
}

/// Writes `s` as a JSON string.
///
/// Trusted: wraps `serde_json::to_string` for a `str`. The contract states
/// what the crate's escape table shows, and that the call succeeds: writing a
/// string into memory has no way to fail. An error would be handed back as
/// its `Display` text.
#[verifier::external_body]
pub(crate) fn quote(s: &str) -> (r: Result<String, String>)
    ensures
        r is Ok,
        r->Ok_0@ == json_quoted(s@),
{
    serde_json::to_string(s).map_err(|e| e.to_string())
}

/// The value of the first member named `name`, if there is one.
pub open spec fn lookup(doc: Seq<(Seq<char>, JsonModel)>, name: Seq<char>) -> Option<JsonModel>
    decreases doc.len(),
{
    if doc.len() == 0 {
        None
    } else if doc[0].0 == name {
        Some(doc[0].1)
    } else {
        lookup(doc.drop_first(), name)
    }
}

/// A member that must be there and be a string.
pub open spec fn required_text(doc: Seq<(Seq<char>, JsonModel)>, name: Seq<char>) -> Result<
    Seq<char>,
    Seq<char>,
> {
    match lookup(doc, name) {
        None => Err("missing field `"@ + name + "`"@),
        Some(JsonModel::Text(t)) => Ok(t),
        Some(_) => Err("invalid type for field `"@ + name + "`, expected a string"@),
    }
}

/// A member that may be missing or null, and else must be a string.
pub open spec fn optional_text(doc: Seq<(Seq<char>, JsonModel)>, name: Seq<char>) -> Result<
    Option<Seq<char>>,
    Seq<char>,
> {
    match lookup(doc, name) {
        None => Ok(None),
        Some(JsonModel::Null) => Ok(None),
        Some(JsonModel::Text(t)) => Ok(Some(t)),
        Some(_) => Err("invalid type for field `"@ + name + "`, expected a string"@),
    }
}

/// The number in the member named `name`; `None` where the member is
/// missing or is no non-negative integer below 2^64.
pub open spec fn number_of(doc: Seq<(Seq<char>, JsonModel)>, name: Seq<char>) -> Option<u64> {
    match lookup(doc, name) {
        Some(JsonModel::Number(Some(n))) => Some(n),
        _ => None,
    }
}

/// The optional text behind a result, by its view.
pub open spec fn optional_result(r: Result<Option<String>, String>) -> Result<
    Option<Seq<char>>,
    Seq<char>,
> {
    match r {
        Ok(Some(t)) => Ok(Some(t@)),
        Ok(None) => Ok(None),
        Err(e) => Err(e@),
    }
}

/// Index of the first member named `name`.
pub fn find(fields: &Vec<JsonField>, name: &str) -> (r: Option<usize>)
    ensures
        match r {
            Some(i) => i < fields.len() && lookup(members(fields@), name@) == Some(
                fields@[i as int].value@,
            ),
            None => lookup(members(fields@), name@) is None,
        },
{
    let ghost doc = members(fields@);
    let mut i: usize = 0;
    assert(doc.skip(0) =~= doc);
    while i < fields.len()
        invariant
            i <= fields.len(),
            doc == members(fields@),
            lookup(doc, name@) == lookup(doc.skip(i as int), name@),
        decreases fields.len() - i,
    {
        let ghost rest = doc.skip(i as int);
        assert(rest[0] == doc[i as int]);
        assert(doc[i as int] == fields@[i as int]@);
        if same_text(fields[i].name.as_str(), name) {
            return Some(i);
        }
        assert(rest.drop_first() =~= doc.skip(i as int + 1));
        i = i + 1;
    }
    None
}

fn type_error(name: &str) -> (e: String)
    ensures
        e@ == "invalid type for field `"@ + name@ + "`, expected a string"@,
{
    join3("invalid type for field `", name, "`, expected a string")
}

/// The text of the member named `name`, which must be there and be a
/// string.
pub fn get_required_text(fields: &Vec<JsonField>, name: &str) -> (r: Result<String, String>)
    ensures
        text_result(r) == required_text(members(fields@), name@),
{
    match find(fields, name) {
        None => Err(join3("missing field `", name, "`")),
        Some(i) => match &fields[i].value {
            JsonValue::Text(t) => Ok(t.clone()),
            _ => Err(type_error(name)),
        },
    }
}

/// The text of the member named `name`, which may be missing or null.
pub fn get_optional_text(fields: &Vec<JsonField>, name: &str) -> (r: Result<
    Option<String>,
    String,
>)
    ensures
        optional_result(r) == optional_text(members(fields@), name@),
{
    match find(fields, name) {
        None => Ok(None),
        Some(i) => match &fields[i].value {
            JsonValue::Null => Ok(None),
            JsonValue::Text(t) => Ok(Some(t.clone())),
            _ => Err(type_error(name)),
        },
    }
}

/// The number in the member named `name`, where there is one.
pub fn get_number(fields: &Vec<JsonField>, name: &str) -> (r: Option<u64>)
    ensures
        r == number_of(members(fields@), name@),
{
    match find(fields, name) {
        None => None,
        Some(i) => match &fields[i].value {
            JsonValue::Number(Some(n)) => Some(*n),
            _ => None,
        },
    }
}

} // verus!
