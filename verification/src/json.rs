//! JSON values as they cross the wire.
//!
//! The values themselves are `serde_json`'s. Nothing here looks inside one:
//! each operation that the protocol needs is one call into `serde_json`, and
//! its contract speaks of the value through the names below.

use vstd::prelude::*;

verus! {

/// `serde_json::Value`, carried as it is: nothing here looks inside.
#[verifier::external_type_specification]
#[verifier::external_body]
pub struct ExValue(serde_json::Value);

/// `serde_json::Error`: why a text is no JSON document.
#[verifier::external_type_specification]
#[verifier::external_body]
pub struct ExJsonError(serde_json::Error);

/// The compact text that `serde_json` prints for a value.
pub uninterp spec fn json_text(value: serde_json::Value) -> Seq<char>;

/// The value that a text parses to, if it is one JSON document.
pub uninterp spec fn json_parse(text: Seq<char>) -> Option<serde_json::Value>;

/// The member of an object under a key; `None` where the value is no object
/// or has no such member.
pub uninterp spec fn json_member(value: serde_json::Value, key: Seq<char>) -> Option<
    serde_json::Value,
>;

/// The characters of a JSON string; `None` for every other kind of value.
pub uninterp spec fn json_str(value: serde_json::Value) -> Option<Seq<char>>;

/// The JSON string with the given characters.
pub uninterp spec fn json_string(chars: Seq<char>) -> serde_json::Value;

/// The JSON number for an unsigned integer.
pub uninterp spec fn json_number(n: nat) -> serde_json::Value;

/// The JSON object built from the given members, in this order.
pub uninterp spec fn json_object(members: Seq<(Seq<char>, serde_json::Value)>) -> serde_json::Value;

/// A character that JSON writes as itself between quotes.
pub open spec fn is_plain_char(c: char) -> bool {
    c != '"' && c != '\\' && c as u32 >= 0x20
}

/// Text that needs no escape inside a JSON string.
pub open spec fn is_plain(chars: Seq<char>) -> bool {
    forall|i: int| 0 <= i < chars.len() ==> is_plain_char(#[trigger] chars[i])
}

/// Text between double quotes.
pub open spec fn in_quotes(chars: Seq<char>) -> Seq<char> {
    seq!['"'] + chars + seq!['"']
}

/// The decimal digit of a value below ten.
pub open spec fn digit_char(d: nat) -> char {
    if d == 0 {
        '0'
    } else if d == 1 {
        '1'
    } else if d == 2 {
        '2'
    } else if d == 3 {
        '3'
    } else if d == 4 {
        '4'
    } else if d == 5 {
        '5'
    } else if d == 6 {
        '6'
    } else if d == 7 {
        '7'
    } else if d == 8 {
        '8'
    } else {
        '9'
    }
}

/// The decimal text of a natural number, without leading zeros.
pub open spec fn decimal_text(n: nat) -> Seq<char>
    decreases n,
{
    if n < 10 {
        seq![digit_char(n)]
    } else {
        decimal_text(n / 10).push(digit_char(n % 10))
    }
}

/// `serde_json::from_str` at `Value`: a value exactly when the text is one
/// JSON document, and then the value it denotes.
#[verifier::external_body]
pub(crate) fn parse_value(text: &str) -> (parsed: Result<serde_json::Value, serde_json::Error>)
    ensures
        match parsed {
            Ok(value) => json_parse(text@) == Some(value),
            Err(_) => json_parse(text@) is None,
        },
{
    serde_json::from_str::<serde_json::Value>(text)
}

/// `Value::get` with a string key: the member of an object, nothing for a
/// missing key or a value that is no object.
#[verifier::external_body]
pub(crate) fn member(value: &serde_json::Value, key: &str) -> (found: Option<serde_json::Value>)
    ensures
        found == json_member(*value, key@),
{
    value.get(key).cloned()
}

/// `Value::as_str`: the characters of a string value, nothing for any other.
#[verifier::external_body]
pub(crate) fn as_text(value: &serde_json::Value) -> (chars: Option<String>)
    ensures
        match chars {
            Some(s) => json_str(*value) == Some(s@),
            None => json_str(*value) is None,
        },
{
    value.as_str().map(String::from)
}

/// `Value::from` at `&str`: the string value with these characters. It reads
/// back as the same characters, and prints between quotes unchanged where no
/// character needs an escape.
#[verifier::external_body]
pub(crate) fn string_value(chars: &str) -> (value: serde_json::Value)
    ensures
        value == json_string(chars@),
        json_str(value) == Some(chars@),
        is_plain(chars@) ==> json_text(value) == in_quotes(chars@),
{
    serde_json::Value::from(chars)
}

/// `Value::from` at `usize`: the number, which prints as its decimal text.
#[verifier::external_body]
pub(crate) fn number_value(n: usize) -> (value: serde_json::Value)
    ensures
        value == json_number(n as nat),
        json_text(value) == decimal_text(n as nat),
{
    serde_json::Value::from(n)
}

/// `Value::from_iter` over pairs: the object with these members.
#[verifier::external_body]
pub(crate) fn object_value(members: Vec<(String, serde_json::Value)>) -> (value: serde_json::Value)
    ensures
        value == json_object(members@.map_values(|m: (String, serde_json::Value)| (m.0@, m.1))),
{
    members.into_iter().collect()
}

/// `Value`'s `to_string`: the compact text of the value.
#[verifier::external_body]
pub(crate) fn value_text(value: &serde_json::Value) -> (text: String)
    ensures
        text@ == json_text(*value),
{
    value.to_string()
}

/// `Value::clone`.
#[verifier::external_body]
pub(crate) fn copy_value(value: &serde_json::Value) -> (copy: serde_json::Value)
    ensures
        copy == *value,
{
    value.clone()
}

} // verus!
