//! User identities.
//!
//! A user is known by a UUID. The library holds it as the 128-bit number that
//! the UUID's sixteen bytes spell, first byte highest, so that it can key the
//! presence map; on the wire it travels in the hyphenated lowercase form.

use crate::hex::hex_char;
use vstd::prelude::*;

verus! {

/// The hexadecimal digit of `id` at place `k`, counted from the highest.
pub open spec fn uuid_digit(id: u128, k: int) -> char {
    hex_char(((id >> ((4 * (31 - k)) as u128)) & 0xf) as int)
}

/// The hyphenated lowercase text of a UUID: 32 hexadecimal digits in groups
/// of 8, 4, 4, 4 and 12.
pub open spec fn hyphenated(id: u128) -> Seq<char> {
    Seq::new(
        36,
        |i: int|
            if i == 8 || i == 13 || i == 18 || i == 23 {
                '-'
            } else if i < 8 {
                uuid_digit(id, i)
            } else if i < 13 {
                uuid_digit(id, i - 1)
            } else if i < 18 {
                uuid_digit(id, i - 2)
            } else if i < 23 {
                uuid_digit(id, i - 3)
            } else {
                uuid_digit(id, i - 4)
            },
    )
}

/// What `Uuid::parse_str` reads from a text, as a number; `None` where it
/// refuses the text.
pub uninterp spec fn uuid_parse(text: Seq<char>) -> Option<u128>;

/// `Uuid::from_u128` and the UUID's `to_string`: the hyphenated lowercase
/// text of the identity.
#[verifier::external_body]
pub(crate) fn uuid_text(id: u128) -> (text: String)
    ensures
        text@ == hyphenated(id),
{
    uuid::Uuid::from_u128(id).to_string()
}

/// `Uuid::parse_str` and `Uuid::as_u128`: the identity that a text names.
#[verifier::external_body]
pub(crate) fn parse_uuid(text: &str) -> (id: Option<u128>)
    ensures
        id == uuid_parse(text@),
{
    uuid::Uuid::parse_str(text).ok().map(|u| u.as_u128())
}

/// The wire text of a user identity.
pub fn user_id_text(id: u128) -> (text: String)
    ensures
        text@ == hyphenated(id),
        text@.len() == 36,
{
    uuid_text(id)
}

/// Reads a user identity from its text.
pub fn user_id_from_text(text: &str) -> (id: Option<u128>)
    ensures
        id == uuid_parse(text@),
{
    parse_uuid(text)
}

/// Hyphenated text needs no escape inside a JSON string.
pub proof fn lemma_hyphenated_is_plain(id: u128)
    ensures
        crate::json::is_plain(hyphenated(id)),
{
    assert forall|i: int| 0 <= i < hyphenated(id).len() implies crate::json::is_plain_char(
        #[trigger] hyphenated(id)[i],
    ) by {
        assert(forall|n: int| 0 <= n < 16 ==> crate::json::is_plain_char(#[trigger] hex_char(n)));
        let k = if i < 8 {
            i
        } else if i < 13 {
            i - 1
        } else if i < 18 {
            i - 2
        } else if i < 23 {
            i - 3
        } else {
            i - 4
        };
        let shift = (4 * (31 - k)) as u128;
        assert(((id >> shift) & 0xf) < 16) by (bit_vector);
    }
}

} // verus!
