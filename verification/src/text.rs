//! Operations on text that the standard library performs.

use crate::json::decimal_text;
use vstd::prelude::*;

verus! {

/// What `str::trim` leaves of a text: the text without the white space at
/// its two ends.
pub uninterp spec fn trim_text(text: Seq<char>) -> Seq<char>;

/// What the `Debug` form of a string is: the text between quotes, with
/// escapes where Rust writes them.
pub uninterp spec fn debug_quoted(text: Seq<char>) -> Seq<char>;

/// What `str::parse` reads from a text as an `i32`; `None` where it refuses
/// the text.
pub uninterp spec fn parse_i32_text(text: Seq<char>) -> Option<i32>;

/// The decimal text of an integer, with a minus sign where it is negative.
pub open spec fn signed_decimal_text(n: int) -> Seq<char> {
    if n < 0 {
        seq!['-'] + decimal_text((-n) as nat)
    } else {
        decimal_text(n as nat)
    }
}

/// `str::trim`.
#[verifier::external_body]
pub(crate) fn trim(text: &str) -> (trimmed: &str)
    ensures
        trimmed@ == trim_text(text@),
{
    text.trim()
}

/// The `Debug` form of a string, as `format!` writes it.
#[verifier::external_body]
pub(crate) fn debug_text(text: &str) -> (quoted: String)
    ensures
        quoted@ == debug_quoted(text@),
{
    format!("{:?}", text)
}

/// `i64::to_string`: the decimal text of the number.
#[verifier::external_body]
pub(crate) fn i64_text(n: i64) -> (text: String)
    ensures
        text@ == signed_decimal_text(n as int),
{
    n.to_string()
}

/// `str::parse` at `i32`.
#[verifier::external_body]
pub(crate) fn parse_i32(text: &str) -> (n: Option<i32>)
    ensures
        n == parse_i32_text(text@),
{
    text.parse::<i32>().ok()
}

} // verus!
