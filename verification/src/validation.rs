//! The rules that a request must meet before anything is stored.

use crate::api::ErrorField;
use crate::text::{trim, trim_text};
use vstd::prelude::*;
use vstd::string::*;
use vstd::utf8::encode_utf8;

verus! {

/// The shortest user name and the shortest password, in bytes.
pub const MIN_LEN: usize = 3;

/// The longest user name, in bytes.
pub const MAX_USERNAME_LEN: usize = 255;

/// What is wrong with a user name of `len` bytes, if anything.
pub open spec fn username_complaint(len: nat) -> Option<Seq<char>> {
    if len == 0 {
        Some("username cannot be blank"@)
    } else if len < MIN_LEN {
        Some("username length must be greater than 2"@)
    } else if len > MAX_USERNAME_LEN {
        Some("username length must be less than 255"@)
    } else {
        None
    }
}

/// What is wrong with a password of `len` bytes, if anything.
pub open spec fn password_complaint(len: nat) -> Option<Seq<char>> {
    if len == 0 {
        Some("password cannot be blank"@)
    } else if len < MIN_LEN {
        Some("password length must be greater than 2"@)
    } else {
        None
    }
}

/// Whether a list of complaints is the one that a registration with these
/// lengths earns: the complaint about the user name, if any, then the one
/// about the password, if any.
pub open spec fn is_registration_report(
    errors: Seq<ErrorField>,
    username_len: nat,
    password_len: nat,
) -> bool {
    match (username_complaint(username_len), password_complaint(password_len)) {
        (None, None) => errors.len() == 0,
        (Some(u), None) => errors.len() == 1 && errors[0].shows("username"@, u),
        (None, Some(p)) => errors.len() == 1 && errors[0].shows("password"@, p),
        (Some(u), Some(p)) => errors.len() == 2 && errors[0].shows("username"@, u)
            && errors[1].shows("password"@, p),
    }
}

/// Checks the user name and the password of a registration. Lengths count
/// bytes. An empty list admits the request.
pub fn validate_registration(username: &str, password: &str) -> (errors: Vec<ErrorField>)
    ensures
        is_registration_report(
            errors@,
            encode_utf8(username@).len(),
            encode_utf8(password@).len(),
        ),
        errors@.len() == 0 <==> MIN_LEN <= encode_utf8(username@).len() <= MAX_USERNAME_LEN
            && MIN_LEN <= encode_utf8(password@).len(),
{
    let mut errors: Vec<ErrorField> = Vec::new();
    let ulen = username.as_bytes().len();
    if ulen == 0 {
        errors.push(ErrorField::single("username", "username cannot be blank"));
    } else if ulen < MIN_LEN {
        errors.push(ErrorField::single("username", "username length must be greater than 2"));
    } else if ulen > MAX_USERNAME_LEN {
        errors.push(ErrorField::single("username", "username length must be less than 255"));
    }
    let plen = password.as_bytes().len();
    if plen == 0 {
        errors.push(ErrorField::single("password", "password cannot be blank"));
    } else if plen < MIN_LEN {
        errors.push(ErrorField::single("password", "password length must be greater than 2"));
    }
    errors
}

/// Whether the content of a message is missing or nothing but white space.
pub fn is_blank(content: &Option<String>) -> (blank: bool)
    ensures
        blank == match content {
            Some(text) => trim_text(text@).len() == 0,
            None => true,
        },
{
    match content {
        Some(text) => trim(text.as_str()).is_empty(),
        None => true,
    }
}

} // verus!
