//! Passwords: how they are stored and how they are checked.

use vstd::prelude::*;
use vstd::string::*;
use vstd::utf8::encode_utf8;

verus! {

/// `argon2::Error`: why a password could not be hashed or a hash not read.
#[verifier::external_type_specification]
#[verifier::external_body]
pub struct ExArgonError(argon2::Error);

/// The number of salt bytes drawn for a new password.
pub const SALT_LEN: usize = 32;

/// The encoded Argon2 hash of a password under a salt, with the parameters
/// that `argon2::Config::default` names; `None` where the hash fails.
pub uninterp spec fn argon2_encoded(password: Seq<u8>, salt: Seq<u8>) -> Option<Seq<char>>;

/// Whether a password is the one that an encoded Argon2 hash was made of;
/// `None` where the text is no such hash.
pub uninterp spec fn argon2_matches(encoded: Seq<char>, password: Seq<u8>) -> Option<bool>;

/// `rand::random` at an array of 32 bytes: a salt from the thread's
/// generator. Nothing is promised of it.
#[verifier::external_body]
fn random_salt() -> [u8; 32] {
    rand::random::<[u8; 32]>()
}

/// `argon2::hash_encoded` with `Config::default`.
#[verifier::external_body]
fn argon2_hash(password: &[u8], salt: &[u8]) -> (encoded: Result<String, argon2::Error>)
    ensures
        match encoded {
            Ok(text) => argon2_encoded(password@, salt@) == Some(text@),
            Err(_) => argon2_encoded(password@, salt@) is None,
        },
{
    argon2::hash_encoded(password, salt, &argon2::Config::default())
}

/// `argon2::verify_encoded`.
#[verifier::external_body]
fn argon2_verify(encoded: &str, password: &[u8]) -> (verdict: Result<bool, argon2::Error>)
    ensures
        match verdict {
            Ok(same) => argon2_matches(encoded@, password@) == Some(same),
            Err(_) => argon2_matches(encoded@, password@) is None,
        },
{
    argon2::verify_encoded(encoded, password)
}

/// Hashes a password under a given salt.
pub fn hash_password_with(raw: &str, salt: &[u8]) -> (hashed: Option<String>)
    ensures
        match hashed {
            Some(text) => argon2_encoded(encode_utf8(raw@), salt@) == Some(text@),
            None => argon2_encoded(encode_utf8(raw@), salt@) is None,
        },
{
    match argon2_hash(raw.as_bytes(), salt) {
        Ok(text) => Some(text),
        Err(_) => None,
    }
}

/// Hashes a password under a fresh salt of 32 random bytes.
pub fn hash_password(raw: &str) -> (hashed: Option<String>)
    ensures
        exists|salt: Seq<u8>|
            salt.len() == SALT_LEN && match hashed {
                Some(text) => #[trigger] argon2_encoded(encode_utf8(raw@), salt) == Some(text@),
                None => argon2_encoded(encode_utf8(raw@), salt) is None,
            },
{
    let salt = random_salt();
    let hashed = hash_password_with(raw, salt.as_slice());
    proof {
        let used = salt@;
        assert(used.len() == SALT_LEN && match hashed {
            Some(text) => argon2_encoded(encode_utf8(raw@), used) == Some(text@),
            None => argon2_encoded(encode_utf8(raw@), used) is None,
        });
    }
    hashed
}

/// Checks a password against a stored hash. A text that is no hash matches
/// nothing.
pub fn verify_password(raw: &str, hash: &str) -> (accepted: bool)
    ensures
        accepted == (argon2_matches(hash@, encode_utf8(raw@)) == Some(true)),
{
    match argon2_verify(hash, raw.as_bytes()) {
        Ok(same) => same,
        Err(_) => false,
    }
}

} // verus!
