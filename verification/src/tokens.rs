//! Bearer tokens: signed claims that name a user and an hour of expiry.

use crate::identity::{hyphenated, parse_uuid, uuid_parse, uuid_text};
use crate::json::{
    as_text, json_member, json_number, json_object, json_str, json_string, member, number_value,
    object_value, string_value,
};
use crate::clock::unix_now;
use crate::text::trim;
use vstd::prelude::*;

verus! {

/// `jsonwebtoken::errors::Error`: why a token could not be made or read.
#[verifier::external_type_specification]
#[verifier::external_body]
pub struct ExJwtError(jsonwebtoken::errors::Error);

/// The lifetime of an access token, in minutes.
pub const ACCESS_TOKEN_MINUTES: i64 = 60;

/// The lifetime of a refresh token, in minutes.
pub const REFRESH_TOKEN_MINUTES: i64 = 10080;

/// The token that `jsonwebtoken` makes of claims with an HS512 signature
/// under a secret; `None` where it fails.
pub uninterp spec fn jwt_signed(claims: serde_json::Value, secret: Seq<char>) -> Option<Seq<char>>;

/// `jsonwebtoken::encode` with an HS512 header and the key that
/// `EncodingKey::from_secret` makes of the secret's bytes.
#[verifier::external_body]
fn sign_claims(claims: &serde_json::Value, secret: &str) -> (token: Result<
    String,
    jsonwebtoken::errors::Error,
>)
    ensures
        match token {
            Ok(text) => jwt_signed(*claims, secret@) == Some(text@),
            Err(_) => jwt_signed(*claims, secret@) is None,
        },
{
    jsonwebtoken::encode(
        &jsonwebtoken::Header::new(jsonwebtoken::Algorithm::HS512),
        claims,
        &jsonwebtoken::EncodingKey::from_secret(secret.as_bytes()),
    )
}

/// `jsonwebtoken::decode` under `Validation::new` for HS512 and the key that
/// `DecodingKey::from_secret` makes of the secret's bytes: the claims of a
/// token that carries a valid signature and an expiry that has not passed.
/// The answer depends on the clock, so nothing is promised of it.
#[verifier::external_body]
fn decode_claims(token: &str, secret: &str) -> Result<serde_json::Value, jsonwebtoken::errors::Error> {
    jsonwebtoken::decode::<serde_json::Value>(
        token,
        &jsonwebtoken::DecodingKey::from_secret(secret.as_bytes()),
        &jsonwebtoken::Validation::new(jsonwebtoken::Algorithm::HS512),
    ).map(|data| data.claims)
}

/// The claims of a token for a user that expires at `exp` seconds after the
/// Unix epoch.
pub open spec fn claims_for(user: u128, exp: nat) -> serde_json::Value {
    json_object(seq![("exp"@, json_number(exp)), ("userId"@, json_string(hyphenated(user)))])
}

/// The user that claims name: the member `userId`, read as a UUID.
pub open spec fn user_in(claims: serde_json::Value) -> Option<u128> {
    match json_member(claims, "userId"@) {
        Some(value) => match json_str(value) {
            Some(text) => uuid_parse(text),
            None => None,
        },
        None => None,
    }
}

/// The second at which a token expires that is issued at `now` for
/// `minutes`; `None` where that second cannot be written in the claims.
pub open spec fn expiry(now: i64, minutes: i64) -> Option<nat> {
    let exp = now + minutes * 60;
    if 0 <= exp <= i64::MAX && exp <= usize::MAX {
        Some(exp as nat)
    } else {
        None
    }
}

/// The token for a user that is issued at `now` for `minutes` under a
/// secret.
pub open spec fn issued(user: u128, now: i64, minutes: i64, secret: Seq<char>) -> Option<
    Seq<char>,
> {
    match expiry(now, minutes) {
        Some(exp) => jwt_signed(claims_for(user, exp), secret),
        None => None,
    }
}

/// Computes the second of expiry.
pub fn expires_at(now: i64, minutes: i64) -> (exp: Option<usize>)
    ensures
        match exp {
            Some(second) => expiry(now, minutes) == Some(second as nat),
            None => expiry(now, minutes) is None,
        },
{
    let exp: i128 = now as i128 + minutes as i128 * 60;
    if exp < 0 || exp > i64::MAX as i128 || exp > usize::MAX as i128 {
        return None;
    }
    Some(exp as usize)
}

/// Issues a token for a user at `now`.
pub fn issue_token(user: u128, now: i64, minutes: i64, secret: &str) -> (token: Option<String>)
    ensures
        match token {
            Some(text) => issued(user, now, minutes, secret@) == Some(text@),
            None => issued(user, now, minutes, secret@) is None,
        },
{
    let exp = match expires_at(now, minutes) {
        Some(exp) => exp,
        None => { return None; },
    };
    let mut members: Vec<(String, serde_json::Value)> = Vec::new();
    members.push(("exp".to_owned(), number_value(exp)));
    members.push(("userId".to_owned(), string_value(uuid_text(user).as_str())));
    proof {
        assert(members@.map_values(|m: (String, serde_json::Value)| (m.0@, m.1)) =~= seq![
            ("exp"@, json_number(exp as nat)),
            ("userId"@, json_string(hyphenated(user))),
        ]);
    }
    let claims = object_value(members);
    match sign_claims(&claims, secret) {
        Ok(text) => Some(text),
        Err(_) => None,
    }
}

/// Issues a token for a user that is good for `minutes` from now on the
/// system clock.
pub fn create_jwt(user: u128, minutes: i64, secret: &str) -> (token: Option<String>)
    ensures
        exists|now: i64|
            match token {
                Some(text) => #[trigger] issued(user, now, minutes, secret@) == Some(text@),
                None => issued(user, now, minutes, secret@) is None,
            },
{
    let now = unix_now();
    let token = issue_token(user, now, minutes, secret);
    proof {
        assert(match token {
            Some(text) => issued(user, now, minutes, secret@) == Some(text@),
            None => issued(user, now, minutes, secret@) is None,
        });
    }
    token
}

/// Issues an access token: good for an hour.
pub fn create_access_token(user: u128, secret: &str) -> (token: Option<String>)
    ensures
        exists|now: i64|
            match token {
                Some(text) => #[trigger] issued(user, now, ACCESS_TOKEN_MINUTES, secret@) == Some(
                    text@,
                ),
                None => issued(user, now, ACCESS_TOKEN_MINUTES, secret@) is None,
            },
{
    create_jwt(user, ACCESS_TOKEN_MINUTES, secret)
}

/// Issues a refresh token: good for a week.
pub fn create_refresh_token(user: u128, secret: &str) -> (token: Option<String>)
    ensures
        exists|now: i64|
            match token {
                Some(text) => #[trigger] issued(user, now, REFRESH_TOKEN_MINUTES, secret@) == Some(
                    text@,
                ),
                None => issued(user, now, REFRESH_TOKEN_MINUTES, secret@) is None,
            },
{
    create_jwt(user, REFRESH_TOKEN_MINUTES, secret)
}

/// An access token with the refresh token that renews it.
#[derive(Debug)]
pub struct TokenPair {
    pub access_token: String,
    pub refresh_token: String,
}

/// Whether a pair is what issuing both tokens for a user comes to. A pair
/// holds the access token as issued at some second under the first secret
/// and the refresh token as issued at some second under the second. No pair
/// comes where, at some second, one of the two cannot be made.
pub open spec fn is_pair_for(
    pair: Option<TokenPair>,
    user: u128,
    access_secret: Seq<char>,
    refresh_secret: Seq<char>,
) -> bool {
    match pair {
        Some(tokens) => exists|now: i64, then: i64|
            #![trigger issued(user, now, ACCESS_TOKEN_MINUTES, access_secret), issued(user, then, REFRESH_TOKEN_MINUTES, refresh_secret)]
            issued(user, now, ACCESS_TOKEN_MINUTES, access_secret) == Some(tokens.access_token@)
                && issued(user, then, REFRESH_TOKEN_MINUTES, refresh_secret) == Some(
                tokens.refresh_token@,
            ),
        None => (exists|now: i64|
            (#[trigger] issued(user, now, ACCESS_TOKEN_MINUTES, access_secret)) is None) || (
        exists|now: i64|
            (#[trigger] issued(user, now, REFRESH_TOKEN_MINUTES, refresh_secret)) is None),
    }
}

/// Whether a pair is what a renewal comes to, given whom the refresh token
/// named: the pair issued for that user, and none where it named nobody.
pub open spec fn is_renewal(
    pair: Option<TokenPair>,
    verified: Option<u128>,
    access_secret: Seq<char>,
    refresh_secret: Seq<char>,
) -> bool {
    match verified {
        Some(user) => is_pair_for(pair, user, access_secret, refresh_secret),
        None => pair is None,
    }
}

/// Issues both tokens for a user, each under its own secret; `None` where
/// either cannot be made.
pub fn issue_pair(user: u128, access_secret: &str, refresh_secret: &str) -> (pair: Option<
    TokenPair,
>)
    ensures
        is_pair_for(pair, user, access_secret@, refresh_secret@),
{
    let access_token = match create_access_token(user, access_secret) {
        Some(token) => token,
        None => {
            proof {
                let now = choose|now: i64| (#[trigger] issued(
                    user,
                    now,
                    ACCESS_TOKEN_MINUTES,
                    access_secret@,
                )) is None;
                assert(issued(user, now, ACCESS_TOKEN_MINUTES, access_secret@) is None);
            }
            return None;
        },
    };
    let refresh_token = match create_refresh_token(user, refresh_secret) {
        Some(token) => token,
        None => {
            proof {
                let now = choose|now: i64| (#[trigger] issued(
                    user,
                    now,
                    REFRESH_TOKEN_MINUTES,
                    refresh_secret@,
                )) is None;
                assert(issued(user, now, REFRESH_TOKEN_MINUTES, refresh_secret@) is None);
            }
            return None;
        },
    };
    proof {
        let now = choose|now: i64| #[trigger]
            issued(user, now, ACCESS_TOKEN_MINUTES, access_secret@) == Some(access_token@);
        let then = choose|then: i64| #[trigger]
            issued(user, then, REFRESH_TOKEN_MINUTES, refresh_secret@) == Some(refresh_token@);
        assert(issued(user, now, ACCESS_TOKEN_MINUTES, access_secret@) == Some(access_token@)
            && issued(user, then, REFRESH_TOKEN_MINUTES, refresh_secret@) == Some(
            refresh_token@,
        ));
    }
    Some(TokenPair { access_token, refresh_token })
}

/// Renews the tokens of the user that a refresh token names. The refresh
/// token is verified under the refresh secret; whoever it names gets the
/// pair that `issue_pair` makes for that user, and a token that names
/// nobody gets none.
pub fn refresh_tokens(refresh_token: &str, access_secret: &str, refresh_secret: &str) -> (pair:
    Option<TokenPair>)
    ensures
        exists|verified: Option<u128>|
            #[trigger] is_renewal(pair, verified, access_secret@, refresh_secret@) && (
            verified is Some ==> exists|claims: serde_json::Value| #[trigger]
                user_in(claims) == verified),
{
    let verified = verify_jwt(refresh_token, refresh_secret);
    let pair = match verified {
        Some(user) => issue_pair(user, access_secret, refresh_secret),
        None => None,
    };
    proof {
        assert(is_renewal(pair, verified, access_secret@, refresh_secret@));
    }
    pair
}

/// Reads the user from the claims of a token.
pub fn claims_user(claims: &serde_json::Value) -> (user: Option<u128>)
    ensures
        user == user_in(*claims),
{
    let value = match member(claims, "userId") {
        Some(value) => value,
        None => { return None; },
    };
    match as_text(&value) {
        Some(text) => parse_uuid(text.as_str()),
        None => None,
    }
}

/// The user that a token names, where the token is signed with the secret
/// and has not expired.
pub fn verify_jwt(token: &str, secret: &str) -> (user: Option<u128>)
    ensures
        user is Some ==> exists|claims: serde_json::Value| #[trigger] user_in(claims) == user,
{
    match decode_claims(token, secret) {
        Ok(claims) => {
            let user = claims_user(&claims);
            proof {
                assert(user_in(claims) == user);
            }
            user
        },
        Err(_) => None,
    }
}

/// The user that the token in a request header names: the header's value is
/// trimmed and verified.
pub fn verify_header(value: &str, secret: &str) -> (user: Option<u128>)
    ensures
        user is Some ==> exists|claims: serde_json::Value| #[trigger] user_in(claims) == user,
{
    verify_jwt(trim(value), secret)
}

} // verus!
