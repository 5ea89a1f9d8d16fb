//! How a reaction is filed in the `reactions` object of a message.

use crate::identity::{hyphenated, uuid_text};
use vstd::prelude::*;
use vstd::string::*;

verus! {

/// The key of a user's reaction with an emoji: the user, a colon, the name
/// of the emoji.
pub open spec fn reaction_key_text(user: u128, emoji_name: Seq<char>) -> Seq<char> {
    hyphenated(user) + ":"@ + emoji_name
}

/// The path to a key for the database: the key between braces.
pub open spec fn reaction_path_text(key: Seq<char>) -> Seq<char> {
    "{ "@ + key + " }"@
}

/// Writes the key of a reaction.
pub fn reaction_key(user: u128, emoji_name: &str) -> (key: String)
    ensures
        key@ == reaction_key_text(user, emoji_name@),
{
    let mut key = uuid_text(user);
    key.append(":");
    key.append(emoji_name);
    key
}

/// Writes the path to a key.
pub fn reaction_path(key: &str) -> (path: String)
    ensures
        path@ == reaction_path_text(key@),
{
    let mut path = "{ ".to_owned();
    path.append(key);
    path.append(" }");
    path
}

} // verus!
