//! Bodies exchanged with HTTP clients.

use vstd::prelude::*;

verus! {

/// The complaints about one field of a request.
#[derive(Debug)]
pub struct ErrorField {
    pub path: String,
    pub messages: Vec<String>,
}

/// A failure that concerns the request as a whole.
#[derive(Debug)]
pub struct ErrorResponse {
    pub message: String,
}

/// The request to replace the caller's avatar.
#[derive(Debug)]
pub struct ChangeAvatarBody {
    pub avatar_url: String,
}

/// What a client needs to upload an image directly to the image host.
#[derive(Debug)]
pub struct SignedSignature {
    pub signature: String,
    pub api_key: String,
    pub timestamp: i64,
}

impl ErrorField {
    /// Whether this is the single complaint `message` about the field
    /// `path`.
    pub open spec fn shows(self, path: Seq<char>, message: Seq<char>) -> bool {
        &&& self.path@ == path
        &&& self.messages@.len() == 1
        &&& self.messages@[0]@ == message
    }

    /// One complaint about one field.
    pub fn single(path: &str, message: &str) -> (field: ErrorField)
        ensures
            field.shows(path@, message@),
    {
        let mut messages: Vec<String> = Vec::new();
        messages.push(message.to_owned());
        ErrorField { path: path.to_owned(), messages }
    }
}

} // verus!
