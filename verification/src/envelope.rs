//! The wire unit: a JSON object with a string `op` and an optional `d`.

use crate::identity::{hyphenated, lemma_hyphenated_is_plain, uuid_text};
use crate::json::{
    as_text, decimal_text, in_quotes, is_plain, json_member, json_number, json_parse, json_str,
    json_string, json_text, member, number_value, parse_value, string_value, value_text,
};
use crate::text::{debug_quoted, debug_text, trim, trim_text};
use vstd::prelude::*;
use vstd::string::*;

verus! {

/// Why a text frame is no message.
#[derive(Clone, Copy, Debug, PartialEq, Eq, Structural)]
pub enum ProtocolError {
    /// The frame is not one JSON document.
    NotJson,
    /// The document has no member `op` that is a string.
    NoOp,
}

/// One message, in either direction.
#[derive(Debug)]
pub struct ClientMessage {
    pub op: String,
    pub d: Option<serde_json::Value>,
}

/// The text of an envelope, given the JSON text of `op` and of `d`.
pub open spec fn frame_text(op: Seq<char>, d: Seq<char>) -> Seq<char> {
    "{\"op\":"@ + op + ",\"d\":"@ + d + "}"@
}

/// The JSON text of a payload; a missing payload is written as `null`.
pub open spec fn payload_text(d: Option<serde_json::Value>) -> Seq<char> {
    match d {
        Some(value) => json_text(value),
        None => "null"@,
    }
}

/// The message that a text frame holds: its `op` and its payload. The frame
/// is trimmed and must be a JSON object whose `op` is a string; `d` may be
/// missing.
pub open spec fn message_in(raw: Seq<char>) -> Result<
    (Seq<char>, Option<serde_json::Value>),
    ProtocolError,
> {
    match json_parse(trim_text(raw)) {
        None => Err(ProtocolError::NotJson),
        Some(doc) => match json_member(doc, "op"@) {
            None => Err(ProtocolError::NoOp),
            Some(op) => match json_str(op) {
                None => Err(ProtocolError::NoOp),
                Some(chars) => Ok((chars, json_member(doc, "d"@))),
            },
        },
    }
}

/// The reply to an operation that the server does not know.
pub open spec fn unknown_command_text(op: Seq<char>) -> Seq<char> {
    "!!! unknown command: "@ + debug_quoted(op)
}

/// The frame that greets every session when one connects.
pub open spec fn hi_frame(count: nat) -> Seq<char> {
    frame_text(in_quotes("hi"@), decimal_text(count))
}

/// The frame that answers an authentication request.
pub open spec fn auth_good_frame(user: Option<u128>) -> Seq<char> {
    frame_text(
        in_quotes("auth-good"@),
        match user {
            Some(id) => in_quotes(hyphenated(id)),
            None => "null"@,
        },
    )
}

/// The frame that tells that a user came online.
pub open spec fn user_online_frame(user: u128) -> Seq<char> {
    frame_text(in_quotes("user_online"@), in_quotes(hyphenated(user)))
}

/// The frame that tells that a user went offline.
pub open spec fn user_offline_frame(user: u128) -> Seq<char> {
    frame_text(in_quotes("user_offline"@), in_quotes(hyphenated(user)))
}

/// The frame of a domain event: a known operation with a payload.
pub open spec fn event_frame(op: Seq<char>, payload: serde_json::Value) -> Seq<char> {
    frame_text(in_quotes(op), json_text(payload))
}

impl ClientMessage {
    /// The text that goes on the wire for this message.
    pub open spec fn wire_text(self) -> Seq<char> {
        frame_text(json_text(json_string(self.op@)), payload_text(self.d))
    }

    /// The line that describes this message in a log.
    pub open spec fn display_text(self) -> Seq<char> {
        match self.d {
            Some(value) => "ClientMessage { op: "@ + self.op@ + ", d: "@ + json_text(value) + " }"@,
            None => "Client Message { op: "@ + self.op@ + ", d: None }"@,
        }
    }

    /// Reads a message from a text frame.
    pub fn parse(raw: &str) -> (parsed: Result<ClientMessage, ProtocolError>)
        ensures
            match parsed {
                Ok(message) => message_in(raw@) == Ok::<
                    (Seq<char>, Option<serde_json::Value>),
                    ProtocolError,
                >((message.op@, message.d)),
                Err(e) => message_in(raw@) == Err::<
                    (Seq<char>, Option<serde_json::Value>),
                    ProtocolError,
                >(e),
            },
    {
        let doc = match parse_value(trim(raw)) {
            Ok(doc) => doc,
            Err(_) => { return Err(ProtocolError::NotJson); },
        };
        let op = match member(&doc, "op") {
            Some(op) => op,
            None => { return Err(ProtocolError::NoOp); },
        };
        match as_text(&op) {
            Some(chars) => Ok(ClientMessage { op: chars, d: member(&doc, "d") }),
            None => Err(ProtocolError::NoOp),
        }
    }

    /// Writes the message as the text of one frame.
    pub fn to_frame(&self) -> (frame: String)
        ensures
            frame@ == self.wire_text(),
            is_plain(self.op@) ==> frame@ == frame_text(in_quotes(self.op@), payload_text(self.d)),
    {
        let mut frame = "{\"op\":".to_owned();
        let op = string_value(self.op.as_str());
        frame.append(value_text(&op).as_str());
        frame.append(",\"d\":");
        match &self.d {
            Some(value) => frame.append(value_text(value).as_str()),
            None => frame.append("null"),
        }
        frame.append("}");
        frame
    }

    /// Describes the message for a log.
    pub fn display(&self) -> (line: String)
        ensures
            line@ == self.display_text(),
    {
        match &self.d {
            Some(value) => {
                let mut line = "ClientMessage { op: ".to_owned();
                line.append(self.op.as_str());
                line.append(", d: ");
                line.append(value_text(value).as_str());
                line.append(" }");
                line
            },
            None => {
                let mut line = "Client Message { op: ".to_owned();
                line.append(self.op.as_str());
                line.append(", d: None }");
                line
            },
        }
    }

    /// The greeting with the number of connections counted so far.
    pub fn hi(count: usize) -> (message: ClientMessage)
        ensures
            message.op@ == "hi"@,
            message.d == Some(json_number(count as nat)),
            is_plain(message.op@),
            frame_text(in_quotes(message.op@), payload_text(message.d)) == hi_frame(count as nat),
    {
        proof {
            lemma_op_is_plain("hi");
        }
        ClientMessage { op: "hi".to_owned(), d: Some(number_value(count)) }
    }

    /// The answer to an authentication request: the user, or `null`.
    pub fn auth_good(user: Option<u128>) -> (message: ClientMessage)
        ensures
            message.op@ == "auth-good"@,
            message.d == match user {
                Some(id) => Some(json_string(hyphenated(id))),
                None => None,
            },
            is_plain(message.op@),
            frame_text(in_quotes(message.op@), payload_text(message.d)) == auth_good_frame(user),
    {
        proof {
            lemma_op_is_plain("auth-good");
        }
        let d = match user {
            Some(id) => {
                proof {
                    lemma_hyphenated_is_plain(id);
                }
                Some(string_value(uuid_text(id).as_str()))
            },
            None => None,
        };
        ClientMessage { op: "auth-good".to_owned(), d }
    }

    /// The notice that a user came online.
    pub fn user_online(user: u128) -> (message: ClientMessage)
        ensures
            message.op@ == "user_online"@,
            message.d == Some(json_string(hyphenated(user))),
            is_plain(message.op@),
            frame_text(in_quotes(message.op@), payload_text(message.d)) == user_online_frame(user),
    {
        proof {
            lemma_op_is_plain("user_online");
            lemma_hyphenated_is_plain(user);
        }
        ClientMessage {
            op: "user_online".to_owned(),
            d: Some(string_value(uuid_text(user).as_str())),
        }
    }

    /// The notice that a user went offline.
    pub fn user_offline(user: u128) -> (message: ClientMessage)
        ensures
            message.op@ == "user_offline"@,
            message.d == Some(json_string(hyphenated(user))),
            is_plain(message.op@),
            frame_text(in_quotes(message.op@), payload_text(message.d)) == user_offline_frame(
                user,
            ),
    {
        proof {
            lemma_op_is_plain("user_offline");
            lemma_hyphenated_is_plain(user);
        }
        ClientMessage {
            op: "user_offline".to_owned(),
            d: Some(string_value(uuid_text(user).as_str())),
        }
    }
}

/// The reply to an operation that the server does not know.
pub fn unknown_command(op: &str) -> (reply: String)
    ensures
        reply@ == unknown_command_text(op@),
{
    let mut reply = "!!! unknown command: ".to_owned();
    reply.append(debug_text(op).as_str());
    reply
}

/// The names of the operations need no escape inside a JSON string.
pub proof fn lemma_op_is_plain(op: &str)
    requires
        op@ == "hi"@ || op@ == "auth-good"@ || op@ == "user_online"@ || op@ == "user_offline"@
            || op@ == "new_message"@ || op@ == "new_user"@ || op@ == "message_deleted"@ || op@
            == "reaction_updated"@,
    ensures
        is_plain(op@),
{
    reveal_strlit("hi");
    reveal_strlit("auth-good");
    reveal_strlit("user_online");
    reveal_strlit("user_offline");
    reveal_strlit("new_message");
    reveal_strlit("new_user");
    reveal_strlit("message_deleted");
    reveal_strlit("reaction_updated");
}

} // verus!
