//! What reaches the hub: the requests of the sessions and the domain events
//! of the HTTP surface.

use crate::envelope::{event_frame, frame_text, lemma_op_is_plain, payload_text, ClientMessage};
use crate::identity::{hyphenated, uuid_text};
use crate::json::{
    copy_value, in_quotes, is_plain, json_object, json_string, object_value, string_value,
};
use vstd::prelude::*;

verus! {

/// A session's notice that its connection is over.
#[derive(Debug)]
pub struct Disconnect {
    pub id: usize,
    pub user_id: Option<u128>,
}

/// A session's request to be bound to the user that a token names.
#[derive(Debug)]
pub struct Auth {
    pub access_token: String,
    pub id: usize,
}

/// A message was posted. `payload` is the message with its author, as the
/// clients are to see it.
#[derive(Debug)]
pub struct NewMessage {
    pub author_id: u128,
    pub conversation_id: u128,
    pub payload: serde_json::Value,
}

/// A user registered. `payload` is the user, as the clients are to see it.
#[derive(Debug)]
pub struct NewUser {
    pub payload: serde_json::Value,
}

/// A message was deleted by its author.
#[derive(Debug)]
pub struct MessageDeleted {
    pub message_id: u128,
    pub conversation_id: u128,
    pub author_id: u128,
}

/// Whether a reaction was put on a message or taken from it.
#[derive(Clone, Copy, Debug, PartialEq, Eq, Structural)]
pub enum ReactionUpdateType {
    DELETED,
    CREATED,
}

/// A reaction on a message changed.
#[derive(Debug)]
pub struct ReactionUpdated {
    pub user_id: u128,
    pub emoji_name: String,
    pub message_id: u128,
    pub conversation_id: u128,
    pub update_type: ReactionUpdateType,
}

/// The question put to the membership resolver: the members of one
/// conversation, without the user who caused the event.
#[derive(Clone, Copy, Debug, PartialEq, Eq, Structural)]
pub struct MemberQuery {
    pub conversation_id: u128,
    pub excluding: Option<u128>,
}

/// The members of a list that are to hear of an event: all but the one
/// excluded, in the order of the list.
pub open spec fn recipients(members: Seq<u128>, excluding: Option<u128>) -> Seq<u128> {
    members.filter(|user: u128| Some(user) != excluding)
}

impl ReactionUpdateType {
    /// The name of the kind as the clients read it.
    pub open spec fn name(self) -> Seq<char> {
        match self {
            ReactionUpdateType::DELETED => "DELETED"@,
            ReactionUpdateType::CREATED => "CREATED"@,
        }
    }

    /// The name of the kind as the clients read it.
    pub fn as_str(&self) -> (name: &'static str)
        ensures
            name@ == self.name(),
    {
        match self {
            ReactionUpdateType::DELETED => "DELETED",
            ReactionUpdateType::CREATED => "CREATED",
        }
    }
}

impl NewMessage {
    /// Whom to ask for: the conversation's members but the author.
    pub fn member_query(&self) -> (query: MemberQuery)
        ensures
            query == (MemberQuery {
                conversation_id: self.conversation_id,
                excluding: Some(self.author_id),
            }),
    {
        MemberQuery { conversation_id: self.conversation_id, excluding: Some(self.author_id) }
    }

    /// The message that carries the event to a client.
    pub fn to_client_message(&self) -> (message: ClientMessage)
        ensures
            message.op@ == "new_message"@,
            message.d == Some(self.payload),
            is_plain(message.op@),
            frame_text(in_quotes(message.op@), payload_text(message.d)) == event_frame(
                "new_message"@,
                self.payload,
            ),
    {
        proof {
            lemma_op_is_plain("new_message");
        }
        ClientMessage { op: "new_message".to_owned(), d: Some(copy_value(&self.payload)) }
    }
}

impl NewUser {
    /// The message that carries the event to a client.
    pub fn to_client_message(&self) -> (message: ClientMessage)
        ensures
            message.op@ == "new_user"@,
            message.d == Some(self.payload),
            is_plain(message.op@),
            frame_text(in_quotes(message.op@), payload_text(message.d)) == event_frame(
                "new_user"@,
                self.payload,
            ),
    {
        proof {
            lemma_op_is_plain("new_user");
        }
        ClientMessage { op: "new_user".to_owned(), d: Some(copy_value(&self.payload)) }
    }
}

impl MessageDeleted {
    /// What the clients are told of the deletion.
    pub open spec fn payload(self) -> serde_json::Value {
        json_object(
            seq![
                ("messageId"@, json_string(hyphenated(self.message_id))),
                ("conversationId"@, json_string(hyphenated(self.conversation_id))),
                ("authorId"@, json_string(hyphenated(self.author_id))),
            ],
        )
    }

    /// Whom to ask for: the conversation's members but the author.
    pub fn member_query(&self) -> (query: MemberQuery)
        ensures
            query == (MemberQuery {
                conversation_id: self.conversation_id,
                excluding: Some(self.author_id),
            }),
    {
        MemberQuery { conversation_id: self.conversation_id, excluding: Some(self.author_id) }
    }

    /// The message that carries the event to a client.
    pub fn to_client_message(&self) -> (message: ClientMessage)
        ensures
            message.op@ == "message_deleted"@,
            message.d == Some(self.payload()),
            is_plain(message.op@),
            frame_text(in_quotes(message.op@), payload_text(message.d)) == event_frame(
                "message_deleted"@,
                self.payload(),
            ),
    {
        proof {
            lemma_op_is_plain("message_deleted");
        }
        let mut members: Vec<(String, serde_json::Value)> = Vec::new();
        members.push(("messageId".to_owned(), string_value(uuid_text(self.message_id).as_str())));
        members.push(
            ("conversationId".to_owned(), string_value(uuid_text(self.conversation_id).as_str())),
        );
        members.push(("authorId".to_owned(), string_value(uuid_text(self.author_id).as_str())));
        proof {
            assert(members@.map_values(|m: (String, serde_json::Value)| (m.0@, m.1)) =~= seq![
                ("messageId"@, json_string(hyphenated(self.message_id))),
                ("conversationId"@, json_string(hyphenated(self.conversation_id))),
                ("authorId"@, json_string(hyphenated(self.author_id))),
            ]);
        }
        ClientMessage { op: "message_deleted".to_owned(), d: Some(object_value(members)) }
    }
}

impl ReactionUpdated {
    /// What the clients are told of the reaction.
    pub open spec fn payload(self) -> serde_json::Value {
        json_object(
            seq![
                ("userId"@, json_string(hyphenated(self.user_id))),
                ("emojiName"@, json_string(self.emoji_name@)),
                ("messageId"@, json_string(hyphenated(self.message_id))),
                ("conversationId"@, json_string(hyphenated(self.conversation_id))),
                ("updateType"@, json_string(self.update_type.name())),
            ],
        )
    }

    /// Whom to ask for: the conversation's members but the user who reacted.
    pub fn member_query(&self) -> (query: MemberQuery)
        ensures
            query == (MemberQuery {
                conversation_id: self.conversation_id,
                excluding: Some(self.user_id),
            }),
    {
        MemberQuery { conversation_id: self.conversation_id, excluding: Some(self.user_id) }
    }

    /// The message that carries the event to a client.
    pub fn to_client_message(&self) -> (message: ClientMessage)
        ensures
            message.op@ == "reaction_updated"@,
            message.d == Some(self.payload()),
            is_plain(message.op@),
            frame_text(in_quotes(message.op@), payload_text(message.d)) == event_frame(
                "reaction_updated"@,
                self.payload(),
            ),
    {
        proof {
            lemma_op_is_plain("reaction_updated");
        }
        let mut members: Vec<(String, serde_json::Value)> = Vec::new();
        members.push(("userId".to_owned(), string_value(uuid_text(self.user_id).as_str())));
        members.push(("emojiName".to_owned(), string_value(self.emoji_name.as_str())));
        members.push(("messageId".to_owned(), string_value(uuid_text(self.message_id).as_str())));
        members.push(
            ("conversationId".to_owned(), string_value(uuid_text(self.conversation_id).as_str())),
        );
        members.push(("updateType".to_owned(), string_value(self.update_type.as_str())));
        proof {
            assert(members@.map_values(|m: (String, serde_json::Value)| (m.0@, m.1)) =~= seq![
                ("userId"@, json_string(hyphenated(self.user_id))),
                ("emojiName"@, json_string(self.emoji_name@)),
                ("messageId"@, json_string(hyphenated(self.message_id))),
                ("conversationId"@, json_string(hyphenated(self.conversation_id))),
                ("updateType"@, json_string(self.update_type.name())),
            ]);
        }
        ClientMessage { op: "reaction_updated".to_owned(), d: Some(object_value(members)) }
    }
}

/// Picks from the members of a conversation those who are to hear of an
/// event.
pub fn select_recipients(members: &Vec<u128>, excluding: Option<u128>) -> (chosen: Vec<u128>)
    ensures
        chosen@ == recipients(members@, excluding),
{
    let mut chosen: Vec<u128> = Vec::new();
    let mut i: usize = 0;
    while i < members.len()
        invariant
            i <= members@.len(),
            chosen@ == recipients(members@.take(i as int), excluding),
        decreases members@.len() - i,
    {
        let user: u128 = members[i];
        proof {
            reveal(Seq::filter);
            assert(members@.take(i + 1).drop_last() =~= members@.take(i as int));
        }
        let keep = match excluding {
            Some(out) => out != user,
            None => true,
        };
        if keep {
            chosen.push(user);
        }
        i = i + 1;
    }
    assert(members@.take(i as int) =~= members@);
    chosen
}

} // verus!
