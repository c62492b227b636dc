//! The messages that two peers exchange: requests, acknowledgements and responses.

use vstd::prelude::*;

use crate::json::{copy_value, Json};

verus! {

/// A message between the two peers of a session.
#[derive(Debug)]
pub enum SessionMessage {
    Request { message_id: String, payload: serde_json::Value },
    Ack { message_id: String },
    Response { message_id: String, payload: serde_json::Value },
}

/// A [`SessionMessage`] with its identifier as characters and what its payload holds.
pub enum MessageView {
    Request { message_id: Seq<char>, payload: Json },
    Ack { message_id: Seq<char> },
    Response { message_id: Seq<char>, payload: Json },
}

impl View for SessionMessage {
    type V = MessageView;

    open spec fn view(&self) -> MessageView {
        match *self {
            SessionMessage::Request { message_id, payload } => MessageView::Request {
                message_id: message_id@,
                payload: crate::json::content(payload),
            },
            SessionMessage::Ack { message_id } => MessageView::Ack { message_id: message_id@ },
            SessionMessage::Response { message_id, payload } => MessageView::Response {
                message_id: message_id@,
                payload: crate::json::content(payload),
            },
        }
    }
}

impl Clone for SessionMessage {
    fn clone(&self) -> (copy: Self)
        ensures
            copy@ == self@,
    {
        match self {
            SessionMessage::Request { message_id, payload } => SessionMessage::Request {
                message_id: message_id.clone(),
                payload: copy_value(payload),
            },
            SessionMessage::Ack { message_id } => SessionMessage::Ack {
                message_id: message_id.clone(),
            },
            SessionMessage::Response { message_id, payload } => SessionMessage::Response {
                message_id: message_id.clone(),
                payload: copy_value(payload),
            },
        }
    }
}

/// Whether a character is a hexadecimal digit in lower case.
pub open spec fn is_lower_hex(c: char) -> bool {
    '0' <= c <= '9' || 'a' <= c <= 'f'
}

/// Whether a text is a random (version 4) UUID in its hyphenated form.
pub open spec fn is_uuid_v4(text: Seq<char>) -> bool {
    &&& text.len() == 36
    &&& forall|i: int|
        0 <= i < 36 ==> if i == 8 || i == 13 || i == 18 || i == 23 {
            #[trigger] text[i] == '-'
        } else {
            is_lower_hex(text[i])
        }
    &&& text[14] == '4'
    &&& text[19] == '8' || text[19] == '9' || text[19] == 'a' || text[19] == 'b'
}

/// Makes an identifier for a message: `uuid::Uuid::new_v4`, written out by its
/// `to_string`.
///
/// Claimed: the text is a version 4 UUID in lower case with hyphens. Which one it is
/// rests on chance; that no two are the same is not claimed.
#[verifier::external_body]
pub(crate) fn new_message_id() -> (message_id: String)
    ensures
        is_uuid_v4(message_id@),
{
    uuid::Uuid::new_v4().to_string()
}

/// A copy of a message is of the same kind, with the same identifier and payload.
pub proof fn law_copied_message_is_the_same(message: SessionMessage, copy: SessionMessage)
    requires
        call_ensures(SessionMessage::clone, (&message,), copy),
    ensures
        match (message, copy) {
            (
                SessionMessage::Request { message_id, payload },
                SessionMessage::Request { message_id: id, payload: held },
            ) => id@ == message_id@ && crate::json::content(held) == crate::json::content(payload),
            (SessionMessage::Ack { message_id }, SessionMessage::Ack { message_id: id }) => id@
                == message_id@,
            (
                SessionMessage::Response { message_id, payload },
                SessionMessage::Response { message_id: id, payload: held },
            ) => id@ == message_id@ && crate::json::content(held) == crate::json::content(payload),
            _ => false,
        },
{
}

} // verus!
