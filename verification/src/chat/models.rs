//! The messages that travel over chat connections and between chat service
//! instances. Identifiers are 128-bit values; times are milliseconds since
//! the Unix epoch.
use vstd::prelude::*;
use crate::text::{uuid_text, push_uuid, own};

verus! {

#[derive(PartialEq, Eq, Structural, Clone, Copy, Debug)]
pub enum ChatRoomType {
    SessionChat,
    GroupChat,
}

#[derive(PartialEq, Eq, Structural, Clone, Copy, Debug)]
pub enum ModerationStatus {
    Approved,
    Flagged,
}

/// A message on a chat connection, in either direction. The kind of a chat
/// message (`message_type`) is carried by its serialized name.
pub enum WsMessage {
    SendMessage {
        content: String,
        recipient_id: Option<u128>,
        session_id: Option<u128>,
        group_id: Option<u128>,
        message_type: String,
    },
    TypingStart { session_id: Option<u128>, group_id: Option<u128> },
    TypingStop { session_id: Option<u128>, group_id: Option<u128> },
    RequestHistory {
        session_id: Option<u128>,
        group_id: Option<u128>,
        limit: Option<u32>,
        before_message_id: Option<u128>,
    },
    MessageReceived {
        message_id: u128,
        sender_id: u128,
        content: String,
        recipient_id: Option<u128>,
        session_id: Option<u128>,
        group_id: Option<u128>,
        message_type: String,
        timestamp: i64,
        moderation_status: ModerationStatus,
    },
    UserJoined { user_id: u128, username: String, session_id: Option<u128>, group_id: Option<u128> },
    UserLeft { user_id: u128, username: String, session_id: Option<u128>, group_id: Option<u128> },
    TypingIndicator {
        user_id: u128,
        username: String,
        is_typing: bool,
        session_id: Option<u128>,
        group_id: Option<u128>,
    },
    Ack { message_id: u128 },
    Error { code: String, message: String },
    Ping,
    Pong,
    /// A kind that the chat handlers do not act on (such as a history
    /// reply).
    Other,
}

/// What one chat service instance tells the others.
pub enum PubSubEvent {
    ChatMessage {
        message_id: u128,
        sender_id: u128,
        recipient_id: Option<u128>,
        session_id: Option<u128>,
        group_id: Option<u128>,
        content: String,
        message_type: String,
    },
    UserPresence { user_id: u128, username: String, is_online: bool },
    TypingIndicator { user_id: u128, username: String, room_id: String, is_typing: bool },
    UserJoinedRoom { user_id: u128, username: String, room_id: String, room_type: ChatRoomType },
    UserLeftRoom { user_id: u128, username: String, room_id: String },
    MessageDelivered { message_id: u128, recipient_id: u128 },
    MessageRead { message_id: u128, reader_id: u128 },
}

/// A published event with its channel, sending instance and time.
pub struct PubSubMessage {
    pub channel: String,
    pub event: PubSubEvent,
    pub sender_instance: String,
    pub timestamp: i64,
}

/// The room of a mentoring session: `session_<id>`.
pub open spec fn session_room(id: u128) -> Seq<char> {
    "session_"@ + uuid_text(id)
}

/// The room of a group chat: `group_<id>`.
pub open spec fn group_room(id: u128) -> Seq<char> {
    "group_"@ + uuid_text(id)
}

/// The room of a session's chat.
pub fn session_room_id(id: u128) -> (r: String)
    ensures
        r@ == session_room(id),
{
    let mut r = own("session_");
    push_uuid(&mut r, id);
    r
}

/// The room of a group chat.
pub fn group_room_id(id: u128) -> (r: String)
    ensures
        r@ == group_room(id),
{
    let mut r = own("group_");
    push_uuid(&mut r, id);
    r
}

} // verus!
