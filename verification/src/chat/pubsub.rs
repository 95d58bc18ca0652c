//! Events shared between chat service instances: what each published event
//! looks like, and whom a received event is delivered to on this instance.
use vstd::prelude::*;
use crate::chat::models::{WsMessage, PubSubEvent, PubSubMessage, ChatRoomType, ModerationStatus, session_room, group_room, session_room_id, group_room_id};
use crate::text::{seq_starts_with, starts_with, strip_prefix, str_eq, own, join2, push_uuid, uuid_text, uuid_parsed, parse_uuid};

verus! {

/// Whom a received event goes to on this instance.
pub enum Delivery {
    /// The event came from this instance, or names no recipient.
    Skip,
    ToUser { user_id: u128, message: WsMessage },
    /// Every participant of the room but `exclude`.
    ToRoom { room_id: String, message: WsMessage, exclude: Option<u128> },
    /// Every online user but `user_id`.
    ToOnlineExcept { user_id: u128, message: WsMessage },
}

/// The session a room belongs to: the identifier after `session_`.
pub open spec fn room_session(room: Seq<char>) -> Option<u128> {
    if seq_starts_with(room, "session_"@) {
        uuid_parsed(room.subrange(8, room.len() as int))
    } else {
        None
    }
}

/// The group a room belongs to: the identifier after `group_`.
pub open spec fn room_group(room: Seq<char>) -> Option<u128> {
    if seq_starts_with(room, "group_"@) {
        uuid_parsed(room.subrange(6, room.len() as int))
    } else {
        None
    }
}

/// `m` announces that `user` joined (`joined`) or left, in the room `room`.
pub open spec fn room_change(m: WsMessage, joined: bool, user: u128, name: Seq<char>, room: Seq<char>) -> bool {
    if joined {
        m matches WsMessage::UserJoined { user_id, username, session_id, group_id }
            && user_id == user && username@ == name && session_id == room_session(room) && group_id == room_group(room)
    } else {
        m matches WsMessage::UserLeft { user_id, username, session_id, group_id }
            && user_id == user && username@ == name && session_id == room_session(room) && group_id == room_group(room)
    }
}

/// `d` delivers the event `msg` received by instance `instance`.
pub open spec fn delivers(msg: PubSubMessage, instance: Seq<char>, d: Delivery) -> bool {
    if msg.sender_instance@ == instance {
        d is Skip
    } else {
        match msg.event {
            PubSubEvent::ChatMessage { message_id, sender_id, recipient_id, session_id, group_id, content, message_type } => {
                let received = |m: WsMessage| m matches WsMessage::MessageReceived {
                    message_id: mi, sender_id: si, content: c, recipient_id: ri, session_id: ss, group_id: gi,
                    message_type: mt, timestamp, moderation_status }
                    && mi == message_id && si == sender_id && c@ == content@ && ri == recipient_id && ss == session_id
                    && gi == group_id && mt@ == message_type@ && timestamp == msg.timestamp
                    && moderation_status == ModerationStatus::Approved;
                match (recipient_id, session_id, group_id) {
                    (Some(r), _, _) => d matches Delivery::ToUser { user_id, message } && user_id == r && received(message),
                    (None, Some(s), _) => d matches Delivery::ToRoom { room_id, message, exclude }
                        && room_id@ == session_room(s) && exclude == Some(sender_id) && received(message),
                    (None, None, Some(g)) => d matches Delivery::ToRoom { room_id, message, exclude }
                        && room_id@ == group_room(g) && exclude == Some(sender_id) && received(message),
                    (None, None, None) => d is Skip,
                }
            },
            PubSubEvent::UserPresence { user_id, username, is_online } => d matches Delivery::ToOnlineExcept { user_id: u, message }
                && u == user_id && (if is_online {
                    message matches WsMessage::UserJoined { user_id: a, username: n, session_id, group_id }
                        && a == user_id && n@ == username@ && session_id is None && group_id is None
                } else {
                    message matches WsMessage::UserLeft { user_id: a, username: n, session_id, group_id }
                        && a == user_id && n@ == username@ && session_id is None && group_id is None
                }),
            PubSubEvent::TypingIndicator { user_id, username, room_id, is_typing } => d matches Delivery::ToRoom { room_id: r, message, exclude }
                && r@ == room_id@ && exclude == Some(user_id)
                && (message matches WsMessage::TypingIndicator { user_id: a, username: n, is_typing: t, session_id, group_id }
                    && a == user_id && n@ == username@ && t == is_typing && session_id == room_session(room_id@)
                    && group_id == room_group(room_id@)),
            PubSubEvent::UserJoinedRoom { user_id, username, room_id, .. } => d matches Delivery::ToRoom { room_id: r, message, exclude }
                && r@ == room_id@ && exclude == Some(user_id) && room_change(message, true, user_id, username@, room_id@),
            PubSubEvent::UserLeftRoom { user_id, username, room_id } => d matches Delivery::ToRoom { room_id: r, message, exclude }
                && r@ == room_id@ && exclude == Some(user_id) && room_change(message, false, user_id, username@, room_id@),
            PubSubEvent::MessageDelivered { message_id, recipient_id } => d matches Delivery::ToUser { user_id, message }
                && user_id == recipient_id && message == WsMessage::Ack { message_id },
            PubSubEvent::MessageRead { message_id, reader_id } => d matches Delivery::ToUser { user_id, message }
                && user_id == reader_id && message == WsMessage::Ack { message_id },
        }
    }
}

/// The session of a room id (see `room_session`).
pub fn session_of_room(room_id: &str) -> (r: Option<u128>)
    ensures
        r == room_session(room_id@),
        forall|u: u128| room_id@ == #[trigger] session_room(u) ==> r == Some(u),
{
    proof {
        reveal_strlit("session_");
    }
    match strip_prefix(room_id, "session_") {
        Some(rest) => {
            let r = parse_uuid(rest.as_str());
            proof {
                assert forall|u: u128| room_id@ == #[trigger] session_room(u) implies r == Some(u) by {
                    assert(rest@ =~= uuid_text(u));
                }
            }
            r
        },
        None => {
            proof {
                assert forall|u: u128| room_id@ == #[trigger] session_room(u) implies false by {
                    assert(room_id@.subrange(0, "session_"@.len() as int) =~= "session_"@);
                }
            }
            None
        },
    }
}

/// The group of a room id (see `room_group`).
pub fn group_of_room(room_id: &str) -> (r: Option<u128>)
    ensures
        r == room_group(room_id@),
        forall|u: u128| room_id@ == #[trigger] group_room(u) ==> r == Some(u),
{
    proof {
        reveal_strlit("group_");
    }
    match strip_prefix(room_id, "group_") {
        Some(rest) => {
            let r = parse_uuid(rest.as_str());
            proof {
                assert forall|u: u128| room_id@ == #[trigger] group_room(u) implies r == Some(u) by {
                    assert(rest@ =~= uuid_text(u));
                }
            }
            r
        },
        None => {
            proof {
                assert forall|u: u128| room_id@ == #[trigger] group_room(u) implies false by {
                    assert(room_id@.subrange(0, "group_"@.len() as int) =~= "group_"@);
                }
            }
            None
        },
    }
}

/// Whom a received event goes to: nobody when this instance sent it;
/// otherwise a chat message goes to its recipient, or to the other members
/// of its session's or group's room; presence goes to every other online
/// user; typing and room changes to the other members of the room; delivery
/// and read receipts to the user they name.
pub fn route_pubsub_message(msg: PubSubMessage, instance_id: &str) -> (d: Delivery)
    ensures
        delivers(msg, instance_id@, d),
{
    if str_eq(msg.sender_instance.as_str(), instance_id) {
        return Delivery::Skip;
    }
    let timestamp = msg.timestamp;
    match msg.event {
        PubSubEvent::ChatMessage { message_id, sender_id, recipient_id, session_id, group_id, content, message_type } => {
            let message = WsMessage::MessageReceived {
                message_id,
                sender_id,
                content,
                recipient_id,
                session_id,
                group_id,
                message_type,
                timestamp,
                moderation_status: ModerationStatus::Approved,
            };
            match (recipient_id, session_id, group_id) {
                (Some(r), _, _) => Delivery::ToUser { user_id: r, message },
                (None, Some(s), _) => Delivery::ToRoom { room_id: session_room_id(s), message, exclude: Some(sender_id) },
                (None, None, Some(g)) => Delivery::ToRoom { room_id: group_room_id(g), message, exclude: Some(sender_id) },
                (None, None, None) => Delivery::Skip,
            }
        },
        PubSubEvent::UserPresence { user_id, username, is_online } => {
            let message = if is_online {
                WsMessage::UserJoined { user_id, username, session_id: None, group_id: None }
            } else {
                WsMessage::UserLeft { user_id, username, session_id: None, group_id: None }
            };
            Delivery::ToOnlineExcept { user_id, message }
        },
        PubSubEvent::TypingIndicator { user_id, username, room_id, is_typing } => {
            let session_id = session_of_room(room_id.as_str());
            let group_id = group_of_room(room_id.as_str());
            let message = WsMessage::TypingIndicator { user_id, username, is_typing, session_id, group_id };
            Delivery::ToRoom { room_id, message, exclude: Some(user_id) }
        },
        PubSubEvent::UserJoinedRoom { user_id, username, room_id, room_type: _ } => {
            let session_id = session_of_room(room_id.as_str());
            let group_id = group_of_room(room_id.as_str());
            let message = WsMessage::UserJoined { user_id, username, session_id, group_id };
            Delivery::ToRoom { room_id, message, exclude: Some(user_id) }
        },
        PubSubEvent::UserLeftRoom { user_id, username, room_id } => {
            let session_id = session_of_room(room_id.as_str());
            let group_id = group_of_room(room_id.as_str());
            let message = WsMessage::UserLeft { user_id, username, session_id, group_id };
            Delivery::ToRoom { room_id, message, exclude: Some(user_id) }
        },
        PubSubEvent::MessageDelivered { message_id, recipient_id } => {
            Delivery::ToUser { user_id: recipient_id, message: WsMessage::Ack { message_id } }
        },
        PubSubEvent::MessageRead { message_id, reader_id } => {
            Delivery::ToUser { user_id: reader_id, message: WsMessage::Ack { message_id } }
        },
    }
}

/// The id of a chat service instance: `chat-<id>`.
pub fn instance_id_for(id: u128) -> (r: String)
    ensures
        r@ == "chat-"@ + uuid_text(id),
{
    let mut r = own("chat-");
    push_uuid(&mut r, id);
    r
}

/// The channel that carries an event.
pub open spec fn channel_of(e: PubSubEvent) -> Seq<char> {
    match e {
        PubSubEvent::ChatMessage { .. } => "chat:messages"@,
        PubSubEvent::UserPresence { .. } => "chat:presence"@,
        PubSubEvent::TypingIndicator { .. } => "chat:typing"@,
        PubSubEvent::UserJoinedRoom { .. } => "chat:rooms"@,
        PubSubEvent::UserLeftRoom { .. } => "chat:rooms"@,
        PubSubEvent::MessageDelivered { .. } => "chat:delivery"@,
        PubSubEvent::MessageRead { .. } => "chat:delivery"@,
    }
}

/// The message that publishes `event` from instance `instance_id` at
/// `timestamp`, on its channel.
pub fn publication(event: PubSubEvent, instance_id: &str, timestamp: i64) -> (m: PubSubMessage)
    ensures
        m.channel@ == channel_of(event),
        m.event == event,
        m.sender_instance@ == instance_id@,
        m.timestamp == timestamp,
{
    let channel = match &event {
        PubSubEvent::ChatMessage { .. } => own("chat:messages"),
        PubSubEvent::UserPresence { .. } => own("chat:presence"),
        PubSubEvent::TypingIndicator { .. } => own("chat:typing"),
        PubSubEvent::UserJoinedRoom { .. } => own("chat:rooms"),
        PubSubEvent::UserLeftRoom { .. } => own("chat:rooms"),
        PubSubEvent::MessageDelivered { .. } => own("chat:delivery"),
        PubSubEvent::MessageRead { .. } => own("chat:delivery"),
    };
    PubSubMessage { channel, event, sender_instance: own(instance_id), timestamp }
}

/// The queue of messages kept for an offline user: `offline_messages:<id>`.
pub fn offline_queue_key(user_id: u128) -> (k: String)
    ensures
        k@ == "offline_messages:"@ + uuid_text(user_id),
{
    let mut k = own("offline_messages:");
    push_uuid(&mut k, user_id);
    k
}

/// A typing record is removed once it expired before `now` (seconds).
pub fn typing_record_expired(expires_at: Option<i64>, now: i64) -> (b: bool)
    ensures
        b == (expires_at matches Some(t) && t < now),
{
    match expires_at {
        Some(t) => t < now,
        None => false,
    }
}

} // verus!
