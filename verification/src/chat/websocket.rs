//! Chat connections: whether one may open, the rooms it joins, what an
//! incoming text message asks for, and when the connection is closed.
use vstd::prelude::*;
use crate::common::AppError;
use crate::chat::models::{WsMessage, ChatRoomType, session_room, group_room, session_room_id, group_room_id};
use crate::text::own;

verus! {

/// What an incoming text message asks of the service.
pub enum TextAction {
    /// Store and distribute a chat message, then acknowledge it.
    SendChat {
        content: String,
        recipient_id: Option<u128>,
        session_id: Option<u128>,
        group_id: Option<u128>,
        message_type: String,
    },
    /// Record and announce that the sender starts or stops typing.
    Typing { room_id: String, is_typing: bool },
    /// Send back a page of the history.
    History { session_id: Option<u128>, group_id: Option<u128>, limit: u32, before_message_id: Option<u128> },
    /// Answer a ping.
    Pong,
    /// A message kind the service does not act on.
    Ignore,
}

/// What happened on a connection.
pub enum SocketEvent {
    Text,
    Ping,
    Pong,
    Close,
    Failed,
    Ended,
    Other,
    /// The heartbeat timer fired; the service sent a ping and tells whether
    /// it went out.
    Tick { ping_delivered: bool },
}

/// What the service does next on a connection.
#[derive(PartialEq, Eq, Structural, Clone, Copy, Debug)]
pub enum SocketAction {
    HandleText,
    ReplyPong,
    Continue,
    Close,
}

/// The heartbeat of one connection: the last time (milliseconds of a
/// monotonic clock) the client showed it was there.
pub struct HeartbeatMonitor {
    pub last_heartbeat_ms: u64,
}

/// The room of a typing indicator: the session's, else the group's.
pub open spec fn typing_room(session_id: Option<u128>, group_id: Option<u128>) -> Option<Seq<char>> {
    match (session_id, group_id) {
        (Some(s), _) => Some(session_room(s)),
        (None, Some(g)) => Some(group_room(g)),
        (None, None) => None,
    }
}

/// `r` is the error `BadRequest(message)`.
pub open spec fn is_bad_request<T>(r: Result<T, AppError>, message: Seq<char>) -> bool {
    r matches Err(AppError::BadRequest(m)) && m@ == message
}

/// A user may open another connection while below the per-user limit.
pub fn connection_allowed(current: usize, max_connections_per_user: u32) -> (r: Result<(), AppError>)
    ensures
        current < max_connections_per_user ==> r is Ok,
        current >= max_connections_per_user ==> (r matches Err(AppError::TooManyRequests(m))
            && m@ == "Maximum connections per user exceeded"@),
{
    if current as u64 >= max_connections_per_user as u64 {
        Err(AppError::TooManyRequests(own("Maximum connections per user exceeded")))
    } else {
        Ok(())
    }
}

/// The rooms a new connection joins: its session's, then its group's.
pub fn initial_rooms(session_id: Option<u128>, group_id: Option<u128>) -> (r: Vec<(String, ChatRoomType)>)
    ensures
        r@.len() == (if session_id is Some { 1int } else { 0int }) + (if group_id is Some { 1int } else { 0int }),
        session_id matches Some(s) ==> r@[0].0@ == session_room(s) && r@[0].1 == ChatRoomType::SessionChat,
        group_id matches Some(g) ==> r@[r@.len() - 1].0@ == group_room(g) && r@[r@.len() - 1].1 == ChatRoomType::GroupChat,
{
    let mut r: Vec<(String, ChatRoomType)> = Vec::new();
    match session_id {
        Some(s) => r.push((session_room_id(s), ChatRoomType::SessionChat)),
        None => {},
    }
    match group_id {
        Some(g) => r.push((group_room_id(g), ChatRoomType::GroupChat)),
        None => {},
    }
    r
}

/// The room of a typing indicator, or the refusal when none is named.
pub fn typing_room_id(session_id: Option<u128>, group_id: Option<u128>) -> (r: Result<String, AppError>)
    ensures
        match typing_room(session_id, group_id) {
            Some(room) => r matches Ok(id) && id@ == room,
            None => is_bad_request(r, "No room specified for typing indicator"@),
        },
{
    match (session_id, group_id) {
        (Some(s), _) => Ok(session_room_id(s)),
        (None, Some(g)) => Ok(group_room_id(g)),
        (None, None) => Err(AppError::BadRequest(own("No room specified for typing indicator"))),
    }
}

/// What an incoming message asks for. A chat message longer than
/// `max_message_length` bytes is refused, as is a typing indicator without a
/// room; a history request without a limit asks for 50 messages.
pub fn plan_text_message(message: WsMessage, max_message_length: usize) -> (r: Result<TextAction, AppError>)
    ensures
        match message {
            WsMessage::SendMessage { content, recipient_id, session_id, group_id, message_type } =>
                if vstd::utf8::encode_utf8(content@).len() > max_message_length {
                    is_bad_request(r, "Message too long"@)
                } else {
                    r matches Ok(TextAction::SendChat { content: c, recipient_id: ri, session_id: si, group_id: gi, message_type: mt })
                        && c@ == content@ && ri == recipient_id && si == session_id && gi == group_id && mt@ == message_type@
                },
            WsMessage::TypingStart { session_id, group_id } => match typing_room(session_id, group_id) {
                Some(room) => r matches Ok(TextAction::Typing { room_id, is_typing }) && room_id@ == room && is_typing,
                None => is_bad_request(r, "No room specified for typing indicator"@),
            },
            WsMessage::TypingStop { session_id, group_id } => match typing_room(session_id, group_id) {
                Some(room) => r matches Ok(TextAction::Typing { room_id, is_typing }) && room_id@ == room && !is_typing,
                None => is_bad_request(r, "No room specified for typing indicator"@),
            },
            WsMessage::RequestHistory { session_id, group_id, limit, before_message_id } =>
                r matches Ok(TextAction::History { session_id: si, group_id: gi, limit: l, before_message_id: b })
                    && si == session_id && gi == group_id && b == before_message_id
                    && l == match limit { Some(x) => x, None => 50 },
            WsMessage::Ping => r matches Ok(TextAction::Pong),
            _ => r matches Ok(TextAction::Ignore),
        },
{
    match message {
        WsMessage::SendMessage { content, recipient_id, session_id, group_id, message_type } => {
            if content.as_str().as_bytes().len() > max_message_length {
                return Err(AppError::BadRequest(own("Message too long")));
            }
            Ok(TextAction::SendChat { content, recipient_id, session_id, group_id, message_type })
        },
        WsMessage::TypingStart { session_id, group_id } => {
            match typing_room_id(session_id, group_id) {
                Ok(room_id) => Ok(TextAction::Typing { room_id, is_typing: true }),
                Err(e) => Err(e),
            }
        },
        WsMessage::TypingStop { session_id, group_id } => {
            match typing_room_id(session_id, group_id) {
                Ok(room_id) => Ok(TextAction::Typing { room_id, is_typing: false }),
                Err(e) => Err(e),
            }
        },
        WsMessage::RequestHistory { session_id, group_id, limit, before_message_id } => {
            let l = match limit {
                Some(x) => x,
                None => 50,
            };
            Ok(TextAction::History { session_id, group_id, limit: l, before_message_id })
        },
        WsMessage::Ping => Ok(TextAction::Pong),
        _ => Ok(TextAction::Ignore),
    }
}

/// The error message sent back when handling a text message failed.
pub fn message_error(message: String) -> (m: WsMessage)
    ensures
        m matches WsMessage::Error { code, message: t } && code@ == "MESSAGE_ERROR"@ && t == message,
{
    WsMessage::Error { code: own("MESSAGE_ERROR"), message }
}

impl HeartbeatMonitor {
    /// A connection that showed itself at `now_ms`.
    pub fn new(now_ms: u64) -> (h: Self)
        ensures
            h.last_heartbeat_ms == now_ms,
    {
        HeartbeatMonitor { last_heartbeat_ms: now_ms }
    }

    /// The next step on a connection: texts are handled and pings answered,
    /// and both, like pongs, count as signs of life; a close, an error or
    /// the end of the stream closes it; on a timer tick the connection
    /// closes when the ping could not be sent or the client was silent for
    /// more than a minute.
    pub fn on_event(&mut self, event: SocketEvent, now_ms: u64) -> (a: SocketAction)
        ensures
            match event {
                SocketEvent::Text => a == SocketAction::HandleText && final(self).last_heartbeat_ms == now_ms,
                SocketEvent::Ping => a == SocketAction::ReplyPong && final(self).last_heartbeat_ms == now_ms,
                SocketEvent::Pong => a == SocketAction::Continue && final(self).last_heartbeat_ms == now_ms,
                SocketEvent::Close | SocketEvent::Failed | SocketEvent::Ended => a == SocketAction::Close
                    && final(self).last_heartbeat_ms == old(self).last_heartbeat_ms,
                SocketEvent::Other => a == SocketAction::Continue && final(self).last_heartbeat_ms == old(self).last_heartbeat_ms,
                SocketEvent::Tick { ping_delivered } => final(self).last_heartbeat_ms == old(self).last_heartbeat_ms
                    && (a == if !ping_delivered || now_ms - old(self).last_heartbeat_ms > 60000 {
                        SocketAction::Close
                    } else {
                        SocketAction::Continue
                    }),
            },
    {
        match event {
            SocketEvent::Text => {
                self.last_heartbeat_ms = now_ms;
                SocketAction::HandleText
            },
            SocketEvent::Ping => {
                self.last_heartbeat_ms = now_ms;
                SocketAction::ReplyPong
            },
            SocketEvent::Pong => {
                self.last_heartbeat_ms = now_ms;
                SocketAction::Continue
            },
            SocketEvent::Close | SocketEvent::Failed | SocketEvent::Ended => SocketAction::Close,
            SocketEvent::Other => SocketAction::Continue,
            SocketEvent::Tick { ping_delivered } => {
                if !ping_delivered {
                    SocketAction::Close
                } else if now_ms > self.last_heartbeat_ms && now_ms - self.last_heartbeat_ms > 60000 {
                    SocketAction::Close
                } else {
                    SocketAction::Continue
                }
            },
        }
    }
}

} // verus!
