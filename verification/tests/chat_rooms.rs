use linkwithmentor::chat::messages::{check_rate_limit, moderate_content, validate_content, history_limit, history_has_more};
use linkwithmentor::chat::models::{group_room_id, session_room_id, ChatRoomType, ModerationStatus, WsMessage};
use linkwithmentor::chat::pubsub::{group_of_room, session_of_room, typing_record_expired};
use linkwithmentor::chat::rooms::ConnectionManager;
use linkwithmentor::chat::websocket::{connection_allowed, initial_rooms, typing_room_id};
use linkwithmentor::common::AppError;

const SESSION: u128 = 0x123e4567_e89b_12d3_a456_426614174000;

#[test]
fn joining_and_leaving_a_room_restores_it() {
    let mut m: ConnectionManager = ConnectionManager::new();
    m.join_room(1, "group_x", ChatRoomType::GroupChat);
    let before = m.get_room_participants("group_x");
    m.join_room(2, "group_x", ChatRoomType::GroupChat);
    assert_eq!(m.get_room_participants("group_x"), vec![1, 2]);
    m.join_room(2, "group_x", ChatRoomType::GroupChat);
    assert_eq!(m.get_room_participants("group_x"), vec![1, 2]);
    m.leave_room(2, "group_x");
    assert_eq!(m.get_room_participants("group_x"), before);
    m.leave_room(1, "group_x");
    assert!(m.get_room_participants("group_x").is_empty());
    assert_eq!(m.room_recipients("group_x", None), Vec::<u128>::new());
}

#[test]
fn typing_start_and_stop() {
    let mut m: ConnectionManager = ConnectionManager::new();
    m.set_typing_indicator("session_a", 7, true);
    m.set_typing_indicator("session_a", 8, true);
    assert_eq!(m.get_typing_users("session_a"), vec![7, 8]);
    m.set_typing_indicator("session_a", 7, false);
    assert_eq!(m.get_typing_users("session_a"), vec![8]);
    assert!(m.get_typing_users("other").is_empty());
}

#[test]
fn connections_are_counted_and_removed() {
    let mut m: ConnectionManager = ConnectionManager::new();
    let b = m.add_connection("c1", 5, "ann", 100, 1000);
    assert!(b.recipients.is_empty());
    assert!(matches!(b.message, WsMessage::UserJoined { user_id: 5, .. }));
    m.add_connection("c2", 5, "ann", 101, 1001);
    let b2 = m.add_connection("c3", 6, "bob", 102, 1002);
    assert_eq!(b2.recipients, vec![5]);
    assert_eq!(m.get_user_connection_count(5), 2);
    assert_eq!(m.senders(5), vec![100, 101]);
    let mut online = m.get_online_users();
    online.sort();
    assert_eq!(online, vec![5, 6]);
    m.set_typing_indicator("session_a", 6, true);
    let gone = m.remove_connection("c3", 2000).unwrap();
    assert_eq!(gone.recipients, vec![5]);
    assert_eq!(m.get_user_connection_count(6), 0);
    assert!(m.get_typing_users("session_a").is_empty());
    assert!(m.remove_connection("nope", 2000).is_none());
    assert_eq!(m.inactive_connections(300, 1001 + 300_000), vec!["c1".to_string()]);
    m.remove_senders(5, &vec![0]);
    assert_eq!(m.senders(5), vec![101]);
}

#[test]
fn room_ids_name_their_session_or_group() {
    let room = session_room_id(SESSION);
    assert_eq!(room, "session_123e4567-e89b-12d3-a456-426614174000");
    assert_eq!(session_of_room(&room), Some(SESSION));
    assert_eq!(group_of_room(&group_room_id(SESSION)), Some(SESSION));
    assert_eq!(session_of_room("group_123e4567-e89b-12d3-a456-426614174000"), None);
    assert_eq!(session_of_room("session_nonsense"), None);
}

#[test]
fn message_rules() {
    assert_eq!(validate_content("  \t "), Err(AppError::BadRequest("Message content cannot be empty".to_string())));
    assert!(validate_content(" hi ").is_ok());
    assert_eq!(check_rate_limit(60), Err(AppError::TooManyRequests("Message rate limit exceeded".to_string())));
    assert!(check_rate_limit(59).is_ok());
    assert_eq!(moderate_content("This is SPAM"), ModerationStatus::Flagged);
    assert_eq!(moderate_content("hello"), ModerationStatus::Approved);
    assert_eq!(history_limit(500), 100);
    assert_eq!(history_limit(20), 20);
    assert!(history_has_more(20, 20));
    assert!(!history_has_more(19, 20));
}

#[test]
fn websocket_rules() {
    assert!(connection_allowed(4, 5).is_ok());
    assert!(connection_allowed(5, 5).is_err());
    let rooms = initial_rooms(Some(SESSION), None);
    assert_eq!(rooms.len(), 1);
    assert_eq!(rooms[0].0, "session_123e4567-e89b-12d3-a456-426614174000");
    assert!(typing_room_id(None, None).is_err());
    assert!(typing_record_expired(Some(10), 11));
    assert!(!typing_record_expired(Some(10), 10));
}

#[test]
fn chat_messages_go_to_the_named_recipient_or_the_room() {
    let mut m: ConnectionManager = ConnectionManager::new();
    m.join_room(1, &session_room_id(7), ChatRoomType::SessionChat);
    m.join_room(2, &session_room_id(7), ChatRoomType::SessionChat);
    m.join_room(3, &group_room_id(8), ChatRoomType::GroupChat);
    m.join_room(1, &group_room_id(8), ChatRoomType::GroupChat);
    assert_eq!(m.message_recipients(1, Some(9), Some(7), None), vec![9]);
    assert_eq!(m.message_recipients(1, None, Some(7), Some(8)), vec![2]);
    assert_eq!(m.message_recipients(1, None, None, Some(8)), vec![3]);
    assert!(m.message_recipients(1, None, None, None).is_empty());
}

#[test]
fn default_blocked_words_are_none() {
    let env = linkwithmentor::env::EnvVars { vars: Vec::new() };
    assert!(linkwithmentor::chat::config::ChatConfig::from_env(&env).moderation.blocked_words.is_empty());
    let env = linkwithmentor::env::EnvVars { vars: vec![("BLOCKED_WORDS".to_string(), " Spam, ,EGGS ".to_string())] };
    assert_eq!(linkwithmentor::chat::config::ChatConfig::from_env(&env).moderation.blocked_words, vec!["spam".to_string(), "eggs".to_string()]);
    assert_eq!(moderate_content("Buy SPAM now"), ModerationStatus::Flagged);
}
