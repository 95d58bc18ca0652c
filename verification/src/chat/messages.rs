//! Chat message rules: what may be sent, how fast, what moderation flags,
//! the cache keys of conversations, and the history query.
use vstd::prelude::*;
use crate::common::AppError;
use crate::chat::models::ModerationStatus;
use crate::text::{trimmed, trim, lower_text, to_lower, seq_contains, contains, own, join2, push_uuid, uuid_text, push_decimal, decimal, chars_of};

verus! {

/// One value bound into the history query, in order.
#[derive(PartialEq, Eq, Structural, Clone, Copy, Debug)]
pub enum HistoryBind {
    Session(u128),
    Group(u128),
    User(u128),
    Before(u128),
    Limit(i64),
}

/// Words whose presence, in any case, flags a message for review.
pub open spec fn flagged(content: Seq<char>) -> bool {
    let l = lower_text(content);
    seq_contains(l, "spam"@) || seq_contains(l, "abuse"@) || seq_contains(l, "inappropriate"@)
}

/// A message is flagged exactly when its lower-cased content holds one of
/// the banned words `spam`, `abuse`, `inappropriate`.
pub proof fn law_banned_words_flagged(content: Seq<char>)
    ensures
        flagged(content) <==> (seq_contains(lower_text(content), "spam"@)
            || seq_contains(lower_text(content), "abuse"@) || seq_contains(lower_text(content), "inappropriate"@)),
{
}

/// The history query's first part, before its conditions.
pub open spec fn history_select() -> Seq<char> {
    "\n            SELECT \n                m.message_id, m.sender_id, u.username as sender_username,\n                m.content, m.recipient_id, m.session_id, m.group_id,\n                m.message_type, m.moderation_status, m.created_at,\n                m.updated_at, m.is_edited\n            FROM messages m\n            JOIN users u ON m.sender_id = u.user_id\n            WHERE 1=1\n        "@
}

/// `$n`.
pub open spec fn param(n: nat) -> Seq<char> {
    seq!['$'] + decimal(n)
}

/// The history query's conditions, joined by ` AND `: the session's, the
/// group's, or (for direct messages) the user's as sender or recipient;
/// then, with a cursor, only older messages.
pub open spec fn history_conditions(session: bool, group: bool, before: bool) -> Seq<char> {
    let n_group: nat = if session { 2 } else { 1 };
    let direct = !session && !group;
    let n_before: nat = if direct { 2 } else if session && group { 3 } else { 2 };
    let c_session = "m.session_id = "@ + param(1);
    let c_group = "m.group_id = "@ + param(n_group);
    let c_user = "(m.sender_id = "@ + param(1) + " OR m.recipient_id = "@ + param(1) + ")"@;
    let c_before = "m.created_at < (SELECT created_at FROM messages WHERE message_id = "@ + param(n_before) + ")"@;
    let first = if session && group {
        c_session + " AND "@ + c_group
    } else if session {
        c_session
    } else if group {
        c_group
    } else {
        c_user
    };
    if before {
        first + " AND "@ + c_before
    } else {
        first
    }
}

/// The number of values bound before the limit.
pub open spec fn history_bind_count(session: bool, group: bool, before: bool) -> nat {
    let base: nat = if session && group { 2 } else { 1 };
    if before { base + 1 } else { base }
}

/// The whole history query.
pub open spec fn history_sql(session: bool, group: bool, before: bool) -> Seq<char> {
    history_select() + " AND "@ + history_conditions(session, group, before) + " ORDER BY m.created_at DESC"@
        + " LIMIT "@ + param(history_bind_count(session, group, before) + 1)
}

/// A message must hold something besides white space.
pub fn validate_content(content: &str) -> (r: Result<(), AppError>)
    ensures
        trimmed(content@).len() == 0 ==> (r matches Err(AppError::BadRequest(m)) && m@ == "Message content cannot be empty"@),
        trimmed(content@).len() > 0 ==> r is Ok,
{
    let t = trim(content);
    if chars_of(t.as_str()).len() == 0 {
        return Err(AppError::BadRequest(own("Message content cannot be empty")));
    }
    Ok(())
}

/// At most 60 messages a minute per sender.
pub fn check_rate_limit(current_count: i32) -> (r: Result<(), AppError>)
    ensures
        current_count >= 60 ==> (r matches Err(AppError::TooManyRequests(m)) && m@ == "Message rate limit exceeded"@),
        current_count < 60 ==> r is Ok,
{
    if current_count >= 60 {
        return Err(AppError::TooManyRequests(own("Message rate limit exceeded")));
    }
    Ok(())
}

/// Flags a message that mentions spam, abuse or something inappropriate.
pub fn moderate_content(content: &str) -> (s: ModerationStatus)
    ensures
        s == if flagged(content@) { ModerationStatus::Flagged } else { ModerationStatus::Approved },
        (s == ModerationStatus::Flagged) <==> (seq_contains(lower_text(content@), "spam"@)
            || seq_contains(lower_text(content@), "abuse"@) || seq_contains(lower_text(content@), "inappropriate"@)),
{
    let l = to_lower(content);
    if contains(l.as_str(), "spam") || contains(l.as_str(), "abuse") || contains(l.as_str(), "inappropriate") {
        ModerationStatus::Flagged
    } else {
        ModerationStatus::Approved
    }
}

/// The counter of a sender's messages this minute: `rate_limit:messages:<id>`.
pub fn rate_limit_key(user_id: u128) -> (k: String)
    ensures
        k@ == "rate_limit:messages:"@ + uuid_text(user_id),
{
    let mut k = own("rate_limit:messages:");
    push_uuid(&mut k, user_id);
    k
}

/// The cache entry of a recent message: `recent_message:<id>`.
pub fn recent_message_key(message_id: u128) -> (k: String)
    ensures
        k@ == "recent_message:"@ + uuid_text(message_id),
{
    let mut k = own("recent_message:");
    push_uuid(&mut k, message_id);
    k
}

/// The activity entry of a conversation: by recipient, else session, else
/// group; none for a message that names none of them.
pub fn conversation_key(recipient_id: Option<u128>, session_id: Option<u128>, group_id: Option<u128>) -> (k: Option<String>)
    ensures
        match (recipient_id, session_id, group_id) {
            (Some(r), _, _) => k matches Some(t) && t@ == "conversation:dm:"@ + uuid_text(r),
            (None, Some(s), _) => k matches Some(t) && t@ == "conversation:session:"@ + uuid_text(s),
            (None, None, Some(g)) => k matches Some(t) && t@ == "conversation:group:"@ + uuid_text(g),
            (None, None, None) => k is None,
        },
{
    match (recipient_id, session_id, group_id) {
        (Some(r), _, _) => {
            let mut k = own("conversation:dm:");
            push_uuid(&mut k, r);
            Some(k)
        },
        (None, Some(s), _) => {
            let mut k = own("conversation:session:");
            push_uuid(&mut k, s);
            Some(k)
        },
        (None, None, Some(g)) => {
            let mut k = own("conversation:group:");
            push_uuid(&mut k, g);
            Some(k)
        },
        (None, None, None) => None,
    }
}

/// A history page holds at most 100 messages.
pub fn history_limit(limit: u32) -> (l: u32)
    ensures
        l == if limit < 100 { limit } else { 100 },
{
    if limit < 100 {
        limit
    } else {
        100
    }
}

/// Whether a page that came back with `rows` messages may have more after
/// it: it was full.
pub fn history_has_more(rows: usize, limit: u32) -> (b: bool)
    ensures
        b == (rows == limit),
{
    rows as u64 == limit as u64
}

fn push_param(s: &mut String, n: u64)
    ensures
        final(s)@ == old(s)@ + param(n as nat),
{
    crate::text::push_char(s, '$');
    push_decimal(s, n);
    assert(old(s)@.push('$') + decimal(n as nat) =~= old(s)@ + param(n as nat));
}

/// The history query and the values to bind, in order: session, group, the
/// user for direct messages, the cursor, and the limit.
pub fn history_query(
    user_id: u128,
    session_id: Option<u128>,
    group_id: Option<u128>,
    limit: u32,
    before_message_id: Option<u128>,
) -> (r: (String, Vec<HistoryBind>))
    ensures
        r.0@ == history_sql(session_id is Some, group_id is Some, before_message_id is Some),
        r.1@ == (match session_id { Some(s) => seq![HistoryBind::Session(s)], None => Seq::empty() })
            + (match group_id { Some(g) => seq![HistoryBind::Group(g)], None => Seq::empty() })
            + (if session_id is None && group_id is None { seq![HistoryBind::User(user_id)] } else { Seq::empty() })
            + (match before_message_id { Some(b) => seq![HistoryBind::Before(b)], None => Seq::empty() })
            + seq![HistoryBind::Limit(limit as i64)],
{
    let mut q = own("\n            SELECT \n                m.message_id, m.sender_id, u.username as sender_username,\n                m.content, m.recipient_id, m.session_id, m.group_id,\n                m.message_type, m.moderation_status, m.created_at,\n                m.updated_at, m.is_edited\n            FROM messages m\n            JOIN users u ON m.sender_id = u.user_id\n            WHERE 1=1\n        ");
    q.append(" AND ");
    let mut binds: Vec<HistoryBind> = Vec::new();
    let mut n: u64 = 0;
    let ghost start = q@;
    match session_id {
        Some(s) => {
            n = n + 1;
            q.append("m.session_id = ");
            push_param(&mut q, n);
            binds.push(HistoryBind::Session(s));
        },
        None => {},
    }
    match group_id {
        Some(g) => {
            if n > 0 {
                q.append(" AND ");
            }
            n = n + 1;
            q.append("m.group_id = ");
            push_param(&mut q, n);
            binds.push(HistoryBind::Group(g));
        },
        None => {},
    }
    if session_id.is_none() && group_id.is_none() {
        n = n + 1;
        q.append("(m.sender_id = ");
        push_param(&mut q, n);
        q.append(" OR m.recipient_id = ");
        push_param(&mut q, n);
        q.append(")");
        binds.push(HistoryBind::User(user_id));
    }
    match before_message_id {
        Some(b) => {
            n = n + 1;
            q.append(" AND ");
            q.append("m.created_at < (SELECT created_at FROM messages WHERE message_id = ");
            push_param(&mut q, n);
            q.append(")");
            binds.push(HistoryBind::Before(b));
        },
        None => {},
    }
    q.append(" ORDER BY m.created_at DESC");
    n = n + 1;
    q.append(" LIMIT ");
    push_param(&mut q, n);
    binds.push(HistoryBind::Limit(limit as i64));
    proof {
        let s = session_id is Some;
        let g = group_id is Some;
        let b = before_message_id is Some;
        assert(q@ =~= history_sql(s, g, b));
        assert(binds@ =~= (match session_id { Some(x) => seq![HistoryBind::Session(x)], None => Seq::empty() })
            + (match group_id { Some(x) => seq![HistoryBind::Group(x)], None => Seq::empty() })
            + (if session_id is None && group_id is None { seq![HistoryBind::User(user_id)] } else { Seq::empty() })
            + (match before_message_id { Some(x) => seq![HistoryBind::Before(x)], None => Seq::empty() })
            + seq![HistoryBind::Limit(limit as i64)]);
    }
    (q, binds)
}

} // verus!
