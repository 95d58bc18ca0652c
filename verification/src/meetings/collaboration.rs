//! Live collaboration in running sessions: who takes part, who shares a
//! screen (one person at a time), the chat kept with the session, and the
//! materials shared in it. The running sessions are held in a concurrent
//! map (`dashmap::DashMap`), each session's participants in a `HashMap`.
use vstd::prelude::*;
use std::collections::HashMap;
use vstd::std_specs::iter::IteratorSpec;
use crate::common::AppError;
use crate::meetings::models::{ParticipantRole, ParticipantStatus, SessionMaterial};
use crate::time::{Timestamp, ts_valid, ts_nanos, ts_later, MIN_SECS};
use crate::text::own;
use crate::meetings::connections::{ConnectionMap, connections_held, connections_new, linked};

verus! {

broadcast use vstd::std_specs::hash::group_hash_axioms;

#[derive(Clone)]
pub struct SessionParticipant {
    pub user_id: u128,
    pub username: String,
    pub role: ParticipantRole,
    pub status: ParticipantStatus,
    pub joined_at: Option<Timestamp>,
    pub left_at: Option<Timestamp>,
}

#[derive(Clone)]
pub struct ChatMessage {
    pub message_id: u128,
    pub sender_id: u128,
    pub sender_username: String,
    pub content: String,
    pub timestamp: Timestamp,
}

/// A running session's shared state.
#[derive(Clone)]
pub struct SessionCollaboration {
    pub session_id: u128,
    pub participants: HashMap<u128, SessionParticipant>,
    pub whiteboard_id: Option<u128>,
    pub active_screen_share: Option<u128>,
    pub chat_messages: Vec<ChatMessage>,
    pub shared_materials: Vec<SessionMaterial>,
    pub started_at: Timestamp,
    pub last_activity: Timestamp,
}

/// The running sessions, by session id.
pub type SessionMap = dashmap::DashMap<u128, SessionCollaboration>;

/// What a map of running sessions holds.
pub uninterp spec fn sessions_held(m: SessionMap) -> Map<u128, SessionCollaboration>;

/// Two copies of a chat message agree.
pub open spec fn same_message(a: ChatMessage, b: ChatMessage) -> bool {
    &&& a.message_id == b.message_id
    &&& a.sender_id == b.sender_id
    &&& a.sender_username@ == b.sender_username@
    &&& a.content@ == b.content@
    &&& a.timestamp == b.timestamp
}

/// Two copies of a session's state agree: its participants, sharer, times
/// and identifiers, each chat message, and the number of materials.
pub open spec fn same_collaboration(a: SessionCollaboration, b: SessionCollaboration) -> bool {
    &&& a.session_id == b.session_id
    &&& a.participants@ == b.participants@
    &&& a.whiteboard_id == b.whiteboard_id
    &&& a.active_screen_share == b.active_screen_share
    &&& a.chat_messages@.len() == b.chat_messages@.len()
    &&& forall|i: int| 0 <= i < a.chat_messages@.len() ==> same_message(#[trigger] a.chat_messages@[i], b.chat_messages@[i])
    &&& a.shared_materials@.len() == b.shared_materials@.len()
    &&& a.started_at == b.started_at
    &&& a.last_activity == b.last_activity
}

/// `DashMap::new`: no running sessions.
#[verifier::external_body]
fn sessions_new() -> (r: SessionMap)
    ensures
        (sessions_held(r) == Map::<u128, SessionCollaboration>::empty()),
{
    dashmap::DashMap::new()
}

/// `DashMap::get`, the value cloned (which `same_collaboration` relates to
/// the stored one, as `Clone` of the fields gives).
#[verifier::external_body]
fn sessions_get(m: &SessionMap, k: u128) -> (r: Option<SessionCollaboration>)
    ensures
        match r {
            Some(v) => sessions_held(*m).contains_key(k) && same_collaboration(v, sessions_held(*m)[k]),
            None => !sessions_held(*m).contains_key(k),
        },
{
    m.get(&k).map(|v| v.value().clone())
}

/// `DashMap::insert`: the key now holds the value.
#[verifier::external_body]
fn sessions_insert(m: &mut SessionMap, k: u128, v: SessionCollaboration)
    ensures
        sessions_held(*final(m)) == sessions_held(*old(m)).insert(k, v),
{
    m.insert(k, v);
}

/// `DashMap::remove`: the key is gone; its value is handed back.
#[verifier::external_body]
fn sessions_remove(m: &mut SessionMap, k: u128) -> (r: Option<SessionCollaboration>)
    ensures
        sessions_held(*final(m)) == sessions_held(*old(m)).remove(k),
        match r {
            Some(v) => sessions_held(*old(m)).contains_key(k) && v == sessions_held(*old(m))[k],
            None => !sessions_held(*old(m)).contains_key(k),
        },
{
    m.remove(&k).map(|(_, v)| v)
}

/// `DashMap::iter`, keys only: every running session's id once, in an
/// order left open.
#[verifier::external_body]
pub(crate) fn sessions_ids(m: &SessionMap) -> (r: Vec<u128>)
    ensures
        forall|i: int| 0 <= i < r@.len() ==> sessions_held(*m).contains_key(#[trigger] r@[i]),
        forall|k: u128| #[trigger] sessions_held(*m).contains_key(k) ==> r@.contains(k),
        (forall|i: int, j: int| 0 <= i < j < r@.len() ==> #[trigger] r@[i] != #[trigger] r@[j]),
{
    m.iter().map(|e| *e.key()).collect()
}

/// `DashMap::retain` with a test that keeps the sessions whose last
/// activity is later than `cutoff`: those stay as they were, the others
/// are dropped.
#[verifier::external_body]
pub(crate) fn sessions_retain_after(m: &mut SessionMap, cutoff: Timestamp)
    ensures
        forall|k: u128| #[trigger] sessions_held(*final(m)).contains_key(k)
            <==> (sessions_held(*old(m)).contains_key(k) && ts_later(sessions_held(*old(m))[k].last_activity, cutoff)),
        forall|k: u128| #[trigger] sessions_held(*final(m)).contains_key(k) ==> sessions_held(*final(m))[k] == sessions_held(*old(m))[k],
{
    m.retain(|_, s| s.last_activity.later_than(&cutoff));
}

/// The running sessions, and each participant's open connections.
pub struct CollaborationState {
    pub active_sessions: SessionMap,
    pub connections: ConnectionMap,
}

/// The open connections are as they were.
pub open spec fn links_kept(pre: CollaborationState, post: CollaborationState) -> bool {
    connections_held(post.connections) == connections_held(pre.connections)
}

/// `d` is `c` after `user_id` joined as `username` with `role` at `now`:
/// a confirmed participant who joined then, the others as they were.
pub open spec fn joined(c: SessionCollaboration, d: SessionCollaboration, user_id: u128, username: Seq<char>, role: ParticipantRole, now: Timestamp) -> bool {
    &&& d.participants@.contains_key(user_id)
    &&& ({
        let p = d.participants@[user_id];
        p.user_id == user_id && p.username@ == username && p.role == role
            && p.status == ParticipantStatus::Confirmed && p.joined_at == Some(now) && p.left_at is None
    })
    &&& (forall|u: u128| u != user_id ==> #[trigger] d.participants@.contains_key(u) == c.participants@.contains_key(u)
        && d.participants@[u] == c.participants@[u])
    &&& d.active_screen_share == c.active_screen_share
    &&& d.last_activity == now
}

/// `d` is `c` after the participant `user_id` left at `now`: marked as not
/// having shown, with the time of leaving, the others as they were.
pub open spec fn left_session(c: SessionCollaboration, d: SessionCollaboration, user_id: u128, now: Timestamp) -> bool {
    let p = c.participants@[user_id];
    &&& d.participants@.contains_key(user_id)
    &&& ({
        let q = d.participants@[user_id];
        q.user_id == p.user_id && q.username@ == p.username@ && q.role == p.role
            && q.status == ParticipantStatus::NoShow && q.joined_at == p.joined_at && q.left_at == Some(now)
    })
    &&& (forall|u: u128| u != user_id ==> #[trigger] d.participants@.contains_key(u) == c.participants@.contains_key(u)
        && d.participants@[u] == c.participants@[u])
    &&& d.active_screen_share == c.active_screen_share
    &&& d.last_activity == now
}

/// The state of a running session.
pub open spec fn running(s: CollaborationState, id: u128) -> Option<SessionCollaboration> {
    if sessions_held(s.active_sessions).contains_key(id) {
        Some(sessions_held(s.active_sessions)[id])
    } else {
        None
    }
}

impl ChatMessage {
    /// A copy of the message.
    pub fn copy(&self) -> (c: ChatMessage)
        ensures
            same_message(c, *self),
    {
        ChatMessage {
            message_id: self.message_id,
            sender_id: self.sender_id,
            sender_username: own(self.sender_username.as_str()),
            content: own(self.content.as_str()),
            timestamp: self.timestamp,
        }
    }
}

/// The last `n` messages, oldest first (all of them when there are fewer).
pub open spec fn last_messages(m: Seq<ChatMessage>, n: nat) -> Seq<ChatMessage> {
    if n >= m.len() {
        m
    } else {
        m.subrange(m.len() - n, m.len() as int)
    }
}

impl CollaborationState {
    /// No running sessions.
    pub fn new() -> (s: Self)
        ensures
            forall|id: u128| #[trigger] running(s, id) is None,
            forall|u: u128| #[trigger] linked(s, u).len() == 0,
    {
        CollaborationState { active_sessions: sessions_new(), connections: connections_new() }
    }

    /// Starts a session's collaboration with its board, at `now`, with no
    /// participants, sharer, chat or materials yet.
    pub fn start_session(&mut self, session_id: u128, whiteboard_id: u128, now: Timestamp)
        ensures
            running(*final(self), session_id) matches Some(c) && c.session_id == session_id
                && c.participants@.len() == 0 && c.whiteboard_id == Some(whiteboard_id)
                && c.active_screen_share is None && c.chat_messages@.len() == 0 && c.shared_materials@.len() == 0
                && c.started_at == now && c.last_activity == now,
            forall|id: u128| id != session_id ==> #[trigger] running(*final(self), id) == running(*old(self), id),
            links_kept(*old(self), *final(self)),
    {
        let c = SessionCollaboration {
            session_id,
            participants: HashMap::new(),
            whiteboard_id: Some(whiteboard_id),
            active_screen_share: None,
            chat_messages: Vec::new(),
            shared_materials: Vec::new(),
            started_at: now,
            last_activity: now,
        };
        sessions_insert(&mut self.active_sessions, session_id, c);
    }

    /// Ends a session's collaboration and gives its final state back, to be
    /// saved.
    pub fn end_session(&mut self, session_id: u128) -> (r: Option<SessionCollaboration>)
        ensures
            r == running(*old(self), session_id),
            running(*final(self), session_id) is None,
            forall|id: u128| id != session_id ==> #[trigger] running(*final(self), id) == running(*old(self), id),
            links_kept(*old(self), *final(self)),
    {
        sessions_remove(&mut self.active_sessions, session_id)
    }

    /// Records `user_id` as a confirmed participant who joined at `now`; a
    /// session that is not running is left alone.
    pub fn add_participant(&mut self, session_id: u128, user_id: u128, username: &str, role: ParticipantRole, now: Timestamp)
        ensures
            match running(*old(self), session_id) {
                Some(c) => running(*final(self), session_id) matches Some(d) && joined(c, d, user_id, username@, role, now),
                None => running(*final(self), session_id) is None,
            },
            forall|id: u128| id != session_id ==> #[trigger] running(*final(self), id) == running(*old(self), id),
            links_kept(*old(self), *final(self)),
    {
        match sessions_remove(&mut self.active_sessions, session_id) {
            Some(c) => {
                let mut c = c;
                let p = SessionParticipant {
                    user_id,
                    username: own(username),
                    role,
                    status: ParticipantStatus::Confirmed,
                    joined_at: Some(now),
                    left_at: None,
                };
                c.participants.insert(user_id, p);
                c.last_activity = now;
                sessions_insert(&mut self.active_sessions, session_id, c);
            },
            None => {},
        }
    }

    /// Marks a participant as gone at `now` and gives back the name and
    /// whether the participant was sharing a screen.
    pub fn remove_participant(&mut self, session_id: u128, user_id: u128, now: Timestamp) -> (r: Result<(String, bool), AppError>)
        ensures
            match running(*old(self), session_id) {
                None => (r matches Err(AppError::NotFound(m)) && m@ == "Session not found"@)
                    && running(*final(self), session_id) is None,
                Some(c) => if !c.participants@.contains_key(user_id) {
                    (r matches Err(AppError::NotFound(m)) && m@ == "Participant not found"@)
                        && running(*final(self), session_id) == Some(c)
                } else {
                    let p = c.participants@[user_id];
                    &&& (r matches Ok((name, sharing)) && name@ == p.username@ && sharing == (c.active_screen_share == Some(user_id)))
                    &&& running(*final(self), session_id) matches Some(d) && left_session(c, d, user_id, now)
                },
            },
            forall|id: u128| id != session_id ==> #[trigger] running(*final(self), id) == running(*old(self), id),
            links_kept(*old(self), *final(self)),
    {
        match sessions_remove(&mut self.active_sessions, session_id) {
            None => Err(AppError::NotFound(own("Session not found"))),
            Some(c) => {
                let mut c = c;
                if !c.participants.contains_key(&user_id) {
                    sessions_insert(&mut self.active_sessions, session_id, c);
                    return Err(AppError::NotFound(own("Participant not found")));
                }
                let ghost before = c.participants@;
                match c.participants.remove(&user_id) {
                    None => {
                        sessions_insert(&mut self.active_sessions, session_id, c);
                        Err(AppError::NotFound(own("Participant not found")))
                    },
                    Some(p) => {
                        let name = own(p.username.as_str());
                        let mut p = p;
                        p.left_at = Some(now);
                        p.status = ParticipantStatus::NoShow;
                        c.participants.insert(user_id, p);
                        c.last_activity = now;
                        assert(c.participants@ == before.insert(user_id, p));
                        let sharing = match c.active_screen_share {
                            Some(s) => s == user_id,
                            None => false,
                        };
                        sessions_insert(&mut self.active_sessions, session_id, c);
                        Ok((name, sharing))
                    },
                }
            },
        }
    }

    /// Gives the screen to `user_id`, unless someone else shares it.
    pub fn start_screen_sharing(&mut self, session_id: u128, user_id: u128, now: Timestamp) -> (r: Result<(), AppError>)
        ensures
            match running(*old(self), session_id) {
                Some(c) => if c.active_screen_share is Some && c.active_screen_share != Some(user_id) {
                    (r matches Err(AppError::BadRequest(m)) && m@ == "Another user is already screen sharing"@)
                        && running(*final(self), session_id) == Some(c)
                } else {
                    r is Ok && (running(*final(self), session_id) matches Some(d)
                        && d.active_screen_share == Some(user_id) && d.participants == c.participants && d.last_activity == now)
                },
                None => r is Ok && running(*final(self), session_id) is None,
            },
            forall|id: u128| id != session_id ==> #[trigger] running(*final(self), id) == running(*old(self), id),
            links_kept(*old(self), *final(self)),
    {
        match sessions_remove(&mut self.active_sessions, session_id) {
            Some(c) => {
                let mut c = c;
                match c.active_screen_share {
                    Some(current) => {
                        if current != user_id {
                            sessions_insert(&mut self.active_sessions, session_id, c);
                            return Err(AppError::BadRequest(own("Another user is already screen sharing")));
                        }
                    },
                    None => {},
                }
                c.active_screen_share = Some(user_id);
                c.last_activity = now;
                sessions_insert(&mut self.active_sessions, session_id, c);
                Ok(())
            },
            None => Ok(()),
        }
    }

    /// Takes the screen back from `user_id` if it was theirs.
    pub fn stop_screen_sharing(&mut self, session_id: u128, user_id: u128, now: Timestamp)
        ensures
            match running(*old(self), session_id) {
                Some(c) => running(*final(self), session_id) matches Some(d) && d.participants == c.participants
                    && d.active_screen_share == (if c.active_screen_share == Some(user_id) { None } else { c.active_screen_share }),
                None => running(*final(self), session_id) is None,
            },
            forall|id: u128| id != session_id ==> #[trigger] running(*final(self), id) == running(*old(self), id),
            links_kept(*old(self), *final(self)),
    {
        match sessions_remove(&mut self.active_sessions, session_id) {
            Some(c) => {
                let mut c = c;
                let sharing = match c.active_screen_share {
                    Some(s) => s == user_id,
                    None => false,
                };
                if sharing {
                    c.active_screen_share = None;
                    c.last_activity = now;
                }
                sessions_insert(&mut self.active_sessions, session_id, c);
            },
            None => {},
        }
    }

    /// Keeps a chat message with the session.
    pub fn record_chat_message(&mut self, session_id: u128, message: ChatMessage)
        ensures
            match running(*old(self), session_id) {
                Some(c) => running(*final(self), session_id) matches Some(d)
                    && d.chat_messages@ == c.chat_messages@.push(message) && d.last_activity == message.timestamp
                    && d.participants == c.participants && d.active_screen_share == c.active_screen_share,
                None => running(*final(self), session_id) is None,
            },
            forall|id: u128| id != session_id ==> #[trigger] running(*final(self), id) == running(*old(self), id),
            links_kept(*old(self), *final(self)),
    {
        match sessions_remove(&mut self.active_sessions, session_id) {
            Some(c) => {
                let mut c = c;
                c.last_activity = message.timestamp;
                c.chat_messages.push(message);
                sessions_insert(&mut self.active_sessions, session_id, c);
            },
            None => {},
        }
    }

    /// The last `limit` (default 50) chat messages of a running session,
    /// oldest first; `None` for a session that is not running.
    pub fn chat_history(&self, session_id: u128, limit: Option<u32>) -> (r: Option<Vec<ChatMessage>>)
        ensures
            match running(*self, session_id) {
                Some(c) => r matches Some(v) && {
                    let want = last_messages(c.chat_messages@, match limit { Some(l) => l as nat, None => 50 });
                    &&& v@.len() == want.len()
                    &&& forall|i: int| 0 <= i < v@.len() ==> same_message(#[trigger] v@[i], want[i])
                },
                None => r is None,
            },
    {
        match sessions_get(&self.active_sessions, session_id) {
            Some(c) => {
                let ghost stored = sessions_held(self.active_sessions)[session_id];
                let n: usize = match limit {
                    Some(l) => if (l as u64) < (c.chat_messages.len() as u64) { l as usize } else { c.chat_messages.len() },
                    None => if c.chat_messages.len() > 50 { 50 } else { c.chat_messages.len() },
                };
                let start = c.chat_messages.len() - n;
                let ghost want = last_messages(stored.chat_messages@, match limit { Some(l) => l as nat, None => 50 });
                let mut v: Vec<ChatMessage> = Vec::new();
                let mut i = start;
                while i < c.chat_messages.len()
                    invariant
                        start <= i <= c.chat_messages@.len(),
                        c.chat_messages@.len() == stored.chat_messages@.len(),
                        forall|k: int| 0 <= k < c.chat_messages@.len() ==> same_message(#[trigger] c.chat_messages@[k], stored.chat_messages@[k]),
                        want == stored.chat_messages@.subrange(start as int, stored.chat_messages@.len() as int),
                        v@.len() == i - start,
                        forall|k: int| 0 <= k < v@.len() ==> same_message(#[trigger] v@[k], want[k]),
                    decreases c.chat_messages.len() - i,
                {
                    let m = c.chat_messages[i].copy();
                    proof {
                        assert(same_message(c.chat_messages@[i as int], stored.chat_messages@[i as int]));
                        assert(want[i - start] == stored.chat_messages@[i as int]);
                    }
                    v.push(m);
                    i = i + 1;
                }
                Some(v)
            },
            None => None,
        }
    }

    /// Keeps a shared material with the session.
    pub fn share_material(&mut self, session_id: u128, material: SessionMaterial, now: Timestamp)
        ensures
            match running(*old(self), session_id) {
                Some(c) => running(*final(self), session_id) matches Some(d)
                    && d.shared_materials@ == c.shared_materials@.push(material) && d.last_activity == now,
                None => running(*final(self), session_id) is None,
            },
            forall|id: u128| id != session_id ==> #[trigger] running(*final(self), id) == running(*old(self), id),
            links_kept(*old(self), *final(self)),
    {
        match sessions_remove(&mut self.active_sessions, session_id) {
            Some(c) => {
                let mut c = c;
                c.shared_materials.push(material);
                c.last_activity = now;
                sessions_insert(&mut self.active_sessions, session_id, c);
            },
            None => {},
        }
    }

    /// The participants of a running session other than `exclude`, each
    /// once: the recipients of what is broadcast to it.
    pub fn recipients(&self, session_id: u128, exclude: Option<u128>) -> (r: Vec<u128>)
        ensures
            match running(*self, session_id) {
                Some(c) => forall|u: u128| #[trigger] r@.contains(u) <==> (c.participants@.contains_key(u) && Some(u) != exclude),
                None => r@.len() == 0,
            },
    {
        match sessions_get(&self.active_sessions, session_id) {
            Some(c) => {
                let ghost s = vstd::std_specs::hash::spec_keys_iter(&c.participants).remaining();
                let mut r: Vec<u128> = Vec::new();
                let ghost mut n: int = 0;
                for k in it: c.participants.keys()
                    invariant
                        it.seq() == s,
                        n == it.index(),
                        forall|u: u128| #[trigger] r@.contains(u) <==> exists|j: int| 0 <= j < n && *s[j] == u && Some(u) != exclude,
                {
                    let u = *k;
                    let skip = match exclude {
                        Some(x) => x == u,
                        None => false,
                    };
                    let ghost before = r@;
                    if !skip {
                        r.push(u);
                    }
                    proof {
                        assert forall|w: u128| #[trigger] r@.contains(w) <==> exists|j: int| 0 <= j < n + 1 && *s[j] == w && Some(w) != exclude by {
                            if r@.contains(w) && !before.contains(w) {
                                assert(r@[r@.len() - 1] == w);
                            }
                            if before.contains(w) {
                                let q = choose|q: int| 0 <= q < before.len() && before[q] == w;
                                assert(r@[q] == w);
                            }
                            if exists|j: int| 0 <= j < n + 1 && *s[j] == w && Some(w) != exclude {
                                let j = choose|j: int| 0 <= j < n + 1 && *s[j] == w && Some(w) != exclude;
                                if j == n {
                                    assert(r@[r@.len() - 1] == w);
                                } else {
                                    assert(before.contains(w));
                                    let q = choose|q: int| 0 <= q < before.len() && before[q] == w;
                                    assert(r@[q] == w);
                                }
                            }
                        }
                        n = n + 1;
                    }
                }
                proof {
                    assert(n == s.len());
                    assert(s.unref().to_set() == c.participants@.dom());
                    assert forall|u: u128| #[trigger] r@.contains(u) <==> (c.participants@.contains_key(u) && Some(u) != exclude) by {
                        if c.participants@.contains_key(u) && Some(u) != exclude {
                            assert(s.unref().to_set().contains(u));
                            let j = choose|j: int| 0 <= j < s.unref().len() && s.unref()[j] == u;
                            assert(*s[j] == u);
                        }
                        if r@.contains(u) {
                            let j = choose|j: int| 0 <= j < n && *s[j] == u && Some(u) != exclude;
                            assert(s.unref()[j] == u);
                            assert(s.unref().to_set().contains(u));
                        }
                    }
                }
                r
            },
            None => Vec::new(),
        }
    }
}

/// A session stays in memory while it had activity in the last hour.
pub fn session_still_active(last_activity: Timestamp, now: Timestamp) -> (b: bool)
    requires
        ts_valid(last_activity),
        ts_valid(now),
        now.secs - 3600 >= MIN_SECS,
    ensures
        b == (ts_nanos(last_activity) > ts_nanos(now) - 3600 * 1_000_000_000),
{
    let cutoff = now.plus_seconds(-3600);
    cutoff.before(&last_activity)
}

} // verus!
