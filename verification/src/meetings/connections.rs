//! The open connections of collaboration participants, held in a
//! concurrent map (`dashmap::DashMap`) by user id. Connecting makes the
//! user a participant of the session; losing the last connection takes the
//! user out of every running session; what is broadcast to a session goes
//! to its participants' connections to it; idle sessions and connections
//! are dropped. A connection is known here by a handle number; the service
//! keeps what it sends on.
use vstd::prelude::*;
use crate::meetings::collaboration::{
    CollaborationState, SessionCollaboration, running, joined, left_session, links_kept, sessions_ids, sessions_retain_after,
};
use crate::meetings::models::ParticipantRole;
use crate::meetings::whiteboard::placeholder_username;
use crate::time::{Timestamp, ts_valid, ts_plus, ts_later, MIN_SECS};
use crate::text::{str_eq, uuid_text};

verus! {

/// A participant's open connection to a running session.
#[derive(Clone)]
pub struct CollaborationConnection {
    pub user_id: u128,
    pub username: String,
    pub session_id: u128,
    pub connection_id: String,
    pub handle: u64,
    pub connected_at: Timestamp,
    pub last_activity: Timestamp,
}

/// Each user's open connections, by user id.
pub type ConnectionMap = dashmap::DashMap<u128, Vec<CollaborationConnection>>;

/// What a map of connections holds.
pub uninterp spec fn connections_held(m: ConnectionMap) -> Map<u128, Seq<CollaborationConnection>>;

/// Two copies of a connection agree, texts by their characters.
pub open spec fn same_connection(a: CollaborationConnection, b: CollaborationConnection) -> bool {
    &&& a.user_id == b.user_id
    &&& a.username@ == b.username@
    &&& a.session_id == b.session_id
    &&& a.connection_id@ == b.connection_id@
    &&& a.handle == b.handle
    &&& a.connected_at == b.connected_at
    &&& a.last_activity == b.last_activity
}

/// The open connections of user `u` (none when the user has no entry).
pub open spec fn linked(s: CollaborationState, u: u128) -> Seq<CollaborationConnection> {
    if connections_held(s.connections).contains_key(u) {
        connections_held(s.connections)[u]
    } else {
        Seq::empty()
    }
}

/// The connections other than the one with identifier `id`.
pub open spec fn without_connection(c: Seq<CollaborationConnection>, id: Seq<char>) -> Seq<CollaborationConnection> {
    c.filter(|x: CollaborationConnection| x.connection_id@ != id)
}

/// The connections active later than `cutoff`.
pub open spec fn recent_connections(c: Seq<CollaborationConnection>, cutoff: Timestamp) -> Seq<CollaborationConnection> {
    c.filter(|x: CollaborationConnection| ts_later(x.last_activity, cutoff))
}

/// User `u` takes part in the running session `id`.
pub open spec fn participates(s: CollaborationState, id: u128, u: u128) -> bool {
    running(s, id) matches Some(c) && c.participants@.contains_key(u)
}

/// A session's state after `u` left every session at `now`: one `u` took
/// part in shows `u` gone; any other is as it was.
pub open spec fn after_leaving(pre: Option<SessionCollaboration>, post: Option<SessionCollaboration>, u: u128, now: Timestamp) -> bool {
    match pre {
        Some(c) => if c.participants@.contains_key(u) {
            post matches Some(d) && left_session(c, d, u, now)
        } else {
            post == pre
        },
        None => post == pre,
    }
}

/// Some connection in `c` is to session `sid` under handle `h`.
pub open spec fn hits(c: Seq<CollaborationConnection>, sid: u128, h: u64) -> bool {
    exists|k: int| 0 <= k < c.len() && (#[trigger] c[k]).session_id == sid && c[k].handle == h
}

/// Handle `h` belongs to a connection, to the running session `sid`, of a
/// participant other than `exclude`.
pub open spec fn reaches(s: CollaborationState, sid: u128, exclude: Option<u128>, h: u64) -> bool {
    running(s, sid) matches Some(c)
        && exists|u: u128| #[trigger] c.participants@.contains_key(u) && Some(u) != exclude && hits(linked(s, u), sid, h)
}

/// `DashMap::new`: no connections.
#[verifier::external_body]
pub(crate) fn connections_new() -> (r: ConnectionMap)
    ensures
        (connections_held(r) == Map::<u128, Seq<CollaborationConnection>>::empty()),
{
    dashmap::DashMap::new()
}

/// `DashMap::get`, the list cloned (its `Clone` clones each connection,
/// which copies the numbers and times and clones the texts).
#[verifier::external_body]
fn connections_get(m: &ConnectionMap, k: u128) -> (r: Option<Vec<CollaborationConnection>>)
    ensures
        match r {
            Some(v) => connections_held(*m).contains_key(k) && v@.len() == connections_held(*m)[k].len()
                && forall|i: int| 0 <= i < v@.len() ==> same_connection(#[trigger] v@[i], connections_held(*m)[k][i]),
            None => !connections_held(*m).contains_key(k),
        },
{
    m.get(&k).map(|v| v.value().clone())
}

/// `DashMap::insert`: the key now holds the list.
#[verifier::external_body]
fn connections_insert(m: &mut ConnectionMap, k: u128, v: Vec<CollaborationConnection>)
    ensures
        connections_held(*final(m)) == connections_held(*old(m)).insert(k, v@),
{
    m.insert(k, v);
}

/// `DashMap::remove`: the key is gone; its list is handed back.
#[verifier::external_body]
fn connections_remove(m: &mut ConnectionMap, k: u128) -> (r: Option<Vec<CollaborationConnection>>)
    ensures
        connections_held(*final(m)) == connections_held(*old(m)).remove(k),
        match r {
            Some(v) => connections_held(*old(m)).contains_key(k) && v@ == connections_held(*old(m))[k],
            None => !connections_held(*old(m)).contains_key(k),
        },
{
    m.remove(&k).map(|(_, v)| v)
}

/// `DashMap::retain` with a test that trims each user's list to the
/// connections active later than `cutoff` and keeps the users left with
/// one.
#[verifier::external_body]
fn connections_retain_recent(m: &mut ConnectionMap, cutoff: Timestamp)
    ensures
        forall|k: u128| #[trigger] connections_held(*final(m)).contains_key(k)
            <==> (connections_held(*old(m)).contains_key(k) && recent_connections(connections_held(*old(m))[k], cutoff).len() > 0),
        forall|k: u128| #[trigger] connections_held(*final(m)).contains_key(k)
            ==> connections_held(*final(m))[k] == recent_connections(connections_held(*old(m))[k], cutoff),
{
    m.retain(|_, list| keep_recent(list, cutoff));
}

/// Filtering one more element extends the filtered prefix by it when it
/// passes.
proof fn lemma_filter_step(c: Seq<CollaborationConnection>, i: int, f: spec_fn(CollaborationConnection) -> bool)
    requires
        0 <= i < c.len(),
    ensures
        c.subrange(0, i + 1).filter(f) == if f(c[i]) { c.subrange(0, i).filter(f).push(c[i]) } else { c.subrange(0, i).filter(f) },
{
    reveal_with_fuel(Seq::filter, 1);
    assert(c.subrange(0, i + 1).drop_last() =~= c.subrange(0, i));
    assert(c.subrange(0, i + 1).last() == c[i]);
}

/// Nothing passes a filter of no elements.
proof fn lemma_filter_empty(f: spec_fn(CollaborationConnection) -> bool)
    ensures
        Seq::<CollaborationConnection>::empty().filter(f) == Seq::<CollaborationConnection>::empty(),
{
    reveal_with_fuel(Seq::filter, 1);
}

/// A filter that every element passes keeps them all.
proof fn lemma_filter_all(c: Seq<CollaborationConnection>, f: spec_fn(CollaborationConnection) -> bool)
    requires
        forall|k: int| 0 <= k < c.len() ==> f(#[trigger] c[k]),
    ensures
        c.filter(f) == c,
    decreases c.len(),
{
    reveal_with_fuel(Seq::filter, 1);
    if c.len() > 0 {
        let d = c.drop_last();
        assert forall|k: int| 0 <= k < d.len() implies f(#[trigger] d[k]) by {
            assert(d[k] == c[k]);
        }
        lemma_filter_all(d, f);
        assert(f(c[c.len() - 1]));
        assert(d.push(c.last()) =~= c);
    }
}

/// Closing a connection just opened, under an identifier that none of the
/// user's other connections has, leaves the user's connections as they
/// were.
pub proof fn law_close_undoes_open(links: Seq<CollaborationConnection>, c: CollaborationConnection)
    requires
        forall|k: int| 0 <= k < links.len() ==> (#[trigger] links[k]).connection_id@ != c.connection_id@,
    ensures
        without_connection(links.push(c), c.connection_id@) == links,
{
    let f = |x: CollaborationConnection| x.connection_id@ != c.connection_id@;
    reveal_with_fuel(Seq::filter, 1);
    assert(links.push(c).drop_last() =~= links);
    assert(links.push(c).last() == c);
    lemma_filter_all(links, f);
}

/// Trims `list` to the connections active later than `cutoff` and tells
/// whether any is left.
fn keep_recent(list: &mut Vec<CollaborationConnection>, cutoff: Timestamp) -> (r: bool)
    ensures
        final(list)@ == recent_connections(old(list)@, cutoff),
        r == (final(list)@.len() > 0),
{
    let ghost f = |x: CollaborationConnection| ts_later(x.last_activity, cutoff);
    let mut all: Vec<CollaborationConnection> = Vec::new();
    std::mem::swap(&mut all, list);
    let ghost c = all@;
    let mut kept: Vec<CollaborationConnection> = Vec::new();
    assert(c.subrange(0, 0) =~= Seq::<CollaborationConnection>::empty());
    proof {
        lemma_filter_empty(f);
    }
    let n = all.len();
    let mut i: usize = 0;
    while all.len() > 0
        invariant
            i + all@.len() == n,
            n == c.len(),
            all@ == c.subrange(i as int, n as int),
            kept@ == c.subrange(0, i as int).filter(f),
            f == (|x: CollaborationConnection| ts_later(x.last_activity, cutoff)),
        decreases all.len(),
    {
        let x = all.remove(0);
        proof {
            assert(x == c[i as int]);
            lemma_filter_step(c, i as int, f);
        }
        if x.last_activity.later_than(&cutoff) {
            kept.push(x);
        }
        i = i + 1;
        proof {
            assert(all@ =~= c.subrange(i as int, n as int));
        }
    }
    assert(c.subrange(0, n as int) =~= c);
    *list = kept;
    list.len() > 0
}

/// The connections of `list` other than the one with identifier `id`.
fn without_id(list: Vec<CollaborationConnection>, id: &str) -> (r: Vec<CollaborationConnection>)
    ensures
        r@ == without_connection(list@, id@),
{
    let ghost f = |x: CollaborationConnection| x.connection_id@ != id@;
    let ghost c = list@;
    let mut all = list;
    let mut kept: Vec<CollaborationConnection> = Vec::new();
    assert(c.subrange(0, 0) =~= Seq::<CollaborationConnection>::empty());
    proof {
        lemma_filter_empty(f);
    }
    let n = all.len();
    let mut i: usize = 0;
    while all.len() > 0
        invariant
            i + all@.len() == n,
            n == c.len(),
            all@ == c.subrange(i as int, n as int),
            kept@ == c.subrange(0, i as int).filter(f),
            f == (|x: CollaborationConnection| x.connection_id@ != id@),
        decreases all.len(),
    {
        let x = all.remove(0);
        proof {
            assert(x == c[i as int]);
            lemma_filter_step(c, i as int, f);
        }
        if !str_eq(x.connection_id.as_str(), id) {
            kept.push(x);
        }
        i = i + 1;
        proof {
            assert(all@ =~= c.subrange(i as int, n as int));
        }
    }
    assert(c.subrange(0, n as int) =~= c);
    kept
}

impl CollaborationState {
    /// Records an open connection, and makes its user a participant of its
    /// session, as a mentee named `User <id>` who joined at `now`.
    pub fn add_connection(&mut self, connection: CollaborationConnection, now: Timestamp)
        ensures
            linked(*final(self), connection.user_id) == linked(*old(self), connection.user_id).push(connection),
            forall|u: u128| u != connection.user_id ==> #[trigger] linked(*final(self), u) == linked(*old(self), u),
            match running(*old(self), connection.session_id) {
                Some(c) => running(*final(self), connection.session_id) matches Some(d)
                    && joined(c, d, connection.user_id, "User "@ + uuid_text(connection.user_id), ParticipantRole::Mentee, now),
                None => running(*final(self), connection.session_id) is None,
            },
            forall|id: u128| id != connection.session_id ==> #[trigger] running(*final(self), id) == running(*old(self), id),
    {
        let u = connection.user_id;
        let sid = connection.session_id;
        let ghost added = connection;
        let mut list = match connections_remove(&mut self.connections, u) {
            Some(v) => v,
            None => Vec::new(),
        };
        list.push(connection);
        connections_insert(&mut self.connections, u, list);
        let ghost mid = *self;
        assert(linked(mid, u) == linked(*old(self), u).push(added));
        assert forall|w: u128| w != u implies #[trigger] linked(mid, w) == linked(*old(self), w) by {}
        let name = placeholder_username(u);
        self.add_participant(sid, u, name.as_str(), ParticipantRole::Mentee, now);
        assert forall|w: u128| #[trigger] linked(*self, w) == linked(mid, w) by {}
    }

    /// Closes the connection `connection_id` of `user_id`. When it was the
    /// user's last one, the user leaves every running session taken part
    /// in, at `now`; the answer lists those sessions, each with the user's
    /// name there and whether the user was sharing the screen.
    pub fn remove_connection(&mut self, user_id: u128, connection_id: &str, now: Timestamp) -> (r: Vec<(u128, String, bool)>)
        ensures
            linked(*final(self), user_id) == without_connection(linked(*old(self), user_id), connection_id@),
            forall|u: u128| u != user_id ==> #[trigger] linked(*final(self), u) == linked(*old(self), u),
            if connections_held(old(self).connections).contains_key(user_id)
                && without_connection(linked(*old(self), user_id), connection_id@).len() == 0 {
                &&& forall|id: u128| #[trigger] after_leaving(running(*old(self), id), running(*final(self), id), user_id, now)
                &&& forall|i: int| 0 <= i < r@.len() ==> participates(*old(self), (#[trigger] r@[i]).0, user_id)
                    && (running(*old(self), r@[i].0) matches Some(c)
                        && r@[i].1@ == c.participants@[user_id].username@
                        && r@[i].2 == (c.active_screen_share == Some(user_id)))
                &&& forall|id: u128| #[trigger] participates(*old(self), id, user_id) ==> exists|i: int| 0 <= i < r@.len() && (#[trigger] r@[i]).0 == id
                &&& forall|i: int, j: int| 0 <= i < j < r@.len() ==> (#[trigger] r@[i]).0 != (#[trigger] r@[j]).0
            } else {
                &&& forall|id: u128| #[trigger] running(*final(self), id) == running(*old(self), id)
                &&& r@.len() == 0
            },
    {
        match connections_remove(&mut self.connections, user_id) {
            None => {
                proof {
                    assert(connections_held(self.connections) =~= connections_held(old(self).connections));
                    lemma_filter_empty(|x: CollaborationConnection| x.connection_id@ != connection_id@);
                }
                Vec::new()
            },
            Some(list) => {
                let kept = without_id(list, connection_id);
                if kept.len() > 0 {
                    connections_insert(&mut self.connections, user_id, kept);
                    Vec::new()
                } else {
                    let ghost mid = *self;
                    assert(linked(mid, user_id) == Seq::<CollaborationConnection>::empty());
                    assert(mid.active_sessions == old(self).active_sessions);
                    let r = self.leave_all_sessions(user_id, now);
                    proof {
                        assert forall|w: u128| #[trigger] linked(*self, w) == linked(mid, w) by {}
                        assert forall|id: u128| #[trigger] after_leaving(running(*old(self), id), running(*self, id), user_id, now) by {
                            assert(running(mid, id) == running(*old(self), id));
                            assert(after_leaving(running(mid, id), running(*self, id), user_id, now));
                        }
                        assert forall|id: u128| #[trigger] participates(*old(self), id, user_id)
                            implies exists|i: int| 0 <= i < r@.len() && (#[trigger] r@[i]).0 == id by {
                            assert(running(mid, id) == running(*old(self), id));
                            assert(participates(mid, id, user_id));
                        }
                    }
                    r
                }
            },
        }
    }

    /// Takes `user_id` out of every running session taken part in.
    fn leave_all_sessions(&mut self, user_id: u128, now: Timestamp) -> (r: Vec<(u128, String, bool)>)
        ensures
            links_kept(*old(self), *final(self)),
            forall|id: u128| #[trigger] after_leaving(running(*old(self), id), running(*final(self), id), user_id, now),
            forall|i: int| 0 <= i < r@.len() ==> participates(*old(self), (#[trigger] r@[i]).0, user_id)
                && (running(*old(self), r@[i].0) matches Some(c)
                    && r@[i].1@ == c.participants@[user_id].username@
                    && r@[i].2 == (c.active_screen_share == Some(user_id))),
            forall|id: u128| #[trigger] participates(*old(self), id, user_id) ==> exists|i: int| 0 <= i < r@.len() && (#[trigger] r@[i]).0 == id,
            forall|i: int, j: int| 0 <= i < j < r@.len() ==> (#[trigger] r@[i]).0 != (#[trigger] r@[j]).0,
    {
        let ids = sessions_ids(&self.active_sessions);
        let ghost pre = *self;
        let mut out: Vec<(u128, String, bool)> = Vec::new();
        let mut i: usize = 0;
        while i < ids.len()
            invariant
                i <= ids@.len(),
                pre == *old(self),
                links_kept(pre, *self),
                forall|k: int| 0 <= k < ids@.len() ==> #[trigger] running(pre, ids@[k]) is Some,
                forall|id: u128| #[trigger] running(pre, id) is Some ==> ids@.contains(id),
                forall|a: int, b: int| 0 <= a < b < ids@.len() ==> #[trigger] ids@[a] != #[trigger] ids@[b],
                forall|k: int| 0 <= k < i ==> #[trigger] after_leaving(running(pre, ids@[k]), running(*self, ids@[k]), user_id, now),
                forall|id: u128| !ids@.subrange(0, i as int).contains(id) ==> #[trigger] running(*self, id) == running(pre, id),
                forall|j: int| 0 <= j < out@.len() ==> participates(pre, (#[trigger] out@[j]).0, user_id)
                    && ids@.subrange(0, i as int).contains(out@[j].0)
                    && (running(pre, out@[j].0) matches Some(c)
                        && out@[j].1@ == c.participants@[user_id].username@
                        && out@[j].2 == (c.active_screen_share == Some(user_id))),
                forall|k: int| 0 <= k < i && participates(pre, #[trigger] ids@[k], user_id) ==> exists|j: int| 0 <= j < out@.len() && (#[trigger] out@[j]).0 == ids@[k],
                forall|a: int, b: int| 0 <= a < b < out@.len() ==> (#[trigger] out@[a]).0 != (#[trigger] out@[b]).0,
            decreases ids.len() - i,
        {
            let id = ids[i];
            proof {
                assert(!ids@.subrange(0, i as int).contains(id)) by {
                    if ids@.subrange(0, i as int).contains(id) {
                        let k = choose|k: int| 0 <= k < i && ids@.subrange(0, i as int)[k] == id;
                        assert(ids@[k] == ids@.subrange(0, i as int)[k]);
                    }
                }
                assert(running(*self, id) == running(pre, id));
            }
            let ghost before = *self;
            let ghost out_before = out@;
            match self.remove_participant(id, user_id, now) {
                Ok((name, sharing)) => {
                    out.push((id, name, sharing));
                },
                Err(_) => {},
            }
            proof {
                assert(ids@.subrange(0, i + 1) =~= ids@.subrange(0, i as int).push(id));
                assert forall|w: u128| !ids@.subrange(0, i + 1).contains(w) implies #[trigger] running(*self, w) == running(pre, w) by {
                    assert(ids@.subrange(0, i + 1)[i as int] == id);
                    if ids@.subrange(0, i as int).contains(w) {
                        let k = choose|k: int| 0 <= k < i && ids@.subrange(0, i as int)[k] == w;
                        assert(ids@.subrange(0, i + 1)[k] == w);
                    }
                    assert(w != id);
                    assert(running(before, w) == running(pre, w));
                }
                assert forall|k: int| 0 <= k < i + 1 implies #[trigger] after_leaving(running(pre, ids@[k]), running(*self, ids@[k]), user_id, now) by {
                    if k < i {
                        assert(ids@[k] != id);
                        assert(after_leaving(running(pre, ids@[k]), running(before, ids@[k]), user_id, now));
                    }
                }
                assert forall|j: int| 0 <= j < out@.len() implies participates(pre, (#[trigger] out@[j]).0, user_id)
                    && ids@.subrange(0, i + 1).contains(out@[j].0)
                    && (running(pre, out@[j].0) matches Some(c)
                        && out@[j].1@ == c.participants@[user_id].username@
                        && out@[j].2 == (c.active_screen_share == Some(user_id))) by {
                    if j < out_before.len() {
                        assert(out@[j] == out_before[j]);
                        let k = choose|k: int| 0 <= k < i && ids@.subrange(0, i as int)[k] == out_before[j].0;
                        assert(ids@.subrange(0, i + 1)[k] == out_before[j].0);
                    } else {
                        assert(ids@.subrange(0, i + 1)[i as int] == id);
                    }
                }
                assert forall|k: int| 0 <= k < i + 1 && participates(pre, #[trigger] ids@[k], user_id) implies exists|j: int| 0 <= j < out@.len() && (#[trigger] out@[j]).0 == ids@[k] by {
                    if k < i {
                        let j = choose|j: int| 0 <= j < out_before.len() && (#[trigger] out_before[j]).0 == ids@[k];
                        assert(out@[j] == out_before[j]);
                    } else {
                        assert(out@[out@.len() - 1].0 == id);
                    }
                }
                assert forall|a: int, b: int| 0 <= a < b < out@.len() implies (#[trigger] out@[a]).0 != (#[trigger] out@[b]).0 by {
                    if b == out_before.len() && out@.len() > out_before.len() {
                        assert(out@[a] == out_before[a]);
                        let k = choose|k: int| 0 <= k < i && ids@.subrange(0, i as int)[k] == out_before[a].0;
                        assert(ids@[k] == out_before[a].0);
                    } else {
                        assert(out@[a] == out_before[a]);
                        assert(out@[b] == out_before[b]);
                    }
                }
            }
            i = i + 1;
        }
        proof {
            assert(ids@.subrange(0, ids@.len() as int) =~= ids@);
            assert forall|id: u128| #[trigger] after_leaving(running(pre, id), running(*self, id), user_id, now) by {
                if ids@.contains(id) {
                    let k = choose|k: int| 0 <= k < ids@.len() && ids@[k] == id;
                    assert(after_leaving(running(pre, ids@[k]), running(*self, ids@[k]), user_id, now));
                } else {
                    assert(running(pre, id) is None);
                    assert(!ids@.subrange(0, ids@.len() as int).contains(id));
                }
            }
            assert forall|id: u128| #[trigger] participates(pre, id, user_id) implies exists|j: int| 0 <= j < out@.len() && (#[trigger] out@[j]).0 == id by {
                assert(ids@.contains(id));
                let k = choose|k: int| 0 <= k < ids@.len() && ids@[k] == id;
                assert(participates(pre, ids@[k], user_id));
            }
        }
        out
    }

    /// The handles of the connections, to the running session `session_id`,
    /// of its participants other than `exclude`: where a broadcast to the
    /// session goes.
    pub fn session_senders(&self, session_id: u128, exclude: Option<u128>) -> (r: Vec<u64>)
        ensures
            forall|h: u64| #[trigger] r@.contains(h) <==> reaches(*self, session_id, exclude, h),
    {
        let users = self.recipients(session_id, exclude);
        let mut out: Vec<u64> = Vec::new();
        let mut i: usize = 0;
        while i < users.len()
            invariant
                i <= users@.len(),
                match running(*self, session_id) {
                    Some(c) => forall|u: u128| #[trigger] users@.contains(u) <==> (c.participants@.contains_key(u) && Some(u) != exclude),
                    None => users@.len() == 0,
                },
                forall|h: u64| #[trigger] out@.contains(h)
                    <==> exists|k: int| 0 <= k < i && #[trigger] hits(linked(*self, users@[k]), session_id, h),
            decreases users.len() - i,
        {
            let u = users[i];
            let ghost out_before = out@;
            match connections_get(&self.connections, u) {
                Some(list) => {
                    let ghost stored = linked(*self, u);
                    let mut j: usize = 0;
                    while j < list.len()
                        invariant
                            j <= list@.len(),
                            list@.len() == stored.len(),
                            forall|q: int| 0 <= q < list@.len() ==> same_connection(#[trigger] list@[q], stored[q]),
                            forall|h: u64| #[trigger] out@.contains(h)
                                <==> (out_before.contains(h) || hits(stored.subrange(0, j as int), session_id, h)),
                        decreases list.len() - j,
                    {
                        let ghost out_mid = out@;
                        if list[j].session_id == session_id {
                            out.push(list[j].handle);
                        }
                        proof {
                            assert(same_connection(list@[j as int], stored[j as int]));
                            assert forall|h: u64| #[trigger] out@.contains(h)
                                <==> (out_before.contains(h) || hits(stored.subrange(0, j + 1), session_id, h)) by {
                                if hits(stored.subrange(0, j as int), session_id, h) {
                                    let k = choose|k: int| 0 <= k < j && (#[trigger] stored.subrange(0, j as int)[k]).session_id == session_id
                                        && stored.subrange(0, j as int)[k].handle == h;
                                    assert(stored.subrange(0, j + 1)[k] == stored.subrange(0, j as int)[k]);
                                }
                                if hits(stored.subrange(0, j + 1), session_id, h) {
                                    let k = choose|k: int| 0 <= k < j + 1 && (#[trigger] stored.subrange(0, j + 1)[k]).session_id == session_id
                                        && stored.subrange(0, j + 1)[k].handle == h;
                                    if k < j {
                                        assert(stored.subrange(0, j as int)[k] == stored.subrange(0, j + 1)[k]);
                                    } else {
                                        assert(stored.subrange(0, j + 1)[k] == stored[j as int]);
                                    }
                                }
                                if out@.contains(h) && !out_mid.contains(h) {
                                    assert(out@[out@.len() - 1] == h);
                                    assert(stored.subrange(0, j + 1)[j as int] == stored[j as int]);
                                }
                                if out_mid.contains(h) {
                                    let q = choose|q: int| 0 <= q < out_mid.len() && out_mid[q] == h;
                                    assert(out@[q] == h);
                                }
                                if stored[j as int].session_id == session_id && stored[j as int].handle == h {
                                    assert(out@[out@.len() - 1] == h);
                                }
                            }
                        }
                        j = j + 1;
                    }
                    proof {
                        assert(stored.subrange(0, stored.len() as int) =~= stored);
                    }
                },
                None => {},
            }
            proof {
                assert forall|h: u64| #[trigger] out@.contains(h)
                    <==> exists|k: int| 0 <= k < i + 1 && #[trigger] hits(linked(*self, users@[k]), session_id, h) by {
                    if exists|k: int| 0 <= k < i + 1 && #[trigger] hits(linked(*self, users@[k]), session_id, h) {
                        let k = choose|k: int| 0 <= k < i + 1 && #[trigger] hits(linked(*self, users@[k]), session_id, h);
                        if k < i {
                            assert(out_before.contains(h));
                        } else {
                            assert(hits(linked(*self, u), session_id, h));
                            if !connections_held(self.connections).contains_key(u) {
                                let q = choose|q: int| 0 <= q < linked(*self, u).len() && (#[trigger] linked(*self, u)[q]).session_id == session_id
                                    && linked(*self, u)[q].handle == h;
                                assert(false);
                            }
                        }
                    }
                    if out@.contains(h) && !out_before.contains(h) {
                        assert(hits(linked(*self, users@[i as int]), session_id, h));
                    }
                }
            }
            i = i + 1;
        }
        proof {
            assert forall|h: u64| #[trigger] out@.contains(h) <==> reaches(*self, session_id, exclude, h) by {
                if out@.contains(h) {
                    let k = choose|k: int| 0 <= k < users@.len() && #[trigger] hits(linked(*self, users@[k]), session_id, h);
                    assert(users@.contains(users@[k]));
                }
                if reaches(*self, session_id, exclude, h) {
                    let c = running(*self, session_id)->0;
                    let u = choose|u: u128| #[trigger] c.participants@.contains_key(u) && Some(u) != exclude && hits(linked(*self, u), session_id, h);
                    assert(users@.contains(u));
                    let k = choose|k: int| 0 <= k < users@.len() && users@[k] == u;
                    assert(hits(linked(*self, users@[k]), session_id, h));
                }
            }
        }
        out
    }

    /// Drops the sessions without activity in the hour before `now`, and
    /// the connections idle as long; a user left without one loses the
    /// entry.
    pub fn drop_inactive(&mut self, now: Timestamp)
        requires
            ts_valid(now),
            now.secs - 3600 >= MIN_SECS,
        ensures
            forall|id: u128| #[trigger] running(*final(self), id) == match running(*old(self), id) {
                Some(c) => if ts_later(c.last_activity, ts_plus(now, -3600)) { Some(c) } else { None },
                None => None,
            },
            forall|u: u128| #[trigger] linked(*final(self), u) == recent_connections(linked(*old(self), u), ts_plus(now, -3600)),
    {
        let cutoff = now.plus_seconds(-3600);
        sessions_retain_after(&mut self.active_sessions, cutoff);
        connections_retain_recent(&mut self.connections, cutoff);
        proof {
            assert forall|u: u128| #[trigger] linked(*self, u) == recent_connections(linked(*old(self), u), cutoff) by {
                if !connections_held(old(self).connections).contains_key(u) {
                    lemma_filter_empty(|x: CollaborationConnection| ts_later(x.last_activity, cutoff));
                } else if recent_connections(linked(*old(self), u), cutoff).len() == 0 {
                    assert(recent_connections(linked(*old(self), u), cutoff) =~= Seq::<CollaborationConnection>::empty());
                }
            }
        }
    }
}

} // verus!
