//! The chat service's live state: each user's open connections, the rooms
//! and their participants, who is typing where, and when users were last
//! active, held in the service's concurrent maps. A connection is known
//! here by a handle number; the service keeps what it sends on.
use vstd::prelude::*;
use crate::chat::maps::{
    HandleMap, InfoMap, RoomMap, PresenceMap, TypingMap, handles_held, infos_held, rooms_held, presence_held,
    typing_held, handles_new, handles_get, handles_insert, handles_entries, infos_new, infos_insert, infos_remove,
    infos_entries, rooms_new, rooms_get, rooms_insert, rooms_remove, presence_new, presence_insert, typing_new,
    typing_get, typing_insert, typing_keys,
};
use crate::chat::models::{ChatRoomType, WsMessage, session_room, group_room, session_room_id, group_room_id};
use crate::text::{own, uuid_parsed, parse_uuid};

verus! {

#[derive(Clone)]
pub struct ChatRoom {
    pub room_id: String,
    pub room_type: ChatRoomType,
    pub participants: Vec<u128>,
}

#[derive(Clone)]
pub struct ConnectionInfo {
    pub user_id: u128,
    pub username: String,
    pub session_id: Option<u128>,
    pub group_ids: Vec<u128>,
    pub connected_at: i64,
    pub last_activity: i64,
}

/// A message to send to each of `recipients`.
pub struct Broadcast {
    pub recipients: Vec<u128>,
    pub message: WsMessage,
}

pub struct ConnectionManager {
    /// Each user's connection handles.
    pub connections: HandleMap,
    /// Each connection's user and activity, by connection id.
    pub connection_info: InfoMap,
    /// The rooms, by room id.
    pub chat_rooms: RoomMap,
    /// When each user was last active.
    pub user_presence: PresenceMap,
    /// Who is typing in each room.
    pub typing_indicators: TypingMap,
}

/// `s` without the occurrences of `x`.
pub open spec fn without(s: Seq<u128>, x: u128) -> Seq<u128> {
    s.filter(|y: u128| y != x)
}

/// Removing a user that a list does not hold keeps the list.
proof fn lemma_without_absent(s: Seq<u128>, x: u128)
    requires
        !s.contains(x),
    ensures
        without(s, x) == s,
    decreases s.len(),
{
    reveal_with_fuel(Seq::filter, 1);
    if s.len() > 0 {
        assert(s.drop_last().push(s.last()) =~= s);
        assert(!s.drop_last().contains(x)) by {
            if s.drop_last().contains(x) {
                let k = choose|k: int| 0 <= k < s.drop_last().len() && s.drop_last()[k] == x;
                assert(s[k] == x);
            }
        }
        assert(s[s.len() - 1] != x);
        lemma_without_absent(s.drop_last(), x);
    }
}

/// A user who joins a room (appended to its participants) and then leaves
/// it (removed from them) leaves the participants as they were; in the same
/// way, a user who starts and then stops typing in a room leaves its typing
/// list as it was.
pub proof fn law_leave_undoes_join(participants: Seq<u128>, user: u128)
    requires
        !participants.contains(user),
    ensures
        participants.push(user).contains(user),
        without(participants.push(user), user) == participants,
{
    let s = participants.push(user);
    assert(s[participants.len() as int] == user);
    reveal_with_fuel(Seq::filter, 1);
    assert(s.drop_last() =~= participants);
    lemma_without_absent(participants, user);
}

/// Once a user leaves a room, the room no longer lists the user.
pub proof fn law_left_user_gone(participants: Seq<u128>, user: u128)
    ensures
        !without(participants, user).contains(user),
{
    if without(participants, user).contains(user) {
        let k = choose|k: int| 0 <= k < without(participants, user).len() && without(participants, user)[k] == user;
        participants.filter_lemma(|y: u128| y != user);
        assert(without(participants, user)[k] != user);
    }
}

/// Whether `v` holds `x`.
pub fn contains_id(v: &Vec<u128>, x: u128) -> (b: bool)
    ensures
        b == v@.contains(x),
{
    let mut i: usize = 0;
    while i < v.len()
        invariant
            i <= v@.len(),
            forall|k: int| 0 <= k < i ==> v@[k] != x,
        decreases v.len() - i,
    {
        if v[i] == x {
            assert(v@[i as int] == x);
            return true;
        }
        i = i + 1;
    }
    false
}

/// A copy of `v`.
pub fn copy_ids(v: &Vec<u128>) -> (r: Vec<u128>)
    ensures
        r@ == v@,
{
    let mut r: Vec<u128> = Vec::new();
    let mut i: usize = 0;
    while i < v.len()
        invariant
            i <= v@.len(),
            r@ == v@.subrange(0, i as int),
        decreases v.len() - i,
    {
        r.push(v[i]);
        i = i + 1;
        assert(r@ =~= v@.subrange(0, i as int));
    }
    assert(v@.subrange(0, v@.len() as int) =~= v@);
    r
}

/// The elements of `v` other than `x`, in order.
pub fn without_id(v: &Vec<u128>, x: u128) -> (r: Vec<u128>)
    ensures
        r@ == without(v@, x),
{
    let mut r: Vec<u128> = Vec::new();
    let mut i: usize = 0;
    assert(v@.subrange(0, 0) =~= Seq::<u128>::empty());
    while i < v.len()
        invariant
            i <= v@.len(),
            r@ == without(v@.subrange(0, i as int), x),
        decreases v.len() - i,
    {
        let ghost s1 = v@.subrange(0, i + 1);
        assert(s1.drop_last() =~= v@.subrange(0, i as int));
        assert(s1.last() == v@[i as int]);
        proof {
            reveal_with_fuel(Seq::filter, 2);
        }
        assert(without(s1, x) == if v@[i as int] != x {
            without(v@.subrange(0, i as int), x).push(v@[i as int])
        } else {
            without(v@.subrange(0, i as int), x)
        });
        if v[i] != x {
            r.push(v[i]);
        }
        i = i + 1;
    }
    assert(v@.subrange(0, v@.len() as int) =~= v@);
    r
}

/// The participants of a room (none for a room that does not exist).
pub open spec fn members(m: ConnectionManager, room: Seq<char>) -> Seq<u128> {
    if rooms_held(m.chat_rooms).contains_key(room) { rooms_held(m.chat_rooms)[room].participants@ } else { Seq::empty() }
}

/// The users a chat message from `sender` goes to (see
/// `ConnectionManager::message_recipients`).
pub open spec fn message_audience(m: ConnectionManager, sender: u128, recipient_id: Option<u128>, session_id: Option<u128>, group_id: Option<u128>) -> Seq<u128> {
    match (recipient_id, session_id, group_id) {
        (Some(to), _, _) => seq![to],
        (None, Some(sid), _) => without(members(m, session_room(sid)), sender),
        (None, None, Some(gid)) => without(members(m, group_room(gid)), sender),
        (None, None, None) => Seq::empty(),
    }
}

/// The users typing in a room.
pub open spec fn typing(m: ConnectionManager, room: Seq<char>) -> Seq<u128> {
    if typing_held(m.typing_indicators).contains_key(room) { typing_held(m.typing_indicators)[room] } else { Seq::empty() }
}

/// A user's connection handles.
pub open spec fn handles(m: ConnectionManager, user: u128) -> Seq<u64> {
    if handles_held(m.connections).contains_key(user) { handles_held(m.connections)[user] } else { Seq::empty() }
}

/// The number of a user's connection handles.
pub open spec fn connection_count(m: ConnectionManager, user: u128) -> nat {
    handles(m, user).len()
}

/// `r` lists, once each, the users with a connection other than `except`.
pub open spec fn lists_online(m: ConnectionManager, r: Seq<u128>, except: Option<u128>) -> bool {
    &&& r.no_duplicates()
    &&& forall|u: u128| #[trigger] r.contains(u) <==> (connection_count(m, u) > 0 && except != Some(u))
}

/// Two rooms agree field by field, texts and lists by their contents.
pub open spec fn same_room(a: ChatRoom, b: ChatRoom) -> bool {
    a.room_id@ == b.room_id@ && a.room_type == b.room_type && a.participants@ == b.participants@
}

/// Two connection records agree field by field, texts and lists by their
/// contents.
pub open spec fn same_info(a: ConnectionInfo, b: ConnectionInfo) -> bool {
    &&& a.user_id == b.user_id
    &&& a.username@ == b.username@
    &&& a.session_id == b.session_id
    &&& a.group_ids@ == b.group_ids@
    &&& a.connected_at == b.connected_at
    &&& a.last_activity == b.last_activity
}

/// `b` is `a` with the group lists of `user`'s connections updated for
/// the room whose identifier is `room` (when the room id is one): the
/// identifier added once on joining, removed on leaving.
pub open spec fn regrouped(a: ConnectionInfo, b: ConnectionInfo, user: u128, room: Option<u128>, joined: bool) -> bool {
    &&& b.user_id == a.user_id
    &&& b.username@ == a.username@
    &&& b.session_id == a.session_id
    &&& b.connected_at == a.connected_at
    &&& b.last_activity == a.last_activity
    &&& b.group_ids@ == match room {
        Some(g) => if a.user_id != user {
            a.group_ids@
        } else if joined {
            if a.group_ids@.contains(g) { a.group_ids@ } else { a.group_ids@.push(g) }
        } else {
            without(a.group_ids@, g)
        },
        None => a.group_ids@,
    }
}

/// Every connection's details, updated by `regrouped`.
pub open spec fn all_regrouped(a: Map<Seq<char>, ConnectionInfo>, b: Map<Seq<char>, ConnectionInfo>, user: u128, room: Option<u128>, joined: bool) -> bool {
    &&& b.dom() == a.dom()
    &&& forall|k: Seq<char>| #[trigger] a.contains_key(k) ==> regrouped(a[k], b[k], user, room, joined)
}

/// `b` is `a`, last active at `now` when it is a connection of `user`.
pub open spec fn touched(a: ConnectionInfo, b: ConnectionInfo, user: u128, now: i64) -> bool {
    &&& b.user_id == a.user_id
    &&& b.username@ == a.username@
    &&& b.session_id == a.session_id
    &&& b.group_ids@ == a.group_ids@
    &&& b.connected_at == a.connected_at
    &&& b.last_activity == if a.user_id == user { now } else { a.last_activity }
}

/// Every connection of `user` was last active at `now`; the others are as
/// they were.
pub open spec fn all_touched(a: Map<Seq<char>, ConnectionInfo>, b: Map<Seq<char>, ConnectionInfo>, user: u128, now: i64) -> bool {
    &&& b.dom() == a.dom()
    &&& forall|k: Seq<char>| #[trigger] a.contains_key(k) ==> touched(a[k], b[k], user, now)
}

/// The keys of the entries whose list of handles is not empty, in order.
pub open spec fn busy_keys(e: Seq<(u128, Vec<u64>)>) -> Seq<u128>
    decreases e.len(),
{
    if e.len() == 0 {
        Seq::empty()
    } else if e.last().1@.len() > 0 {
        busy_keys(e.drop_last()).push(e.last().0)
    } else {
        busy_keys(e.drop_last())
    }
}

proof fn lemma_busy_keys(e: Seq<(u128, Vec<u64>)>)
    requires
        (forall|i: int, j: int| 0 <= i < j < e.len() ==> (#[trigger] e[i]).0 != (#[trigger] e[j]).0),
    ensures
        busy_keys(e).no_duplicates(),
        forall|u: u128| #[trigger] busy_keys(e).contains(u)
            <==> exists|i: int| 0 <= i < e.len() && (#[trigger] e[i]).0 == u && e[i].1@.len() > 0,
    decreases e.len(),
{
    if e.len() > 0 {
        let d = e.drop_last();
        assert forall|i: int, j: int| 0 <= i < j < d.len() implies (#[trigger] d[i]).0 != (#[trigger] d[j]).0 by {
            assert(d[i] == e[i] && d[j] == e[j]);
        }
        lemma_busy_keys(d);
        let r = busy_keys(d);
        let n = e.len() - 1;
        assert forall|u: u128| #[trigger] busy_keys(e).contains(u)
            <==> exists|i: int| 0 <= i < e.len() && (#[trigger] e[i]).0 == u && e[i].1@.len() > 0 by {
            if busy_keys(e).contains(u) {
                let k = choose|k: int| 0 <= k < busy_keys(e).len() && busy_keys(e)[k] == u;
                if e.last().1@.len() > 0 && k == r.len() {
                    assert(e[n].0 == u);
                } else {
                    assert(r[k] == u);
                    assert(r.contains(u));
                    let i = choose|i: int| 0 <= i < d.len() && (#[trigger] d[i]).0 == u && d[i].1@.len() > 0;
                    assert(e[i] == d[i]);
                }
            }
            if exists|i: int| 0 <= i < e.len() && (#[trigger] e[i]).0 == u && e[i].1@.len() > 0 {
                let i = choose|i: int| 0 <= i < e.len() && (#[trigger] e[i]).0 == u && e[i].1@.len() > 0;
                if i == n {
                    assert(busy_keys(e)[r.len() as int] == u);
                } else {
                    assert(d[i] == e[i]);
                    assert(r.contains(u));
                    let k = choose|k: int| 0 <= k < r.len() && r[k] == u;
                    assert(busy_keys(e)[k] == u);
                }
            }
        }
        if e.last().1@.len() > 0 {
            assert(!r.contains(e.last().0)) by {
                if r.contains(e.last().0) {
                    let i = choose|i: int| 0 <= i < d.len() && (#[trigger] d[i]).0 == e.last().0 && d[i].1@.len() > 0;
                    assert(e[i] == d[i]);
                    assert(e[i].0 != e[n].0);
                }
            }
            let b = busy_keys(e);
            assert forall|i: int, j: int| (0 <= i < b.len() && 0 <= j < b.len() && i != j) implies b[i] != b[j] by {
                if i < r.len() && j < r.len() {
                    assert(b[i] == r[i] && b[j] == r[j]);
                } else if i < r.len() {
                    assert(b[i] == r[i]);
                    assert(r.contains(b[i]));
                } else {
                    assert(b[j] == r[j]);
                    assert(r.contains(b[j]));
                }
            }
        }
    }
}

/// `without` keeps the other elements, and no element twice.
proof fn lemma_without_props(s: Seq<u128>, x: u128)
    ensures
        forall|u: u128| #[trigger] without(s, x).contains(u) <==> (s.contains(u) && u != x),
        s.no_duplicates() ==> without(s, x).no_duplicates(),
    decreases s.len(),
{
    reveal_with_fuel(Seq::filter, 1);
    if s.len() > 0 {
        let d = s.drop_last();
        lemma_without_props(d, x);
        let w = without(d, x);
        assert(without(s, x) == (if s.last() != x { w.push(s.last()) } else { w }));
        assert forall|u: u128| #[trigger] without(s, x).contains(u) <==> (s.contains(u) && u != x) by {
            if without(s, x).contains(u) {
                let k = choose|k: int| 0 <= k < without(s, x).len() && without(s, x)[k] == u;
                if s.last() != x && k == w.len() {
                    assert(s[s.len() - 1] == u);
                } else {
                    assert(w[k] == u);
                    assert(w.contains(u));
                    let i = choose|i: int| 0 <= i < d.len() && d[i] == u;
                    assert(s[i] == u);
                }
            }
            if s.contains(u) && u != x {
                let i = choose|i: int| 0 <= i < s.len() && s[i] == u;
                if i == s.len() - 1 {
                    assert(without(s, x)[w.len() as int] == u);
                } else {
                    assert(d[i] == u);
                    assert(d.contains(u));
                    assert(w.contains(u));
                    let k = choose|k: int| 0 <= k < w.len() && w[k] == u;
                    assert(without(s, x)[k] == u);
                }
            }
        }
        if s.no_duplicates() {
            assert(d.no_duplicates()) by {
                assert forall|i: int, j: int| (0 <= i < d.len() && 0 <= j < d.len() && i != j) implies d[i] != d[j] by {
                    assert(d[i] == s[i] && d[j] == s[j]);
                }
            }
            if s.last() != x {
                assert(!w.contains(s.last())) by {
                    if w.contains(s.last()) {
                        let i = choose|i: int| 0 <= i < d.len() && d[i] == s.last();
                        assert(s[i] == d[i]);
                    }
                }
                let b = without(s, x);
                assert forall|i: int, j: int| (0 <= i < b.len() && 0 <= j < b.len() && i != j) implies b[i] != b[j] by {
                    if i < w.len() && j < w.len() {
                        assert(b[i] == w[i] && b[j] == w[j]);
                    } else if i < w.len() {
                        assert(b[i] == w[i]);
                        assert(w.contains(b[i]));
                    } else {
                        assert(b[j] == w[j]);
                        assert(w.contains(b[j]));
                    }
                }
            }
        }
    }
}

impl ConnectionManager {
    /// No connections, rooms or typing users.
    pub fn new() -> (m: Self)
        ensures
            forall|u: u128| #[trigger] connection_count(m, u) == 0,
            forall|r: Seq<char>| #[trigger] members(m, r) == Seq::<u128>::empty(),
            forall|r: Seq<char>| #[trigger] typing(m, r) == Seq::<u128>::empty(),
            infos_held(m.connection_info).dom() == Set::<Seq<char>>::empty(),
            presence_held(m.user_presence).dom() == Set::<u128>::empty(),
    {
        ConnectionManager {
            connections: handles_new(),
            connection_info: infos_new(),
            chat_rooms: rooms_new(),
            user_presence: presence_new(),
            typing_indicators: typing_new(),
        }
    }

    /// The number of a user's connections.
    pub fn get_user_connection_count(&self, user_id: u128) -> (n: usize)
        ensures
            n == connection_count(*self, user_id),
    {
        match handles_get(&self.connections, user_id) {
            Some(v) => v.len(),
            None => 0,
        }
    }

    /// A user's connection handles, to send on.
    pub fn senders(&self, user_id: u128) -> (r: Vec<u64>)
        ensures
            r@ == handles(*self, user_id),
    {
        match handles_get(&self.connections, user_id) {
            Some(v) => v,
            None => Vec::new(),
        }
    }

    /// The participants of a room.
    pub fn get_room_participants(&self, room_id: &str) -> (r: Vec<u128>)
        ensures
            r@ == members(*self, room_id@),
    {
        match rooms_get(&self.chat_rooms, room_id) {
            Some(room) => room.participants,
            None => Vec::new(),
        }
    }

    /// The participants of a room other than `exclude_user`, in order: the
    /// recipients of a message sent to the room.
    pub fn room_recipients(&self, room_id: &str, exclude_user: Option<u128>) -> (r: Vec<u128>)
        ensures
            r@ == match exclude_user {
                Some(x) => without(members(*self, room_id@), x),
                None => members(*self, room_id@),
            },
    {
        let all = self.get_room_participants(room_id);
        match exclude_user {
            Some(x) => without_id(&all, x),
            None => all,
        }
    }

    /// The users a chat message from `sender` goes to: the named recipient;
    /// else the participants of the session's room, or else of the group's
    /// room, other than the sender; nobody when the message names none.
    pub fn message_recipients(&self, sender: u128, recipient_id: Option<u128>, session_id: Option<u128>, group_id: Option<u128>) -> (r: Vec<u128>)
        ensures
            r@ == message_audience(*self, sender, recipient_id, session_id, group_id),
    {
        match (recipient_id, session_id, group_id) {
            (Some(to), _, _) => {
                let mut v: Vec<u128> = Vec::new();
                v.push(to);
                v
            },
            (None, Some(sid), _) => self.room_recipients(session_room_id(sid).as_str(), Some(sender)),
            (None, None, Some(gid)) => self.room_recipients(group_room_id(gid).as_str(), Some(sender)),
            (None, None, None) => Vec::new(),
        }
    }

    /// The users typing in a room.
    pub fn get_typing_users(&self, room_id: &str) -> (r: Vec<u128>)
        ensures
            r@ == typing(*self, room_id@),
    {
        match typing_get(&self.typing_indicators, room_id) {
            Some(t) => t,
            None => Vec::new(),
        }
    }

    /// The users with at least one connection, each once, in the order the
    /// map is walked.
    pub fn get_online_users(&self) -> (r: Vec<u128>)
        ensures
            lists_online(*self, r@, None),
    {
        let e = handles_entries(&self.connections);
        let ghost h = handles_held(self.connections);
        let mut r: Vec<u128> = Vec::new();
        let mut i: usize = 0;
        assert(e@.subrange(0, 0) =~= Seq::<(u128, Vec<u64>)>::empty());
        while i < e.len()
            invariant
                i <= e@.len(),
                r@ == busy_keys(e@.subrange(0, i as int)),
            decreases e.len() - i,
        {
            assert(e@.subrange(0, i + 1).drop_last() =~= e@.subrange(0, i as int));
            if e[i].1.len() > 0 {
                r.push(e[i].0);
            }
            i = i + 1;
        }
        proof {
            assert(e@.subrange(0, e@.len() as int) =~= e@);
            lemma_busy_keys(e@);
            assert forall|u: u128| #[trigger] r@.contains(u) <==> (connection_count(*self, u) > 0 && None::<u128> != Some(u)) by {
                if connection_count(*self, u) > 0 {
                    assert(h.contains_key(u));
                    let i = choose|i: int| 0 <= i < e@.len() && (#[trigger] e@[i]).0 == u;
                    assert(e@[i].1@ == h[u]);
                }
            }
        }
        r
    }

    /// Tells every other online user that `user_id` came online or went
    /// offline.
    pub fn status_broadcast(&self, user_id: u128, username: &str, is_online: bool) -> (b: Broadcast)
        ensures
            lists_online(*self, b.recipients@, Some(user_id)),
            is_online ==> (b.message matches WsMessage::UserJoined { user_id: u, username: n, session_id, group_id }
                && u == user_id && n@ == username@ && session_id is None && group_id is None),
            !is_online ==> (b.message matches WsMessage::UserLeft { user_id: u, username: n, session_id, group_id }
                && u == user_id && n@ == username@ && session_id is None && group_id is None),
    {
        let users = self.get_online_users();
        let message = if is_online {
            WsMessage::UserJoined { user_id, username: own(username), session_id: None, group_id: None }
        } else {
            WsMessage::UserLeft { user_id, username: own(username), session_id: None, group_id: None }
        };
        let recipients = without_id(&users, user_id);
        proof {
            lemma_without_props(users@, user_id);
        }
        Broadcast { recipients, message }
    }

    /// Adds `user_id` to a room, creating the room on first use; the
    /// connections of the user record the room's identifier when the room id
    /// is one.
    pub fn join_room(&mut self, user_id: u128, room_id: &str, room_type: ChatRoomType)
        ensures
            members(*final(self), room_id@) == if members(*old(self), room_id@).contains(user_id) {
                members(*old(self), room_id@)
            } else {
                members(*old(self), room_id@).push(user_id)
            },
            forall|r: Seq<char>| r != room_id@ ==> #[trigger] members(*final(self), r) == members(*old(self), r),
            forall|r: Seq<char>| #[trigger] typing(*final(self), r) == typing(*old(self), r),
            forall|u: u128| #[trigger] handles(*final(self), u) == handles(*old(self), u),
            all_regrouped(infos_held(old(self).connection_info), infos_held(final(self).connection_info), user_id, uuid_parsed(room_id@), true),
    {
        match rooms_get(&self.chat_rooms, room_id) {
            Some(room) => {
                let mut room = room;
                if !contains_id(&room.participants, user_id) {
                    room.participants.push(user_id);
                }
                rooms_insert(&mut self.chat_rooms, room_id, room);
            },
            None => {
                let mut participants: Vec<u128> = Vec::new();
                participants.push(user_id);
                assert(participants@ =~= Seq::<u128>::empty().push(user_id));
                rooms_insert(&mut self.chat_rooms, room_id, ChatRoom { room_id: own(room_id), room_type, participants });
            },
        }
        self.record_group(user_id, room_id, true);
    }

    /// Removes `user_id` from a room; a room left empty is dropped.
    pub fn leave_room(&mut self, user_id: u128, room_id: &str)
        ensures
            members(*final(self), room_id@) == without(members(*old(self), room_id@), user_id),
            without(members(*old(self), room_id@), user_id).len() == 0 ==> !rooms_held(final(self).chat_rooms).contains_key(room_id@),
            forall|r: Seq<char>| r != room_id@ ==> #[trigger] members(*final(self), r) == members(*old(self), r),
            forall|r: Seq<char>| #[trigger] typing(*final(self), r) == typing(*old(self), r),
            forall|u: u128| #[trigger] handles(*final(self), u) == handles(*old(self), u),
            all_regrouped(infos_held(old(self).connection_info), infos_held(final(self).connection_info), user_id, uuid_parsed(room_id@), false),
    {
        match rooms_get(&self.chat_rooms, room_id) {
            Some(room) => {
                let mut room = room;
                room.participants = without_id(&room.participants, user_id);
                if room.participants.len() > 0 {
                    rooms_insert(&mut self.chat_rooms, room_id, room);
                } else {
                    rooms_remove(&mut self.chat_rooms, room_id);
                }
            },
            None => {
                proof {
                    reveal_with_fuel(Seq::filter, 1);
                    assert(without(Seq::<u128>::empty(), user_id) =~= Seq::<u128>::empty());
                }
            },
        }
        self.record_group(user_id, room_id, false);
    }

    /// Adds (`joined`) or removes the room's identifier, when the room id is
    /// one, in the group lists of the user's connections.
    fn record_group(&mut self, user_id: u128, room_id: &str, joined: bool)
        ensures
            final(self).chat_rooms == old(self).chat_rooms,
            final(self).typing_indicators == old(self).typing_indicators,
            final(self).connections == old(self).connections,
            final(self).user_presence == old(self).user_presence,
            all_regrouped(infos_held(old(self).connection_info), infos_held(final(self).connection_info), user_id, uuid_parsed(room_id@), joined),
    {
        let parsed = parse_uuid(room_id);
        let ghost m0 = infos_held(self.connection_info);
        let ghost pre = *self;
        let mut entries = infos_entries(&self.connection_info);
        let ghost all = entries@;
        let mut n: usize = entries.len();
        while n > 0
            invariant
                n <= all.len(),
                entries@ == all.subrange(0, n as int),
                m0 == infos_held(pre.connection_info),
                self.chat_rooms == pre.chat_rooms,
                self.typing_indicators == pre.typing_indicators,
                self.connections == pre.connections,
                self.user_presence == pre.user_presence,
                parsed == uuid_parsed(room_id@),
                forall|j: int| 0 <= j < all.len() ==> m0.contains_key((#[trigger] all[j]).0@) && same_info(all[j].1, m0[all[j].0@]),
                forall|k: Seq<char>| #[trigger] m0.contains_key(k) ==> exists|j: int| 0 <= j < all.len() && (#[trigger] all[j]).0@ == k,
                (forall|i: int, j: int| 0 <= i < j < all.len() ==> (#[trigger] all[i]).0@ != (#[trigger] all[j]).0@),
                infos_held(self.connection_info).dom() == m0.dom(),
                forall|j: int| n <= j < all.len() ==> regrouped(m0[(#[trigger] all[j]).0@], infos_held(self.connection_info)[all[j].0@], user_id, parsed, joined),
                forall|j: int| 0 <= j < n ==> infos_held(self.connection_info)[(#[trigger] all[j]).0@] == m0[all[j].0@],
            decreases n,
        {
            let (k, info) = entries.pop().unwrap();
            n = n - 1;
            proof {
                assert(all[n as int] == (k, info));
            }
            let ghost before = infos_held(self.connection_info);
            if info.user_id == user_id {
                match parsed {
                    Some(g) => {
                        let mut info = info;
                        if joined {
                            if !contains_id(&info.group_ids, g) {
                                info.group_ids.push(g);
                            }
                        } else {
                            info.group_ids = without_id(&info.group_ids, g);
                        }
                        infos_insert(&mut self.connection_info, k.as_str(), info);
                    },
                    None => {},
                }
            }
            proof {
                let after = infos_held(self.connection_info);
                assert(after.dom() =~= m0.dom());
                assert forall|j: int| n <= j < all.len() implies regrouped(m0[(#[trigger] all[j]).0@], after[all[j].0@], user_id, parsed, joined) by {
                    if j != n {
                        assert(all[j].0@ != all[n as int].0@);
                    }
                }
                assert forall|j: int| 0 <= j < n implies after[(#[trigger] all[j]).0@] == m0[all[j].0@] by {
                    assert(all[j].0@ != all[n as int].0@);
                }
            }
        }
        proof {
            let m1 = infos_held(self.connection_info);
            assert forall|k: Seq<char>| #[trigger] m0.contains_key(k) implies regrouped(m0[k], m1[k], user_id, uuid_parsed(room_id@), joined) by {
                let j = choose|j: int| 0 <= j < all.len() && (#[trigger] all[j]).0@ == k;
                assert(regrouped(m0[all[j].0@], m1[all[j].0@], user_id, parsed, joined));
            }
        }
    }

    /// Starts (`is_typing`) or stops recording that `user_id` types in a
    /// room.
    pub fn set_typing_indicator(&mut self, room_id: &str, user_id: u128, is_typing: bool)
        ensures
            typing(*final(self), room_id@) == if is_typing {
                typing(*old(self), room_id@).push(user_id)
            } else {
                without(typing(*old(self), room_id@), user_id)
            },
            forall|r: Seq<char>| r != room_id@ ==> #[trigger] typing(*final(self), r) == typing(*old(self), r),
            forall|r: Seq<char>| #[trigger] members(*final(self), r) == members(*old(self), r),
            forall|u: u128| #[trigger] handles(*final(self), u) == handles(*old(self), u),
    {
        match typing_get(&self.typing_indicators, room_id) {
            Some(users) => {
                let mut users = users;
                if is_typing {
                    users.push(user_id);
                } else {
                    users = without_id(&users, user_id);
                }
                typing_insert(&mut self.typing_indicators, room_id, users);
            },
            None => {
                if is_typing {
                    let mut users: Vec<u128> = Vec::new();
                    users.push(user_id);
                    assert(users@ =~= Seq::<u128>::empty().push(user_id));
                    typing_insert(&mut self.typing_indicators, room_id, users);
                } else {
                    proof {
                        reveal_with_fuel(Seq::filter, 1);
                        assert(without(Seq::<u128>::empty(), user_id) =~= Seq::<u128>::empty());
                    }
                }
            },
        }
    }

    /// Registers a new connection of `user_id`, known by `handle`, and tells
    /// the other online users that the user is online.
    pub fn add_connection(&mut self, connection_id: &str, user_id: u128, username: &str, handle: u64, now: i64) -> (b: Broadcast)
        ensures
            handles(*final(self), user_id) == handles(*old(self), user_id).push(handle),
            forall|u: u128| u != user_id ==> #[trigger] handles(*final(self), u) == handles(*old(self), u),
            infos_held(final(self).connection_info).contains_key(connection_id@),
            ({
                let info = infos_held(final(self).connection_info)[connection_id@];
                &&& info.user_id == user_id
                &&& info.username@ == username@
                &&& info.session_id is None
                &&& info.group_ids@.len() == 0
                &&& info.connected_at == now
                &&& info.last_activity == now
            }),
            forall|k: Seq<char>| k != connection_id@ ==> #[trigger] infos_held(final(self).connection_info).contains_key(k)
                == infos_held(old(self).connection_info).contains_key(k)
                && infos_held(final(self).connection_info)[k] == infos_held(old(self).connection_info)[k],
            presence_held(final(self).user_presence) == presence_held(old(self).user_presence).insert(user_id, now),
            forall|r: Seq<char>| #[trigger] members(*final(self), r) == members(*old(self), r),
            forall|r: Seq<char>| #[trigger] typing(*final(self), r) == typing(*old(self), r),
            lists_online(*final(self), b.recipients@, Some(user_id)),
            (b.message matches WsMessage::UserJoined { user_id: u, username: n, .. } && u == user_id && n@ == username@),
    {
        let mut v = match handles_get(&self.connections, user_id) {
            Some(v) => v,
            None => Vec::new(),
        };
        v.push(handle);
        handles_insert(&mut self.connections, user_id, v);
        let info = ConnectionInfo {
            user_id,
            username: own(username),
            session_id: None,
            group_ids: Vec::new(),
            connected_at: now,
            last_activity: now,
        };
        infos_insert(&mut self.connection_info, connection_id, info);
        presence_insert(&mut self.user_presence, user_id, now);
        self.status_broadcast(user_id, username, true)
    }

    /// Closes a connection: the user's handles are all dropped, the user is
    /// marked offline as of `now`, stops typing everywhere, and the other
    /// online users are told. An unknown connection changes nothing.
    pub fn remove_connection(&mut self, connection_id: &str, now: i64) -> (r: Option<Broadcast>)
        ensures
            match infos_held(old(self).connection_info).get(connection_id@) {
                Some(info) => {
                    &&& infos_held(final(self).connection_info) == infos_held(old(self).connection_info).remove(connection_id@)
                    &&& connection_count(*final(self), info.user_id) == 0
                    &&& forall|u: u128| u != info.user_id ==> #[trigger] handles(*final(self), u) == handles(*old(self), u)
                    &&& presence_held(final(self).user_presence) == presence_held(old(self).user_presence).insert(info.user_id, now)
                    &&& forall|rm: Seq<char>| #[trigger] typing(*final(self), rm) == without(typing(*old(self), rm), info.user_id)
                    &&& r matches Some(b) && lists_online(*final(self), b.recipients@, Some(info.user_id))
                        && (b.message matches WsMessage::UserLeft { user_id: u, username: n, .. } && u == info.user_id && n@ == info.username@)
                },
                None => r is None && infos_held(final(self).connection_info) == infos_held(old(self).connection_info)
                    && final(self).connections == old(self).connections && final(self).user_presence == old(self).user_presence
                    && final(self).typing_indicators == old(self).typing_indicators,
            },
            forall|rm: Seq<char>| #[trigger] members(*final(self), rm) == members(*old(self), rm),
    {
        match infos_remove(&mut self.connection_info, connection_id) {
            Some(info) => {
                let user_id = info.user_id;
                match handles_get(&self.connections, user_id) {
                    Some(_) => {
                        handles_insert(&mut self.connections, user_id, Vec::new());
                    },
                    None => {},
                }
                presence_insert(&mut self.user_presence, user_id, now);
                self.stop_typing_everywhere(user_id);
                Some(self.status_broadcast(user_id, info.username.as_str(), false))
            },
            None => None,
        }
    }

    /// Removes `user_id` from every room's typing list.
    fn stop_typing_everywhere(&mut self, user_id: u128)
        ensures
            final(self).chat_rooms == old(self).chat_rooms,
            final(self).connections == old(self).connections,
            final(self).user_presence == old(self).user_presence,
            final(self).connection_info == old(self).connection_info,
            forall|rm: Seq<char>| #[trigger] typing(*final(self), rm) == without(typing(*old(self), rm), user_id),
    {
        let ghost pre = *self;
        let ghost t0 = typing_held(self.typing_indicators);
        let keys = typing_keys(&self.typing_indicators);
        let mut i: usize = 0;
        while i < keys.len()
            invariant
                i <= keys@.len(),
                t0 == typing_held(pre.typing_indicators),
                self.chat_rooms == pre.chat_rooms,
                self.connections == pre.connections,
                self.user_presence == pre.user_presence,
                self.connection_info == pre.connection_info,
                forall|j: int| 0 <= j < keys@.len() ==> t0.contains_key((#[trigger] keys@[j])@),
                (forall|a: int, b: int| 0 <= a < b < keys@.len() ==> (#[trigger] keys@[a])@ != (#[trigger] keys@[b])@),
                typing_held(self.typing_indicators).dom() == t0.dom(),
                forall|j: int| 0 <= j < i ==> typing_held(self.typing_indicators)[(#[trigger] keys@[j])@] == without(t0[keys@[j]@], user_id),
                forall|j: int| i <= j < keys@.len() ==> typing_held(self.typing_indicators)[(#[trigger] keys@[j])@] == t0[keys@[j]@],
            decreases keys.len() - i,
        {
            let k = keys[i].as_str();
            match typing_get(&self.typing_indicators, k) {
                Some(users) => {
                    let kept = without_id(&users, user_id);
                    typing_insert(&mut self.typing_indicators, k, kept);
                    proof {
                        let after = typing_held(self.typing_indicators);
                        assert(after.dom() =~= t0.dom());
                        assert forall|j: int| 0 <= j < i + 1 implies after[(#[trigger] keys@[j])@] == without(t0[keys@[j]@], user_id) by {
                            if j != i {
                                assert(keys@[j]@ != keys@[i as int]@);
                            }
                        }
                        assert forall|j: int| i + 1 <= j < keys@.len() implies after[(#[trigger] keys@[j])@] == t0[keys@[j]@] by {
                            assert(keys@[j]@ != keys@[i as int]@);
                        }
                    }
                },
                None => {
                    assert(false);
                },
            }
            i = i + 1;
        }
        proof {
            let t1 = typing_held(self.typing_indicators);
            assert forall|rm: Seq<char>| #[trigger] typing(*self, rm) == without(typing(pre, rm), user_id) by {
                if t0.contains_key(rm) {
                    let j = choose|j: int| 0 <= j < keys@.len() && (#[trigger] keys@[j])@ == rm;
                    assert(t1[keys@[j]@] == without(t0[keys@[j]@], user_id));
                } else {
                    reveal_with_fuel(Seq::filter, 1);
                    assert(without(Seq::<u128>::empty(), user_id) =~= Seq::<u128>::empty());
                }
            }
        }
    }

    /// Records activity of `user_id` at `now`, on the user and on each of the
    /// user's connections.
    pub fn update_user_activity(&mut self, user_id: u128, now: i64)
        ensures
            presence_held(final(self).user_presence) == presence_held(old(self).user_presence).insert(user_id, now),
            all_touched(infos_held(old(self).connection_info), infos_held(final(self).connection_info), user_id, now),
            forall|rm: Seq<char>| #[trigger] members(*final(self), rm) == members(*old(self), rm),
            forall|rm: Seq<char>| #[trigger] typing(*final(self), rm) == typing(*old(self), rm),
            forall|u: u128| #[trigger] handles(*final(self), u) == handles(*old(self), u),
    {
        presence_insert(&mut self.user_presence, user_id, now);
        let ghost m0 = infos_held(self.connection_info);
        let ghost pre = *self;
        let mut entries = infos_entries(&self.connection_info);
        let ghost all = entries@;
        let mut n: usize = entries.len();
        while n > 0
            invariant
                n <= all.len(),
                entries@ == all.subrange(0, n as int),
                m0 == infos_held(pre.connection_info),
                self.chat_rooms == pre.chat_rooms,
                self.typing_indicators == pre.typing_indicators,
                self.connections == pre.connections,
                self.user_presence == pre.user_presence,
                forall|j: int| 0 <= j < all.len() ==> m0.contains_key((#[trigger] all[j]).0@) && same_info(all[j].1, m0[all[j].0@]),
                forall|k: Seq<char>| #[trigger] m0.contains_key(k) ==> exists|j: int| 0 <= j < all.len() && (#[trigger] all[j]).0@ == k,
                (forall|i: int, j: int| 0 <= i < j < all.len() ==> (#[trigger] all[i]).0@ != (#[trigger] all[j]).0@),
                infos_held(self.connection_info).dom() == m0.dom(),
                forall|j: int| n <= j < all.len() ==> touched(m0[(#[trigger] all[j]).0@], infos_held(self.connection_info)[all[j].0@], user_id, now),
                forall|j: int| 0 <= j < n ==> infos_held(self.connection_info)[(#[trigger] all[j]).0@] == m0[all[j].0@],
            decreases n,
        {
            let (k, info) = entries.pop().unwrap();
            n = n - 1;
            proof {
                assert(all[n as int] == (k, info));
            }
            if info.user_id == user_id {
                let mut info = info;
                info.last_activity = now;
                infos_insert(&mut self.connection_info, k.as_str(), info);
            }
            proof {
                let after = infos_held(self.connection_info);
                assert(after.dom() =~= m0.dom());
                assert forall|j: int| n <= j < all.len() implies touched(m0[(#[trigger] all[j]).0@], after[all[j].0@], user_id, now) by {
                    if j != n {
                        assert(all[j].0@ != all[n as int].0@);
                    }
                }
                assert forall|j: int| 0 <= j < n implies after[(#[trigger] all[j]).0@] == m0[all[j].0@] by {
                    assert(all[j].0@ != all[n as int].0@);
                }
            }
        }
        proof {
            let m1 = infos_held(self.connection_info);
            assert forall|k: Seq<char>| #[trigger] m0.contains_key(k) implies touched(m0[k], m1[k], user_id, now) by {
                let j = choose|j: int| 0 <= j < all.len() && (#[trigger] all[j]).0@ == k;
                assert(touched(m0[all[j].0@], m1[all[j].0@], user_id, now));
            }
        }
    }

    /// Drops the handles of `user_id` that failed to send, given by their
    /// positions in increasing order.
    pub fn remove_senders(&mut self, user_id: u128, failed: &Vec<usize>)
        ensures
            handles_held(old(self).connections).contains_key(user_id) ==>
                handles_held(final(self).connections) == handles_held(old(self).connections).insert(user_id, after_removals(handles(*old(self), user_id), failed@)),
            !handles_held(old(self).connections).contains_key(user_id) ==> final(self).connections == old(self).connections,
            final(self).chat_rooms == old(self).chat_rooms,
            final(self).typing_indicators == old(self).typing_indicators,
    {
        match handles_get(&self.connections, user_id) {
            Some(v) => {
                let mut v = v;
                let ghost v0 = v@;
                let mut i: usize = failed.len();
                assert(failed@.subrange(0, failed@.len() as int) =~= failed@);
                while i > 0
                    invariant
                        i <= failed@.len(),
                        after_removals(v@, failed@.subrange(0, i as int)) == after_removals(v0, failed@),
                    decreases i,
                {
                    assert(failed@.subrange(0, i as int).drop_last() =~= failed@.subrange(0, i - 1));
                    assert(failed@.subrange(0, i as int).last() == failed@[i - 1]);
                    i = i - 1;
                    let k = failed[i];
                    if k < v.len() {
                        v.remove(k);
                    }
                }
                assert(failed@.subrange(0, 0) =~= Seq::<usize>::empty());
                handles_insert(&mut self.connections, user_id, v);
            },
            None => {},
        }
    }

    /// The connections whose last activity is more than `timeout_seconds`
    /// before `now` (milliseconds), each once; the service closes them.
    pub fn inactive_connections(&self, timeout_seconds: u64, now: i64) -> (r: Vec<String>)
        requires
            timeout_seconds <= 9_223_372_036_854_775,
        ensures
            forall|j: int| 0 <= j < r@.len() ==> infos_held(self.connection_info).contains_key((#[trigger] r@[j])@)
                && infos_held(self.connection_info)[r@[j]@].last_activity < now - timeout_seconds * 1000,
            forall|k: Seq<char>| #[trigger] infos_held(self.connection_info).contains_key(k)
                && infos_held(self.connection_info)[k].last_activity < now - timeout_seconds * 1000
                ==> exists|j: int| 0 <= j < r@.len() && (#[trigger] r@[j])@ == k,
            (forall|a: int, b: int| 0 <= a < b < r@.len() ==> (#[trigger] r@[a])@ != (#[trigger] r@[b])@),
    {
        let cutoff: i128 = now as i128 - (timeout_seconds as i128) * 1000;
        let ghost m = infos_held(self.connection_info);
        let mut entries = infos_entries(&self.connection_info);
        let ghost all = entries@;
        let mut r: Vec<String> = Vec::new();
        let ghost mut picked: Seq<int> = Seq::empty();
        let mut n: usize = entries.len();
        while n > 0
            invariant
                n <= all.len(),
                entries@ == all.subrange(0, n as int),
                cutoff == now - timeout_seconds * 1000,
                forall|j: int| 0 <= j < all.len() ==> m.contains_key((#[trigger] all[j]).0@) && same_info(all[j].1, m[all[j].0@]),
                (forall|i: int, j: int| 0 <= i < j < all.len() ==> (#[trigger] all[i]).0@ != (#[trigger] all[j]).0@),
                picked.len() == r@.len(),
                forall|q: int| 0 <= q < r@.len() ==> n <= #[trigger] picked[q] < all.len() && r@[q]@ == all[picked[q]].0@
                    && all[picked[q]].1.last_activity < cutoff,
                forall|j: int| n <= j < all.len() && (#[trigger] all[j]).1.last_activity < cutoff ==> exists|q: int| 0 <= q < r@.len() && picked[q] == j,
                (forall|a: int, b: int| 0 <= a < b < r@.len() ==> #[trigger] picked[a] != #[trigger] picked[b]),
            decreases n,
        {
            let (k, info) = entries.pop().unwrap();
            n = n - 1;
            proof {
                assert(all[n as int] == (k, info));
            }
            let ghost r0 = r@;
            let ghost p0 = picked;
            if (info.last_activity as i128) < cutoff {
                r.push(k);
                proof {
                    picked = picked.push(n as int);
                    assert(picked[r0.len() as int] == n);
                }
            }
            proof {
                assert forall|j: int| n <= j < all.len() && (#[trigger] all[j]).1.last_activity < cutoff implies exists|q: int| 0 <= q < r@.len() && picked[q] == j by {
                    if j == n {
                        assert(picked[r0.len() as int] == n);
                    } else {
                        let q = choose|q: int| 0 <= q < r0.len() && p0[q] == j;
                        assert(picked[q] == p0[q]);
                    }
                }
            }
        }
        proof {
            assert forall|j: int| 0 <= j < r@.len() implies infos_held(self.connection_info).contains_key((#[trigger] r@[j])@)
                && infos_held(self.connection_info)[r@[j]@].last_activity < now - timeout_seconds * 1000 by {
                let p = picked[j];
                assert(m.contains_key(all[p].0@) && same_info(all[p].1, m[all[p].0@]));
            }
            assert forall|a: int, b: int| 0 <= a < b < r@.len() implies (#[trigger] r@[a])@ != (#[trigger] r@[b])@ by {
                assert(picked[a] != picked[b]);
                if picked[a] < picked[b] {
                    assert(all[picked[a]].0@ != all[picked[b]].0@);
                } else {
                    assert(all[picked[b]].0@ != all[picked[a]].0@);
                }
            }
            assert forall|k: Seq<char>| #[trigger] m.contains_key(k) && m[k].last_activity < now - timeout_seconds * 1000
                implies exists|j: int| 0 <= j < r@.len() && (#[trigger] r@[j])@ == k by {
                let j0 = choose|j: int| 0 <= j < all.len() && (#[trigger] all[j]).0@ == k;
                assert(all[j0].1.last_activity < cutoff);
                let q = choose|q: int| 0 <= q < r@.len() && picked[q] == j0;
                assert(r@[q]@ == k);
            }
        }
        r
    }
}

/// `s` after removing, from the last index of `idx` to the first, each
/// position that is in range.
pub open spec fn after_removals<S>(s: Seq<S>, idx: Seq<usize>) -> Seq<S>
    decreases idx.len(),
{
    if idx.len() == 0 {
        s
    } else {
        let k = idx.last() as int;
        let s2 = if k < s.len() { s.remove(k) } else { s };
        after_removals(s2, idx.drop_last())
    }
}

} // verus!
