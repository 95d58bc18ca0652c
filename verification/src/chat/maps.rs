//! The concurrent maps (`dashmap::DashMap`) that hold the chat service's
//! live state, and what each operation on them does to what they hold.
//!
//! Each map is named by what it holds (`handles_held`, `infos_held`, ...),
//! a finite map from keys, strings by their characters, to values. The
//! operations below are `DashMap::new`, `insert`, `get` (a clone of the
//! value), `remove` and `iter`, each with what the crate's source shows of
//! it: `insert` sets the key's value, `remove` drops the key and hands its
//! value back, `get` reads it, and `iter` visits every entry exactly once,
//! in an order that depends on the per-process hasher and is left open.
//! A cloned value is stated to agree with the stored one field by field
//! (texts and lists by their contents), as `Clone` of `String` and `Vec`
//! gives.
use vstd::prelude::*;
use crate::chat::rooms::{ChatRoom, ConnectionInfo, same_room, same_info};

verus! {

#[verifier::external_type_specification]
#[verifier::external_body]
#[verifier::reject_recursive_types(K)]
#[verifier::reject_recursive_types(V)]
#[verifier::reject_recursive_types(S)]
pub struct ExDashMap<K, V, S>(dashmap::DashMap<K, V, S>);

/// Each user's connection handles, by user id.
pub type HandleMap = dashmap::DashMap<u128, Vec<u64>>;

/// Each connection's details, by connection id.
pub type InfoMap = dashmap::DashMap<String, ConnectionInfo>;

/// The rooms, by room id.
pub type RoomMap = dashmap::DashMap<String, ChatRoom>;

/// When each user was last active, by user id.
pub type PresenceMap = dashmap::DashMap<u128, i64>;

/// Who types in each room, by room id.
pub type TypingMap = dashmap::DashMap<String, Vec<u128>>;

/// What a handle map holds.
pub uninterp spec fn handles_held(m: HandleMap) -> Map<u128, Seq<u64>>;

/// What a connection-details map holds, keys by their characters.
pub uninterp spec fn infos_held(m: InfoMap) -> Map<Seq<char>, ConnectionInfo>;

/// What a room map holds, keys by their characters.
pub uninterp spec fn rooms_held(m: RoomMap) -> Map<Seq<char>, ChatRoom>;

/// What a presence map holds.
pub uninterp spec fn presence_held(m: PresenceMap) -> Map<u128, i64>;

/// What a typing map holds, keys by their characters.
pub uninterp spec fn typing_held(m: TypingMap) -> Map<Seq<char>, Seq<u128>>;

// ---------------------------------------------------------------------------
// Handles
// ---------------------------------------------------------------------------

/// `DashMap::new`: an empty map.
#[verifier::external_body]
pub(crate) fn handles_new() -> (r: HandleMap)
    ensures
        (handles_held(r) == Map::<u128, Seq<u64>>::empty()),
{
    dashmap::DashMap::new()
}

/// `DashMap::get`, the value cloned.
#[verifier::external_body]
pub(crate) fn handles_get(m: &HandleMap, k: u128) -> (r: Option<Vec<u64>>)
    ensures
        match r {
            Some(v) => handles_held(*m).contains_key(k) && v@ == handles_held(*m)[k],
            None => !handles_held(*m).contains_key(k),
        },
{
    m.get(&k).map(|v| v.value().clone())
}

/// `DashMap::insert`: the key now holds the value.
#[verifier::external_body]
pub(crate) fn handles_insert(m: &mut HandleMap, k: u128, v: Vec<u64>)
    ensures
        handles_held(*final(m)) == handles_held(*old(m)).insert(k, v@),
{
    m.insert(k, v);
}

/// `DashMap::iter`: every entry once, as key and cloned value.
#[verifier::external_body]
pub(crate) fn handles_entries(m: &HandleMap) -> (r: Vec<(u128, Vec<u64>)>)
    ensures
        forall|i: int| 0 <= i < r@.len() ==> handles_held(*m).contains_key((#[trigger] r@[i]).0)
            && handles_held(*m)[r@[i].0] == r@[i].1@,
        forall|k: u128| #[trigger] handles_held(*m).contains_key(k) ==> exists|i: int| 0 <= i < r@.len() && (#[trigger] r@[i]).0 == k,
        (forall|i: int, j: int| 0 <= i < j < r@.len() ==> (#[trigger] r@[i]).0 != (#[trigger] r@[j]).0),
{
    m.iter().map(|e| (*e.key(), e.value().clone())).collect()
}

// ---------------------------------------------------------------------------
// Connection details
// ---------------------------------------------------------------------------

/// `DashMap::new`: an empty map.
#[verifier::external_body]
pub(crate) fn infos_new() -> (r: InfoMap)
    ensures
        (infos_held(r) == Map::<Seq<char>, ConnectionInfo>::empty()),
{
    dashmap::DashMap::new()
}

/// `DashMap::insert`: the key now holds the value.
#[verifier::external_body]
pub(crate) fn infos_insert(m: &mut InfoMap, k: &str, v: ConnectionInfo)
    ensures
        infos_held(*final(m)) == infos_held(*old(m)).insert(k@, v),
{
    m.insert(k.to_string(), v);
}

/// `DashMap::remove`: the key is gone; its value is handed back.
#[verifier::external_body]
pub(crate) fn infos_remove(m: &mut InfoMap, k: &str) -> (r: Option<ConnectionInfo>)
    ensures
        infos_held(*final(m)) == infos_held(*old(m)).remove(k@),
        match r {
            Some(v) => infos_held(*old(m)).contains_key(k@) && v == infos_held(*old(m))[k@],
            None => !infos_held(*old(m)).contains_key(k@),
        },
{
    m.remove(k).map(|(_, v)| v)
}

/// `DashMap::iter`: every entry once, as cloned key and value.
#[verifier::external_body]
pub(crate) fn infos_entries(m: &InfoMap) -> (r: Vec<(String, ConnectionInfo)>)
    ensures
        forall|i: int| 0 <= i < r@.len() ==> infos_held(*m).contains_key((#[trigger] r@[i]).0@)
            && same_info(r@[i].1, infos_held(*m)[r@[i].0@]),
        forall|k: Seq<char>| #[trigger] infos_held(*m).contains_key(k) ==> exists|i: int| 0 <= i < r@.len() && (#[trigger] r@[i]).0@ == k,
        (forall|i: int, j: int| 0 <= i < j < r@.len() ==> (#[trigger] r@[i]).0@ != (#[trigger] r@[j]).0@),
{
    m.iter().map(|e| (e.key().clone(), e.value().clone())).collect()
}

// ---------------------------------------------------------------------------
// Rooms
// ---------------------------------------------------------------------------

/// `DashMap::new`: an empty map.
#[verifier::external_body]
pub(crate) fn rooms_new() -> (r: RoomMap)
    ensures
        (rooms_held(r) == Map::<Seq<char>, ChatRoom>::empty()),
{
    dashmap::DashMap::new()
}

/// `DashMap::get`, the value cloned.
#[verifier::external_body]
pub(crate) fn rooms_get(m: &RoomMap, k: &str) -> (r: Option<ChatRoom>)
    ensures
        match r {
            Some(v) => rooms_held(*m).contains_key(k@) && same_room(v, rooms_held(*m)[k@]),
            None => !rooms_held(*m).contains_key(k@),
        },
{
    m.get(k).map(|v| v.value().clone())
}

/// `DashMap::insert`: the key now holds the value.
#[verifier::external_body]
pub(crate) fn rooms_insert(m: &mut RoomMap, k: &str, v: ChatRoom)
    ensures
        rooms_held(*final(m)) == rooms_held(*old(m)).insert(k@, v),
{
    m.insert(k.to_string(), v);
}

/// `DashMap::remove`: the key is gone.
#[verifier::external_body]
pub(crate) fn rooms_remove(m: &mut RoomMap, k: &str)
    ensures
        rooms_held(*final(m)) == rooms_held(*old(m)).remove(k@),
{
    m.remove(k);
}

// ---------------------------------------------------------------------------
// Presence
// ---------------------------------------------------------------------------

/// `DashMap::new`: an empty map.
#[verifier::external_body]
pub(crate) fn presence_new() -> (r: PresenceMap)
    ensures
        (presence_held(r) == Map::<u128, i64>::empty()),
{
    dashmap::DashMap::new()
}

/// `DashMap::insert`: the key now holds the value.
#[verifier::external_body]
pub(crate) fn presence_insert(m: &mut PresenceMap, k: u128, v: i64)
    ensures
        presence_held(*final(m)) == presence_held(*old(m)).insert(k, v),
{
    m.insert(k, v);
}

// ---------------------------------------------------------------------------
// Typing
// ---------------------------------------------------------------------------

/// `DashMap::new`: an empty map.
#[verifier::external_body]
pub(crate) fn typing_new() -> (r: TypingMap)
    ensures
        (typing_held(r) == Map::<Seq<char>, Seq<u128>>::empty()),
{
    dashmap::DashMap::new()
}

/// `DashMap::get`, the value cloned.
#[verifier::external_body]
pub(crate) fn typing_get(m: &TypingMap, k: &str) -> (r: Option<Vec<u128>>)
    ensures
        match r {
            Some(v) => typing_held(*m).contains_key(k@) && v@ == typing_held(*m)[k@],
            None => !typing_held(*m).contains_key(k@),
        },
{
    m.get(k).map(|v| v.value().clone())
}

/// `DashMap::insert`: the key now holds the value.
#[verifier::external_body]
pub(crate) fn typing_insert(m: &mut TypingMap, k: &str, v: Vec<u128>)
    ensures
        typing_held(*final(m)) == typing_held(*old(m)).insert(k@, v@),
{
    m.insert(k.to_string(), v);
}

/// `DashMap::iter`: every key once.
#[verifier::external_body]
pub(crate) fn typing_keys(m: &TypingMap) -> (r: Vec<String>)
    ensures
        forall|i: int| 0 <= i < r@.len() ==> typing_held(*m).contains_key((#[trigger] r@[i])@),
        forall|k: Seq<char>| #[trigger] typing_held(*m).contains_key(k) ==> exists|i: int| 0 <= i < r@.len() && (#[trigger] r@[i])@ == k,
        (forall|i: int, j: int| 0 <= i < j < r@.len() ==> (#[trigger] r@[i])@ != (#[trigger] r@[j])@),
{
    m.iter().map(|e| e.key().clone()).collect()
}

} // verus!
