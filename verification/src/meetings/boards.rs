//! The whiteboards held in memory while they are in use, in a concurrent
//! map (`dashmap::DashMap`) keyed by board id. A board that is not held is
//! loaded by the caller (from the cache or the database) and `put` here;
//! every change goes through the board's own verified operations, and
//! boards left unchanged for 30 minutes are dropped from memory.
use vstd::prelude::*;
use crate::common::AppError;
use crate::meetings::whiteboard::{BoardElement, Whiteboard, changed, has_element, without_element, unchanged, board_still_active};
use crate::time::{Timestamp, ts_valid, ts_nanos, MIN_SECS};
use crate::text::own;

verus! {

/// The boards in memory, by board id; an element's content is its JSON.
pub type BoardMap = dashmap::DashMap<u128, Whiteboard<serde_json::Value>>;

/// What a map of boards holds.
pub uninterp spec fn boards_held(m: BoardMap) -> Map<u128, Whiteboard<serde_json::Value>>;

/// Two copies of a board agree on everything but the elements' content:
/// identifiers, version, last change, and each element's identifier.
pub open spec fn same_board(a: Whiteboard<serde_json::Value>, b: Whiteboard<serde_json::Value>) -> bool {
    &&& a.whiteboard_id == b.whiteboard_id
    &&& a.session_id == b.session_id
    &&& a.version == b.version
    &&& a.last_modified == b.last_modified
    &&& a.last_modified_by == b.last_modified_by
    &&& a.elements@.len() == b.elements@.len()
    &&& forall|i: int| 0 <= i < a.elements@.len() ==> (#[trigger] a.elements@[i]).element_id == b.elements@[i].element_id
}

/// Changed within the 30 minutes before `now`.
pub open spec fn recently_changed(w: Whiteboard<serde_json::Value>, now: Timestamp) -> bool {
    ts_nanos(w.last_modified) > ts_nanos(now) - 1800 * 1_000_000_000
}

/// `DashMap::new`: no boards.
#[verifier::external_body]
fn boards_new() -> (r: BoardMap)
    ensures
        (boards_held(r) == Map::<u128, Whiteboard<serde_json::Value>>::empty()),
{
    dashmap::DashMap::new()
}

/// `DashMap::get`, the board cloned (its derived `Clone` copies the
/// identifiers, version and times, and clones each element, whose
/// identifier it copies).
#[verifier::external_body]
fn boards_get(m: &BoardMap, k: u128) -> (r: Option<Whiteboard<serde_json::Value>>)
    ensures
        match r {
            Some(v) => boards_held(*m).contains_key(k) && same_board(v, boards_held(*m)[k]),
            None => !boards_held(*m).contains_key(k),
        },
{
    m.get(&k).map(|v| v.value().clone())
}

/// `DashMap::insert`: the key now holds the board.
#[verifier::external_body]
fn boards_insert(m: &mut BoardMap, k: u128, v: Whiteboard<serde_json::Value>)
    ensures
        boards_held(*final(m)) == boards_held(*old(m)).insert(k, v),
{
    m.insert(k, v);
}

/// `DashMap::remove`: the key is gone; its board is handed back.
#[verifier::external_body]
fn boards_remove(m: &mut BoardMap, k: u128) -> (r: Option<Whiteboard<serde_json::Value>>)
    ensures
        boards_held(*final(m)) == boards_held(*old(m)).remove(k),
        match r {
            Some(v) => boards_held(*old(m)).contains_key(k) && v == boards_held(*old(m))[k],
            None => !boards_held(*old(m)).contains_key(k),
        },
{
    m.remove(&k).map(|(_, v)| v)
}

/// `DashMap::retain` with a test that keeps the boards changed within the
/// last 30 minutes: those stay as they were, the others are dropped.
#[verifier::external_body]
fn boards_retain_recent(m: &mut BoardMap, now: Timestamp)
    requires
        ts_valid(now),
        now.secs - 1800 >= MIN_SECS,
        forall|k: u128| #[trigger] boards_held(*old(m)).contains_key(k) ==> ts_valid(boards_held(*old(m))[k].last_modified),
    ensures
        forall|k: u128| #[trigger] boards_held(*final(m)).contains_key(k)
            <==> (boards_held(*old(m)).contains_key(k) && recently_changed(boards_held(*old(m))[k], now)),
        forall|k: u128| #[trigger] boards_held(*final(m)).contains_key(k) ==> boards_held(*final(m))[k] == boards_held(*old(m))[k],
{
    m.retain(|_, w| board_still_active(w.last_modified, now));
}

/// The boards in use.
pub struct ActiveWhiteboards {
    pub boards: BoardMap,
}

/// The board held under `id`.
pub open spec fn held_board(s: ActiveWhiteboards, id: u128) -> Option<Whiteboard<serde_json::Value>> {
    if boards_held(s.boards).contains_key(id) {
        Some(boards_held(s.boards)[id])
    } else {
        None
    }
}

/// The boards other than `id` are as they were.
pub open spec fn others_kept(pre: ActiveWhiteboards, post: ActiveWhiteboards, id: u128) -> bool {
    forall|k: u128| k != id ==> #[trigger] held_board(post, k) == held_board(pre, k)
}

/// What a change to a board held under `id` gave: the board is not held
/// (nothing changes), its version cannot advance (nothing changes), or the
/// change `done` was made.
pub open spec fn change_outcome(
    pre: ActiveWhiteboards,
    post: ActiveWhiteboards,
    id: u128,
    r: Result<(), AppError>,
    done: spec_fn(Whiteboard<serde_json::Value>, Whiteboard<serde_json::Value>) -> bool,
) -> bool {
    match held_board(pre, id) {
        None => (r matches Err(AppError::NotFound(m)) && m@ == "Whiteboard not found"@) && held_board(post, id) is None,
        Some(w) => if w.version == u64::MAX {
            (r matches Err(AppError::Internal(m)) && m@ == "Whiteboard version exhausted"@) && held_board(post, id) == Some(w)
        } else {
            held_board(post, id) matches Some(v) && done(w, v)
        },
    }
}

/// Putting a board back under `id` keeps the other boards.
proof fn lemma_put_back(pre: ActiveWhiteboards, mid: ActiveWhiteboards, post: ActiveWhiteboards, id: u128, b: Whiteboard<serde_json::Value>)
    requires
        others_kept(pre, mid, id),
        boards_held(post.boards) == boards_held(mid.boards).insert(id, b),
    ensures
        others_kept(pre, post, id),
        held_board(post, id) == Some(b),
{
    assert forall|k: u128| k != id implies #[trigger] held_board(post, k) == held_board(pre, k) by {
        assert(held_board(mid, k) == held_board(pre, k));
    }
}

impl ActiveWhiteboards {
    /// Every board held carries a valid time of last change.
    pub open spec fn wf(&self) -> bool {
        forall|k: u128| #[trigger] boards_held(self.boards).contains_key(k) ==> ts_valid(boards_held(self.boards)[k].last_modified)
    }

    /// No boards.
    pub fn new() -> (s: Self)
        ensures
            s.wf(),
            forall|id: u128| #[trigger] held_board(s, id) is None,
    {
        ActiveWhiteboards { boards: boards_new() }
    }

    /// A copy of the board held under `id`, if any.
    pub fn get(&self, id: u128) -> (r: Option<Whiteboard<serde_json::Value>>)
        ensures
            match held_board(*self, id) {
                Some(w) => r matches Some(v) && same_board(v, w),
                None => r is None,
            },
    {
        boards_get(&self.boards, id)
    }

    /// Holds `board` under its own id (a new board, or one loaded from the
    /// cache or the database), replacing what was held there.
    pub fn put(&mut self, board: Whiteboard<serde_json::Value>)
        requires
            old(self).wf(),
            ts_valid(board.last_modified),
        ensures
            final(self).wf(),
            held_board(*final(self), board.whiteboard_id) == Some(board),
            others_kept(*old(self), *final(self), board.whiteboard_id),
    {
        let id = board.whiteboard_id;
        boards_insert(&mut self.boards, id, board);
    }

    /// Takes the board out for a change, or reports why it cannot change.
    fn take_for_change(&mut self, id: u128) -> (r: Result<Whiteboard<serde_json::Value>, AppError>)
        requires
            old(self).wf(),
        ensures
            final(self).wf(),
            match held_board(*old(self), id) {
                None => (r matches Err(AppError::NotFound(m)) && m@ == "Whiteboard not found"@) && *final(self) == *old(self),
                Some(w) => if w.version == u64::MAX {
                    (r matches Err(AppError::Internal(m)) && m@ == "Whiteboard version exhausted"@) && *final(self) == *old(self)
                } else {
                    r == Ok::<Whiteboard<serde_json::Value>, AppError>(w) && held_board(*final(self), id) is None
                        && others_kept(*old(self), *final(self), id)
                },
            },
    {
        match boards_get(&self.boards, id) {
            None => Err(AppError::NotFound(own("Whiteboard not found"))),
            Some(w) => {
                if w.version == u64::MAX {
                    return Err(AppError::Internal(own("Whiteboard version exhausted")));
                }
                match boards_remove(&mut self.boards, id) {
                    Some(b) => Ok(b),
                    None => Err(AppError::NotFound(own("Whiteboard not found"))),
                }
            },
        }
    }

    /// Adds an element on top of the board held under `id`.
    pub fn add_element(&mut self, id: u128, element: BoardElement<serde_json::Value>, user_id: u128, now: Timestamp) -> (r: Result<(), AppError>)
        requires
            old(self).wf(),
            ts_valid(now),
        ensures
            final(self).wf(),
            others_kept(*old(self), *final(self), id),
            change_outcome(*old(self), *final(self), id, r,
                |w: Whiteboard<serde_json::Value>, v: Whiteboard<serde_json::Value>| changed(w, v, user_id, now) && v.elements@ == w.elements@.push(element)),
            r is Ok <==> (held_board(*old(self), id) matches Some(w) && w.version < u64::MAX),
    {
        let mut b = match self.take_for_change(id) {
            Ok(b) => b,
            Err(e) => return Err(e),
        };
        b.add_element(element, user_id, now);
        let ghost mid = *self;
        boards_insert(&mut self.boards, id, b);
        proof {
            lemma_put_back(*old(self), mid, *self, id, b);
        }
        Ok(())
    }

    /// Replaces the first element with identifier `element_id` on the board
    /// held under `id`; a board without one is left as it was.
    pub fn update_element(&mut self, id: u128, element_id: u128, updated: BoardElement<serde_json::Value>, user_id: u128, now: Timestamp) -> (r: Result<(), AppError>)
        requires
            old(self).wf(),
            ts_valid(now),
        ensures
            final(self).wf(),
            others_kept(*old(self), *final(self), id),
            change_outcome(*old(self), *final(self), id, r,
                |w: Whiteboard<serde_json::Value>, v: Whiteboard<serde_json::Value>|
                    if has_element(w.elements@, element_id) {
                        exists|i: int| 0 <= i < w.elements@.len()
                            && (#[trigger] w.elements@[i]).element_id == element_id
                            && (forall|j: int| 0 <= j < i ==> (#[trigger] w.elements@[j]).element_id != element_id)
                            && v.elements@ == w.elements@.update(i, updated)
                            && changed(w, v, user_id, now)
                    } else {
                        v == w
                    }),
            held_board(*old(self), id) matches Some(w) ==> (w.version < u64::MAX ==> (
                (r is Ok <==> has_element(w.elements@, element_id))
                && (r is Err ==> (r matches Err(AppError::NotFound(m)) && m@ == "Element not found"@)))),
    {
        let mut b = match self.take_for_change(id) {
            Ok(b) => b,
            Err(e) => return Err(e),
        };
        let r = b.update_element(element_id, updated, user_id, now);
        let ghost mid = *self;
        boards_insert(&mut self.boards, id, b);
        proof {
            lemma_put_back(*old(self), mid, *self, id, b);
        }
        r
    }

    /// Removes every element with identifier `element_id` from the board
    /// held under `id`; a board without one is left as it was.
    pub fn delete_element(&mut self, id: u128, element_id: u128, user_id: u128, now: Timestamp) -> (r: Result<(), AppError>)
        requires
            old(self).wf(),
            ts_valid(now),
        ensures
            final(self).wf(),
            others_kept(*old(self), *final(self), id),
            change_outcome(*old(self), *final(self), id, r,
                |w: Whiteboard<serde_json::Value>, v: Whiteboard<serde_json::Value>|
                    if has_element(w.elements@, element_id) {
                        v.elements@ == without_element(w.elements@, element_id) && changed(w, v, user_id, now)
                    } else {
                        unchanged(w, v)
                    }),
            held_board(*old(self), id) matches Some(w) ==> (w.version < u64::MAX ==> (
                (r is Ok <==> has_element(w.elements@, element_id))
                && (r is Err ==> (r matches Err(AppError::NotFound(m)) && m@ == "Element not found"@)))),
    {
        let mut b = match self.take_for_change(id) {
            Ok(b) => b,
            Err(e) => return Err(e),
        };
        let r = b.delete_element(element_id, user_id, now);
        let ghost mid = *self;
        boards_insert(&mut self.boards, id, b);
        proof {
            lemma_put_back(*old(self), mid, *self, id, b);
        }
        r
    }

    /// Removes every element from the board held under `id`.
    pub fn clear(&mut self, id: u128, user_id: u128, now: Timestamp) -> (r: Result<(), AppError>)
        requires
            old(self).wf(),
            ts_valid(now),
        ensures
            final(self).wf(),
            others_kept(*old(self), *final(self), id),
            change_outcome(*old(self), *final(self), id, r,
                |w: Whiteboard<serde_json::Value>, v: Whiteboard<serde_json::Value>| changed(w, v, user_id, now) && v.elements@.len() == 0),
            r is Ok <==> (held_board(*old(self), id) matches Some(w) && w.version < u64::MAX),
    {
        let mut b = match self.take_for_change(id) {
            Ok(b) => b,
            Err(e) => return Err(e),
        };
        b.clear(user_id, now);
        let ghost mid = *self;
        boards_insert(&mut self.boards, id, b);
        proof {
            lemma_put_back(*old(self), mid, *self, id, b);
        }
        Ok(())
    }

    /// Drops the boards not changed within the 30 minutes before `now`;
    /// the others stay as they were.
    pub fn drop_inactive(&mut self, now: Timestamp)
        requires
            old(self).wf(),
            ts_valid(now),
            now.secs - 1800 >= MIN_SECS,
        ensures
            final(self).wf(),
            forall|id: u128| #[trigger] held_board(*final(self), id) == match held_board(*old(self), id) {
                Some(w) => if recently_changed(w, now) { Some(w) } else { None },
                None => None,
            },
    {
        boards_retain_recent(&mut self.boards, now);
    }
}

} // verus!
