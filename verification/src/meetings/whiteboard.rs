//! Shared whiteboards: the elements on a board, the version that every
//! change advances, and the names, colours and formats around them. An
//! element's content (`E`) is carried as is; only its identifier is read.
use vstd::prelude::*;
use crate::common::AppError;
use crate::time::{Timestamp, ts_nanos, ts_valid, MIN_SECS};
use crate::text::{own, push_uuid, uuid_text, to_lower, lower_text, str_eq};

verus! {

/// An element on a board, with its identifier.
#[derive(Clone)]
pub struct BoardElement<E> {
    pub element_id: u128,
    pub content: E,
}

/// A board: its elements in drawing order and the version of its content.
#[derive(Clone)]
pub struct Whiteboard<E> {
    pub whiteboard_id: u128,
    pub session_id: u128,
    pub elements: Vec<BoardElement<E>>,
    pub version: u64,
    pub last_modified: Timestamp,
    pub last_modified_by: u128,
}

/// The formats a board can be exported in.
#[derive(PartialEq, Eq, Structural, Clone, Copy, Debug)]
pub enum ExportFormat {
    Json,
    Svg,
}

/// Some element has identifier `id`.
pub open spec fn has_element<E>(e: Seq<BoardElement<E>>, id: u128) -> bool {
    exists|k: int| 0 <= k < e.len() && (#[trigger] e[k]).element_id == id
}

/// A change by `user` at `now` advanced the version by one.
pub open spec fn changed<E>(pre: Whiteboard<E>, post: Whiteboard<E>, user: u128, now: Timestamp) -> bool {
    &&& post.whiteboard_id == pre.whiteboard_id
    &&& post.session_id == pre.session_id
    &&& post.version == pre.version + 1
    &&& post.last_modified == now
    &&& post.last_modified_by == user
}

/// Nothing about the board changed.
pub open spec fn unchanged<E>(pre: Whiteboard<E>, post: Whiteboard<E>) -> bool {
    &&& post.whiteboard_id == pre.whiteboard_id
    &&& post.session_id == pre.session_id
    &&& post.elements@ == pre.elements@
    &&& post.version == pre.version
    &&& post.last_modified == pre.last_modified
    &&& post.last_modified_by == pre.last_modified_by
}

/// The elements without those whose identifier is `id`.
pub open spec fn without_element<E>(e: Seq<BoardElement<E>>, id: u128) -> Seq<BoardElement<E>> {
    e.filter(|x: BoardElement<E>| x.element_id != id)
}

/// Deleting an element just added, under an identifier that no other
/// element had, gives back the elements the board had before.
pub proof fn law_delete_undoes_add<E>(elements: Seq<BoardElement<E>>, element: BoardElement<E>)
    requires
        !has_element(elements, element.element_id),
    ensures
        has_element(elements.push(element), element.element_id),
        without_element(elements.push(element), element.element_id) == elements,
{
    let id = element.element_id;
    let f = |x: BoardElement<E>| x.element_id != id;
    let s = elements.push(element);
    assert(s[elements.len() as int] == element);
    reveal_with_fuel(Seq::filter, 1);
    assert(s.drop_last() =~= elements);
    lemma_without_absent(elements, id);
}

/// Every change to a board (adding, updating, deleting, clearing) raises
/// its version by one, so versions count the changes since creation.
pub proof fn law_versions_count_changes<E>(boards: Seq<Whiteboard<E>>, users: Seq<u128>, times: Seq<Timestamp>)
    requires
        boards.len() >= 1,
        users.len() == boards.len() - 1,
        times.len() == boards.len() - 1,
        forall|k: int| 0 <= k < boards.len() - 1 ==> #[trigger] changed(boards[k], boards[k + 1], users[k], times[k]),
    ensures
        boards.last().version == boards[0].version + (boards.len() - 1),
        boards.last().whiteboard_id == boards[0].whiteboard_id,
    decreases boards.len(),
{
    if boards.len() > 1 {
        let n = boards.len() - 1;
        let k0 = n - 1;
        assert(changed(boards[k0], boards[k0 + 1], users[k0], times[k0]));
        let b = boards.drop_last();
        assert forall|k: int| 0 <= k < b.len() - 1 implies #[trigger] changed(b[k], b[k + 1], users.drop_last()[k], times.drop_last()[k]) by {
            assert(changed(boards[k], boards[k + 1], users[k], times[k]));
        }
        law_versions_count_changes(b, users.drop_last(), times.drop_last());
        assert(b.last() == boards[k0]);
        assert(b[0] == boards[0]);
    }
}

/// The colours that tell users' cursors apart.
pub open spec fn cursor_colors() -> Seq<Seq<char>> {
    seq!["#FF6B6B"@, "#4ECDC4"@, "#45B7D1"@, "#96CEB4"@, "#FFEAA7"@, "#DDA0DD"@, "#98D8C8"@, "#F7DC6F"@, "#BB8FCE"@, "#85C1E9"@]
}

impl<E> Whiteboard<E> {
    /// A new, empty board at version 1.
    pub fn new(whiteboard_id: u128, session_id: u128, created_by: u128, now: Timestamp) -> (w: Self)
        ensures
            w.whiteboard_id == whiteboard_id,
            w.session_id == session_id,
            w.elements@.len() == 0,
            w.version == 1,
            w.last_modified == now,
            w.last_modified_by == created_by,
    {
        Whiteboard { whiteboard_id, session_id, elements: Vec::new(), version: 1, last_modified: now, last_modified_by: created_by }
    }

    fn touch(&mut self, user_id: u128, now: Timestamp)
        requires
            old(self).version < u64::MAX,
        ensures
            changed(*old(self), *final(self), user_id, now),
            final(self).elements == old(self).elements,
    {
        self.version = self.version + 1;
        self.last_modified = now;
        self.last_modified_by = user_id;
    }

    /// Adds an element on top.
    pub fn add_element(&mut self, element: BoardElement<E>, user_id: u128, now: Timestamp)
        requires
            old(self).version < u64::MAX,
        ensures
            changed(*old(self), *final(self), user_id, now),
            final(self).elements@ == old(self).elements@.push(element),
    {
        self.elements.push(element);
        self.touch(user_id, now);
    }

    /// Replaces the first element with identifier `element_id`; a board
    /// without one is left as it was.
    pub fn update_element(&mut self, element_id: u128, updated: BoardElement<E>, user_id: u128, now: Timestamp) -> (r: Result<(), AppError>)
        requires
            old(self).version < u64::MAX,
        ensures
            match r {
                Ok(()) => exists|i: int| 0 <= i < old(self).elements@.len()
                    && (#[trigger] old(self).elements@[i]).element_id == element_id
                    && (forall|j: int| 0 <= j < i ==> (#[trigger] old(self).elements@[j]).element_id != element_id)
                    && final(self).elements@ == old(self).elements@.update(i, updated)
                    && changed(*old(self), *final(self), user_id, now),
                Err(e) => (e matches AppError::NotFound(m) && m@ == "Element not found"@)
                    && !has_element(old(self).elements@, element_id)
                    && *final(self) == *old(self),
            },
    {
        let mut i: usize = 0;
        while i < self.elements.len()
            invariant
                i <= self.elements@.len(),
                *self == *old(self),
                old(self).version < u64::MAX,
                forall|j: int| 0 <= j < i ==> (#[trigger] self.elements@[j]).element_id != element_id,
            decreases self.elements.len() - i,
        {
            if self.elements[i].element_id == element_id {
                self.elements.set(i, updated);
                self.touch(user_id, now);
                return Ok(());
            }
            i = i + 1;
        }
        Err(AppError::NotFound(own("Element not found")))
    }

    /// Removes every element with identifier `element_id`; a board without
    /// one is left as it was.
    pub fn delete_element(&mut self, element_id: u128, user_id: u128, now: Timestamp) -> (r: Result<(), AppError>)
        requires
            old(self).version < u64::MAX,
        ensures
            match r {
                Ok(()) => has_element(old(self).elements@, element_id)
                    && final(self).elements@ == without_element(old(self).elements@, element_id)
                    && changed(*old(self), *final(self), user_id, now),
                Err(e) => (e matches AppError::NotFound(m) && m@ == "Element not found"@)
                    && !has_element(old(self).elements@, element_id)
                    && unchanged(*old(self), *final(self)),
            },
    {
        let ghost e0 = self.elements@;
        let mut kept: Vec<BoardElement<E>> = Vec::new();
        let mut found = false;
        let mut rest: Vec<BoardElement<E>> = Vec::new();
        std::mem::swap(&mut rest, &mut self.elements);
        let n = rest.len();
        let mut taken: usize = 0;
        assert(e0.subrange(0, 0) =~= Seq::<BoardElement<E>>::empty());
        while rest.len() > 0
            invariant
                taken + rest@.len() == n,
                n == e0.len(),
                rest@ == e0.subrange(taken as int, n as int),
                kept@ == without_element(e0.subrange(0, taken as int), element_id),
                found == has_element(e0.subrange(0, taken as int), element_id),
                self.elements@.len() == 0,
            decreases rest.len(),
        {
            let x = rest.remove(0);
            let ghost sub = e0.subrange(0, taken + 1);
            proof {
                assert(sub.drop_last() =~= e0.subrange(0, taken as int));
                assert(sub.last() == x);
                reveal_with_fuel(Seq::filter, 2);
                if has_element(sub, element_id) {
                    let k = choose|k: int| 0 <= k < sub.len() && (#[trigger] sub[k]).element_id == element_id;
                    if k < taken {
                        assert(e0.subrange(0, taken as int)[k] == sub[k]);
                    }
                }
                if has_element(e0.subrange(0, taken as int), element_id) {
                    let k = choose|k: int| 0 <= k < taken && (#[trigger] e0.subrange(0, taken as int)[k]).element_id == element_id;
                    assert(sub[k] == e0.subrange(0, taken as int)[k]);
                }
                if x.element_id == element_id {
                    assert(sub[taken as int] == x);
                }
            }
            if x.element_id == element_id {
                found = true;
            } else {
                kept.push(x);
            }
            taken = taken + 1;
            proof {
                assert(rest@ =~= e0.subrange(taken as int, n as int));
            }
        }
        assert(e0.subrange(0, n as int) =~= e0);
        if !found {
            proof {
                lemma_without_absent(e0, element_id);
            }
            self.elements = kept;
            return Err(AppError::NotFound(own("Element not found")));
        }
        self.elements = kept;
        self.touch(user_id, now);
        Ok(())
    }

    /// Removes every element.
    pub fn clear(&mut self, user_id: u128, now: Timestamp)
        requires
            old(self).version < u64::MAX,
        ensures
            changed(*old(self), *final(self), user_id, now),
            final(self).elements@.len() == 0,
    {
        self.elements.clear();
        self.touch(user_id, now);
    }
}

/// Filtering out an identifier that no element has keeps every element.
proof fn lemma_without_absent<E>(e: Seq<BoardElement<E>>, id: u128)
    requires
        !has_element(e, id),
    ensures
        without_element(e, id) == e,
    decreases e.len(),
{
    reveal_with_fuel(Seq::filter, 1);
    if e.len() > 0 {
        assert(e[e.len() - 1] == e.last());
        assert(!has_element(e.drop_last(), id)) by {
            if has_element(e.drop_last(), id) {
                let k = choose|k: int| 0 <= k < e.drop_last().len() && (#[trigger] e.drop_last()[k]).element_id == id;
                assert(e[k] == e.drop_last()[k]);
            }
        }
        lemma_without_absent(e.drop_last(), id);
        assert(e.drop_last().push(e.last()) =~= e);
    }
}

/// The colour of a user's cursor, by the user's identifier.
pub fn cursor_color(user_id: u128) -> (c: &'static str)
    ensures
        c@ == cursor_colors()[(user_id % 10) as int],
{
    let i = user_id % 10;
    if i == 0 {
        "#FF6B6B"
    } else if i == 1 {
        "#4ECDC4"
    } else if i == 2 {
        "#45B7D1"
    } else if i == 3 {
        "#96CEB4"
    } else if i == 4 {
        "#FFEAA7"
    } else if i == 5 {
        "#DDA0DD"
    } else if i == 6 {
        "#98D8C8"
    } else if i == 7 {
        "#F7DC6F"
    } else if i == 8 {
        "#BB8FCE"
    } else {
        "#85C1E9"
    }
}

/// The name shown for a user whose name is not looked up: `User <id>`.
pub fn placeholder_username(user_id: u128) -> (n: String)
    ensures
        n@ == "User "@ + uuid_text(user_id),
{
    let mut n = own("User ");
    push_uuid(&mut n, user_id);
    n
}

/// `<prefix><id>`.
pub fn keyed(prefix: &str, id: u128) -> (k: String)
    ensures
        k@ == prefix@ + uuid_text(id),
{
    let mut k = own(prefix);
    push_uuid(&mut k, id);
    k
}

/// The export format a request names, in any case: JSON and SVG are
/// offered, PNG is not implemented, anything else is unsupported.
pub fn export_format(format: &str) -> (r: Result<ExportFormat, AppError>)
    ensures
        lower_text(format@) == "json"@ ==> r == Ok::<ExportFormat, AppError>(ExportFormat::Json),
        lower_text(format@) == "svg"@ ==> r == Ok::<ExportFormat, AppError>(ExportFormat::Svg),
        lower_text(format@) == "png"@ ==> (r matches Err(AppError::BadRequest(m)) && m@ == "PNG export not implemented"@),
        lower_text(format@) != "json"@ && lower_text(format@) != "svg"@ && lower_text(format@) != "png"@
            ==> (r matches Err(AppError::BadRequest(m)) && m@ == "Unsupported export format"@),
{
    let l = to_lower(format);
    proof {
        reveal_strlit("json");
        reveal_strlit("svg");
        reveal_strlit("png");
        assert("svg"@.len() == 3 && "json"@.len() == 4 && "png"@.len() == 3);
        assert("svg"@[0] == 's' && "png"@[0] == 'p');
    }
    if str_eq(l.as_str(), "json") {
        Ok(ExportFormat::Json)
    } else if str_eq(l.as_str(), "svg") {
        Ok(ExportFormat::Svg)
    } else if str_eq(l.as_str(), "png") {
        Err(AppError::BadRequest(own("PNG export not implemented")))
    } else {
        Err(AppError::BadRequest(own("Unsupported export format")))
    }
}

/// A board stays in memory while it was changed within the last 30
/// minutes.
pub fn board_still_active(last_modified: Timestamp, now: Timestamp) -> (b: bool)
    requires
        ts_valid(last_modified),
        ts_valid(now),
        now.secs - 1800 >= MIN_SECS,
    ensures
        b == (ts_nanos(last_modified) > ts_nanos(now) - 1800 * 1_000_000_000),
{
    let cutoff = now.plus_seconds(-1800);
    cutoff.before(&last_modified)
}

} // verus!
