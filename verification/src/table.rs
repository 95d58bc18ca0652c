//! A table keyed by text, the library's stand-in for a `HashMap<String, V>`:
//! lookups return the entry of the first equal key, and `insert` replaces the
//! value of an existing key or appends a new entry.
use vstd::prelude::*;
use crate::text::{own, str_eq};

verus! {

pub struct Table<V> {
    pub entries: Vec<(String, V)>,
}

/// The value of the first entry whose key is `k`.
pub open spec fn table_lookup<V>(e: Seq<(String, V)>, k: Seq<char>) -> Option<V>
    decreases e.len(),
{
    if e.len() == 0 {
        None
    } else if e[0].0@ == k {
        Some(e[0].1)
    } else {
        table_lookup(e.drop_first(), k)
    }
}

/// The position of the first entry whose key is `k`, or `e.len()`.
pub open spec fn table_position<V>(e: Seq<(String, V)>, k: Seq<char>) -> nat
    decreases e.len(),
{
    if e.len() == 0 {
        0
    } else if e[0].0@ == k {
        0
    } else {
        1 + table_position(e.drop_first(), k)
    }
}

/// The table as a map from keys to the values that lookups return.
pub open spec fn table_map<V>(e: Seq<(String, V)>) -> Map<Seq<char>, V> {
    Map::new(|k: Seq<char>| table_lookup(e, k) is Some, |k: Seq<char>| table_lookup(e, k)->0)
}

/// Where the first entry of `k` stands, and that a lookup finds its value.
pub proof fn lemma_position<V>(e: Seq<(String, V)>, k: Seq<char>)
    ensures
        table_position(e, k) <= e.len(),
        table_position(e, k) < e.len() <==> table_lookup(e, k) is Some,
        table_position(e, k) < e.len() ==> e[table_position(e, k) as int].0@ == k
            && table_lookup(e, k) == Some(e[table_position(e, k) as int].1),
        forall|j: int| 0 <= j < table_position(e, k) ==> #[trigger] e[j].0@ != k,
    decreases e.len(),
{
    if e.len() > 0 && e[0].0@ != k {
        lemma_position(e.drop_first(), k);
        let t = e.drop_first();
        assert forall|j: int| 0 <= j < table_position(e, k) implies #[trigger] e[j].0@ != k by {
            if j > 0 {
                assert(e[j] == t[j - 1]);
            }
        }
    }
}

/// Entries before the first match of `k` do not decide the lookup of `k`;
/// replacing the value at a position leaves other keys' lookups unchanged.
proof fn lemma_lookup_update<V>(e: Seq<(String, V)>, i: int, k: Seq<char>, v: V, q: Seq<char>)
    requires
        0 <= i < e.len(),
        e[i].0@ == k,
        forall|j: int| 0 <= j < i ==> #[trigger] e[j].0@ != k,
    ensures
        forall|s: String| s@ == k ==> table_lookup(#[trigger] e.update(i, (s, v)), q) == if q == k {
            Some(v)
        } else {
            table_lookup(e, q)
        },
    decreases i,
{
    assert forall|s: String| s@ == k implies table_lookup(#[trigger] e.update(i, (s, v)), q) == if q == k {
        Some(v)
    } else {
        table_lookup(e, q)
    } by {
        let u = e.update(i, (s, v));
        if i == 0 {
            assert(u.drop_first() =~= e.drop_first());
        } else {
            lemma_lookup_update(e.drop_first(), i - 1, k, v, q);
            assert(u.drop_first() =~= e.drop_first().update(i - 1, (s, v)));
            assert(e.drop_first()[i - 1] == e[i]);
            assert forall|j: int| 0 <= j < i - 1 implies #[trigger] e.drop_first()[j].0@ != k by {
                assert(e.drop_first()[j] == e[j + 1]);
            }
        }
    }
}

proof fn lemma_lookup_push<V>(e: Seq<(String, V)>, s: String, v: V, q: Seq<char>)
    requires
        table_lookup(e, s@) is None,
    ensures
        table_lookup(e.push((s, v)), q) == if q == s@ {
            Some(v)
        } else {
            table_lookup(e, q)
        },
    decreases e.len(),
{
    if e.len() == 0 {
        assert(e.push((s, v)).drop_first() =~= Seq::<(String, V)>::empty());
    } else {
        assert(e.push((s, v)).drop_first() =~= e.drop_first().push((s, v)));
        if e[0].0@ != s@ {
            lemma_lookup_push(e.drop_first(), s, v, q);
        }
    }
}

/// No key occurs twice.
pub open spec fn distinct_keys<V>(e: Seq<(String, V)>) -> bool {
    forall|i: int, j: int| 0 <= i < j < e.len() ==> (#[trigger] e[i]).0@ != (#[trigger] e[j]).0@
}

/// A key that no entry has is not found.
pub proof fn lemma_lookup_absent<V>(e: Seq<(String, V)>, k: Seq<char>)
    requires
        forall|j: int| 0 <= j < e.len() ==> (#[trigger] e[j]).0@ != k,
    ensures
        table_lookup(e, k) is None,
    decreases e.len(),
{
    if e.len() > 0 {
        assert forall|j: int| 0 <= j < e.drop_first().len() implies (#[trigger] e.drop_first()[j]).0@ != k by {
            assert(e.drop_first()[j] == e[j + 1]);
        }
        lemma_lookup_absent(e.drop_first(), k);
    }
}

/// Removing an entry with another key leaves a lookup unchanged.
proof fn lemma_lookup_remove<V>(e: Seq<(String, V)>, i: int, q: Seq<char>)
    requires
        0 <= i < e.len(),
        e[i].0@ != q,
    ensures
        table_lookup(e.remove(i), q) == table_lookup(e, q),
    decreases i,
{
    if i == 0 {
        assert(e.remove(0) =~= e.drop_first());
    } else {
        assert(e.remove(i).drop_first() =~= e.drop_first().remove(i - 1));
        assert(e.remove(i)[0] == e[0]);
        lemma_lookup_remove(e.drop_first(), i - 1, q);
    }
}

impl<V> Table<V> {
    pub open spec fn view(&self) -> Map<Seq<char>, V> {
        table_map(self.entries@)
    }

    /// An empty table.
    pub fn new() -> (t: Self)
        ensures
            t.entries@.len() == 0,
            distinct_keys(t.entries@),
    {
        Table { entries: Vec::new() }
    }

    /// Number of entries.
    pub fn len(&self) -> (n: usize)
        ensures
            n == self.entries@.len(),
    {
        self.entries.len()
    }

    /// Position of the first entry with key `k`, if any.
    pub fn position(&self, k: &str) -> (r: Option<usize>)
        ensures
            match r {
                Some(i) => i == table_position(self.entries@, k@) && i < self.entries@.len(),
                None => table_lookup(self.entries@, k@) is None,
            },
    {
        proof {
            lemma_position(self.entries@, k@);
        }
        let mut i: usize = 0;
        while i < self.entries.len()
            invariant
                i <= self.entries@.len(),
                forall|j: int| 0 <= j < i ==> #[trigger] self.entries@[j].0@ != k@,
                i <= table_position(self.entries@, k@),
                forall|j: int| 0 <= j < table_position(self.entries@, k@) ==> #[trigger] self.entries@[j].0@ != k@,
                table_position(self.entries@, k@) < self.entries@.len() <==> table_lookup(self.entries@, k@) is Some,
                table_position(self.entries@, k@) <= self.entries@.len(),
                table_position(self.entries@, k@) < self.entries@.len() ==> self.entries@[table_position(self.entries@, k@) as int].0@ == k@,
            decreases self.entries.len() - i,
        {
            if str_eq(self.entries[i].0.as_str(), k) {
                return Some(i);
            }
            i = i + 1;
        }
        None
    }

    /// The value of key `k` (`HashMap::get`).
    pub fn get(&self, k: &str) -> (r: Option<&V>)
        ensures
            match table_lookup(self.entries@, k@) {
                Some(v) => r is Some && *r->0 == v,
                None => r is None,
            },
    {
        proof {
            lemma_position(self.entries@, k@);
        }
        match self.position(k) {
            Some(i) => Some(&self.entries[i].1),
            None => None,
        }
    }

    /// Whether key `k` has an entry (`HashMap::contains_key`).
    pub fn contains_key(&self, k: &str) -> (b: bool)
        ensures
            b == (table_lookup(self.entries@, k@) is Some),
    {
        match self.position(k) {
            Some(_) => {
                proof {
                    lemma_position(self.entries@, k@);
                }
                true
            },
            None => false,
        }
    }

    /// Removes the entry of key `k` and gives its value back
    /// (`HashMap::remove`).
    pub fn take(&mut self, k: &str) -> (r: Option<V>)
        ensures
            r == table_lookup(old(self).entries@, k@),
            r is None ==> final(self).entries@ == old(self).entries@,
            forall|q: Seq<char>| q != k@ ==> #[trigger] table_lookup(final(self).entries@, q) == table_lookup(old(self).entries@, q),
            distinct_keys(old(self).entries@) ==> distinct_keys(final(self).entries@) && table_lookup(final(self).entries@, k@) is None,
    {
        proof {
            lemma_position(self.entries@, k@);
        }
        match self.position(k) {
            Some(i) => {
                let ghost e = self.entries@;
                proof {
                    assert forall|q: Seq<char>| q != k@ implies #[trigger] table_lookup(e.remove(i as int), q) == table_lookup(e, q) by {
                        lemma_lookup_remove(e, i as int, q);
                    }
                    if distinct_keys(e) {
                        let f = e.remove(i as int);
                        assert forall|a: int, b: int| 0 <= a < b < f.len() implies (#[trigger] f[a]).0@ != (#[trigger] f[b]).0@ by {
                            let a2 = if a < i { a } else { a + 1 };
                            let b2 = if b < i { b } else { b + 1 };
                            assert(f[a] == e[a2] && f[b] == e[b2]);
                        }
                        assert forall|j: int| 0 <= j < f.len() implies (#[trigger] f[j]).0@ != k@ by {
                            let j2 = if j < i { j } else { j + 1 };
                            assert(f[j] == e[j2]);
                            if j2 < i {
                                assert(e[j2].0@ != e[i as int].0@);
                            } else {
                                assert(e[i as int].0@ != e[j2].0@);
                            }
                        }
                        lemma_lookup_absent(f, k@);
                    }
                }
                let (_, v) = self.entries.remove(i);
                Some(v)
            },
            None => None,
        }
    }

    /// Sets the value of key `k` (`HashMap::insert`).
    pub fn insert(&mut self, k: &str, v: V)
        ensures
            distinct_keys(old(self).entries@) ==> distinct_keys(final(self).entries@),
            forall|q: Seq<char>| #[trigger] table_lookup(final(self).entries@, q) == if q == k@ {
                Some(v)
            } else {
                table_lookup(old(self).entries@, q)
            },
    {
        proof {
            lemma_position(self.entries@, k@);
        }
        let key = own(k);
        match self.position(k) {
            Some(i) => {
                let ghost e = self.entries@;
                proof {
                    if distinct_keys(e) {
                        let f = e.update(i as int, (key, v));
                        assert forall|a: int, b: int| 0 <= a < b < f.len() implies (#[trigger] f[a]).0@ != (#[trigger] f[b]).0@ by {
                            assert(f[a].0@ == e[a].0@ && f[b].0@ == e[b].0@);
                        }
                    }
                    assert forall|q: Seq<char>| #[trigger] table_lookup(e.update(i as int, (key, v)), q) == if q == k@ {
                        Some(v)
                    } else {
                        table_lookup(e, q)
                    } by {
                        lemma_lookup_update(e, i as int, k@, v, q);
                    }
                }
                self.entries.set(i, (key, v));
            },
            None => {
                let ghost e = self.entries@;
                proof {
                    if distinct_keys(e) {
                        let f = e.push((key, v));
                        assert forall|a: int, b: int| 0 <= a < b < f.len() implies (#[trigger] f[a]).0@ != (#[trigger] f[b]).0@ by {
                            if b == e.len() {
                                assert(f[a] == e[a]);
                                if e[a].0@ == k@ {
                                    lemma_position(e, k@);
                                    assert(table_position(e, k@) <= a);
                                }
                            }
                        }
                    }
                    assert forall|q: Seq<char>| #[trigger] table_lookup(e.push((key, v)), q) == if q == k@ {
                        Some(v)
                    } else {
                        table_lookup(e, q)
                    } by {
                        lemma_lookup_push(e, key, v, q);
                    }
                }
                self.entries.push((key, v));
            },
        }
    }
}

} // verus!
