//! The header collection of requests and responses: a mapping from header
//! names to values with unique keys, kept in insertion order so that
//! serialization is deterministic.

use vstd::prelude::*;
use vstd::pervasive::VecAdditionalExecFns;
use crate::text::str_eq_str;

verus! {

/// The first position at or after `i` whose entry has key `k`, or
/// `entries.len()` if no entry does.
pub open spec fn find_key_from(
    entries: Seq<(Seq<char>, Seq<char>)>,
    i: int,
    k: Seq<char>,
) -> int
    decreases entries.len() - i,
{
    if i >= entries.len() {
        entries.len() as int
    } else if entries[i].0 == k {
        i
    } else {
        find_key_from(entries, i + 1, k)
    }
}

/// [`find_key_from`] stays between its starting point and the end of the
/// sequence, lands on `k` whenever it lands before the end, and passes over
/// no entry with key `k`.
pub proof fn lemma_find_key_from(entries: Seq<(Seq<char>, Seq<char>)>, i: int, k: Seq<char>)
    requires
        0 <= i <= entries.len(),
    ensures
        i <= find_key_from(entries, i, k) <= entries.len(),
        find_key_from(entries, i, k) < entries.len() ==> entries[find_key_from(entries, i, k)].0
            == k,
        forall|j: int| i <= j < find_key_from(entries, i, k) ==> entries[j].0 != k,
    decreases entries.len() - i,
{
    if i < entries.len() && entries[i].0 != k {
        lemma_find_key_from(entries, i + 1, k);
    }
}

/// Entering `k -> v`: the value of the first entry with key `k` is replaced,
/// or a new entry is appended when no entry has key `k`.
pub open spec fn spec_insert(
    entries: Seq<(Seq<char>, Seq<char>)>,
    k: Seq<char>,
    v: Seq<char>,
) -> Seq<(Seq<char>, Seq<char>)> {
    let i = find_key_from(entries, 0, k);
    if i < entries.len() {
        entries.update(i, (k, v))
    } else {
        entries.push((k, v))
    }
}

/// What looking `k` up yields: the value of the first entry with key `k`,
/// or `None` when no entry has that key.
pub open spec fn spec_lookup(entries: Seq<(Seq<char>, Seq<char>)>, k: Seq<char>) -> Option<
    Seq<char>,
> {
    let i = find_key_from(entries, 0, k);
    if i < entries.len() {
        Some(entries[i].1)
    } else {
        None
    }
}

/// The header sequence behaves as a mapping: after entering `k -> v`,
/// looking `k` up yields `v`, and looking any other key up yields exactly
/// what it yielded before.
pub proof fn lemma_insert_lookup(
    entries: Seq<(Seq<char>, Seq<char>)>,
    k: Seq<char>,
    v: Seq<char>,
    other: Seq<char>,
)
    ensures
        spec_lookup(spec_insert(entries, k, v), k) == Some(v),
        other != k ==> spec_lookup(spec_insert(entries, k, v), other) == spec_lookup(
            entries,
            other,
        ),
{
    let n = entries.len() as int;
    let i = find_key_from(entries, 0, k);
    let after = spec_insert(entries, k, v);
    lemma_find_key_from(entries, 0, k);
    lemma_find_key_from(after, 0, k);
    lemma_find_key_from(entries, 0, other);
    lemma_find_key_from(after, 0, other);
    let fk = find_key_from(after, 0, k);
    let fo = find_key_from(after, 0, other);
    let eo = find_key_from(entries, 0, other);
    if i < n {
        // An existing entry was updated in place; every key stays where it was.
        assert(forall|j: int| 0 <= j < n ==> after[j].0 == entries[j].0);
        assert(fk == i);
        if other != k {
            if eo < n {
                assert(after[eo].0 == other);
                assert(fo == eo);
                assert(eo != i);
            } else {
                assert(forall|j: int| 0 <= j < n ==> after[j].0 != other);
                assert(fo == n);
            }
        }
    } else {
        // No entry had key `k`; one was appended behind all existing ones.
        assert(after =~= entries.push((k, v)));
        assert(forall|j: int| 0 <= j < n ==> after[j].0 != k);
        assert(after[n].0 == k);
        assert(fk == n);
        if other != k {
            if eo < n {
                assert(after[eo].0 == other);
                assert(fo == eo);
            } else {
                assert(forall|j: int| 0 <= j < n + 1 ==> after[j].0 != other);
                assert(fo == n + 1);
            }
        }
    }
}

/// A header mapping. Keys are unique; entries keep the order in which their
/// keys were first inserted.
pub struct Headers {
    entries: Vec<(String, String)>,
}

impl View for Headers {
    type V = Seq<(Seq<char>, Seq<char>)>;

    closed spec fn view(&self) -> Seq<(Seq<char>, Seq<char>)> {
        Seq::new(self.entries@.len(), |i: int| (self.entries@[i].0@, self.entries@[i].1@))
    }
}

impl Headers {
    /// No two entries share a key.
    pub open spec fn wf(&self) -> bool {
        forall|i: int, j: int| 0 <= i < j < self@.len() ==> self@[i].0 != self@[j].0
    }

    /// An empty header mapping.
    pub fn new() -> (h: Headers)
        ensures
            h@ == Seq::<(Seq<char>, Seq<char>)>::empty(),
            h.wf(),
    {
        let h = Headers { entries: Vec::new() };
        proof {
            assert(h@ =~= Seq::<(Seq<char>, Seq<char>)>::empty());
        }
        h
    }

    /// The number of entries.
    pub fn len(&self) -> (n: usize)
        ensures
            n == self@.len(),
    {
        self.entries.len()
    }

    /// The key of the entry at position `i`.
    pub fn key_at(&self, i: usize) -> (k: &String)
        requires
            i < self@.len(),
        ensures
            k@ == self@[i as int].0,
    {
        &self.entries[i].0
    }

    /// The value of the entry at position `i`.
    pub fn value_at(&self, i: usize) -> (v: &String)
        requires
            i < self@.len(),
        ensures
            v@ == self@[i as int].1,
    {
        &self.entries[i].1
    }

    /// Enters `key -> value`, overwriting the value of an existing entry with
    /// the same key and appending a new entry otherwise.
    pub fn insert(&mut self, key: String, value: String)
        ensures
            final(self)@ == spec_insert(old(self)@, key@, value@),
            old(self).wf() ==> final(self).wf(),
    {
        let ghost before = self@;
        let n = self.entries.len();
        let mut i: usize = 0;
        while i < n
            invariant
                i <= n,
                n == self@.len(),
                self@ == before,
                before == old(self)@,
                self.entries@.len() == n,
                find_key_from(before, 0, key@) == find_key_from(before, i as int, key@),
            decreases n - i,
        {
            if str_eq_str(self.entries[i].0.as_str(), key.as_str()) {
                proof {
                    assert(find_key_from(before, 0, key@) == i);
                }
                self.entries.set(i, (key, value));
                proof {
                    assert(self@ =~= before.update(i as int, (key@, value@)));
                }
                return;
            }
            i = i + 1;
        }
        proof {
            assert(find_key_from(before, 0, key@) == before.len());
            lemma_find_key_from(before, 0, key@);
        }
        self.entries.push((key, value));
        proof {
            assert(self@ =~= before.push((key@, value@)));
        }
    }

    /// Looks a key up: the value of the unique entry with key `key`, or
    /// `None` when no entry has that key.
    pub fn get(&self, key: &str) -> (r: Option<&String>)
        ensures
            match r {
                Some(v) => spec_lookup(self@, key@) == Some(v@),
                None => spec_lookup(self@, key@) is None,
            },
    {
        let n = self.entries.len();
        let mut i: usize = 0;
        while i < n
            invariant
                i <= n,
                n == self@.len(),
                find_key_from(self@, 0, key@) == find_key_from(self@, i as int, key@),
            decreases n - i,
        {
            if str_eq_str(self.entries[i].0.as_str(), key) {
                return Some(&self.entries[i].1);
            }
            i = i + 1;
        }
        None
    }
}

} // verus!
