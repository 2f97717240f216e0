//! A map from strings to values, kept as the list of its insertions: the
//! last insertion of a key is the one that counts.

use crate::text::str_eq;
use vstd::prelude::*;

verus! {

/// A map from strings to values.
pub struct TextMap<V> {
    pub entries: Vec<(String, V)>,
}

/// The index of the last of the first `n` entries whose key is `key`, or
/// -1 if none has it.
pub open spec fn last_index<V>(entries: Seq<(String, V)>, key: Seq<char>, n: int) -> int
    decreases n,
{
    if n <= 0 {
        -1
    } else if entries[n - 1].0@ == key {
        n - 1
    } else {
        last_index(entries, key, n - 1)
    }
}

/// The last index of a key lies among the first `n` entries, holds the key,
/// and no later one of them does.
pub proof fn lemma_last_index<V>(entries: Seq<(String, V)>, key: Seq<char>, n: int)
    requires
        0 <= n <= entries.len(),
    ensures
        -1 <= last_index(entries, key, n) < n,
        last_index(entries, key, n) >= 0 ==> entries[last_index(entries, key, n)].0@ == key,
        forall|j: int| last_index(entries, key, n) < j < n ==> (#[trigger] entries[j]).0@ != key,
    decreases n,
{
    if n > 0 && entries[n - 1].0@ != key {
        lemma_last_index(entries, key, n - 1);
    }
}

/// The map that a list of insertions stands for.
pub open spec fn map_of<V>(entries: Seq<(String, V)>) -> Map<Seq<char>, V> {
    Map::new(
        |k: Seq<char>| last_index(entries, k, entries.len() as int) >= 0,
        |k: Seq<char>| entries[last_index(entries, k, entries.len() as int)].1,
    )
}

impl<V> View for TextMap<V> {
    type V = Map<Seq<char>, V>;

    open spec fn view(&self) -> Map<Seq<char>, V> {
        map_of(self.entries@)
    }
}

impl<V> TextMap<V> {
    /// The empty map.
    pub fn new() -> (r: TextMap<V>)
        ensures
            r@ == Map::<Seq<char>, V>::empty(),
    {
        TextMap { entries: Vec::new() }
    }

    /// The value of `key`, if it has one.
    pub fn get(&self, key: &str) -> (r: Option<&V>)
        ensures
            match r {
                Some(v) => self@.contains_key(key@) && *v == self@[key@],
                None => !self@.contains_key(key@),
            },
    {
        let mut i: usize = self.entries.len();
        while i > 0
            invariant
                i <= self.entries.len(),
                last_index(self.entries@, key@, self.entries@.len() as int) == last_index(
                    self.entries@,
                    key@,
                    i as int,
                ),
            decreases i,
        {
            i -= 1;
            if str_eq(self.entries[i].0.as_str(), key) {
                return Some(&self.entries[i].1);
            }
        }
        None
    }

    /// Whether `key` has a value.
    pub fn contains_key(&self, key: &str) -> (r: bool)
        ensures
            r == self@.contains_key(key@),
    {
        self.get(key).is_some()
    }

    /// Gives `key` the value `value`, in place of the value that it had.
    pub fn insert(&mut self, key: String, value: V)
        ensures
            final(self)@ == old(self)@.insert(key@, value),
    {
        let ghost before = self.entries@;
        self.entries.push((key, value));
        proof {
            let after = self.entries@;
            assert forall|k: Seq<char>|
                last_index(after, k, after.len() as int) == if k == key@ {
                    before.len() as int
                } else {
                    last_index(before, k, before.len() as int)
                } by {
                if k != key@ {
                    lemma_last_index_prefix(before, after, k, before.len() as int);
                }
            }
            assert forall|k: Seq<char>| #[trigger]
                last_index(before, k, before.len() as int) >= 0 implies after[last_index(
                before,
                k,
                before.len() as int,
            )] == before[last_index(before, k, before.len() as int)] by {
                lemma_last_index(before, k, before.len() as int);
            }
        }
    }
}

proof fn lemma_last_index_prefix<V>(
    a: Seq<(String, V)>,
    b: Seq<(String, V)>,
    key: Seq<char>,
    n: int,
)
    requires
        0 <= n <= a.len(),
        n <= b.len(),
        forall|j: int| 0 <= j < n ==> a[j] == b[j],
    ensures
        last_index(a, key, n) == last_index(b, key, n),
    decreases n,
{
    if n > 0 {
        lemma_last_index_prefix(a, b, key, n - 1);
    }
}

} // verus!
