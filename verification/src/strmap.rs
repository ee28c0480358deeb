//! A map keyed by strings, kept as a list of entries with distinct keys.

use vstd::prelude::*;

use crate::text::str_equal;

verus! {

broadcast use vstd::seq_lib::seq_to_set_is_finite;

/// Values that can be copied with their view kept.
pub trait Duplicate: View + Sized {
    fn duplicate(&self) -> (r: Self)
        ensures
            r@ == self@,
    ;
}

impl Duplicate for String {
    fn duplicate(&self) -> (r: String) {
        self.clone()
    }
}

/// Whether entry `i` of `s` has key `k`.
pub open spec fn has_key_at<V>(s: Seq<(String, V)>, k: Seq<char>, i: int) -> bool {
    0 <= i < s.len() && s[i].0@ == k
}

/// No two entries share a key.
pub open spec fn distinct_keys<V>(s: Seq<(String, V)>) -> bool {
    forall|i: int, j: int| 0 <= i < s.len() && 0 <= j < s.len() && i != j ==> s[i].0@ != s[j].0@
}

/// The keys of the entries, in order.
pub open spec fn key_seq<V>(s: Seq<(String, V)>) -> Seq<Seq<char>> {
    Seq::new(s.len(), |i: int| s[i].0@)
}

/// A position of `k` in `keys`.
pub open spec fn key_index(keys: Seq<Seq<char>>, k: Seq<char>) -> int {
    choose|i: int| 0 <= i < keys.len() && keys[i] == k
}

/// The map that a list of entries with distinct keys stands for.
pub open spec fn map_of<V: View>(s: Seq<(String, V)>) -> Map<Seq<char>, V::V> {
    Map::new(
        |k: Seq<char>| exists|i: int| has_key_at(s, k, i),
        |k: Seq<char>| s[key_index(key_seq(s), k)].1@,
    )
}

pub proof fn lemma_map_of_at<V: View>(s: Seq<(String, V)>, i: int)
    requires
        distinct_keys(s),
        0 <= i < s.len(),
    ensures
        map_of(s).contains_key(s[i].0@),
        map_of(s)[s[i].0@] == s[i].1@,
{
    let k = s[i].0@;
    assert(has_key_at(s, k, i));
    assert(key_seq(s)[i] == k);
    let j = key_index(key_seq(s), k);
    assert(0 <= j < s.len() && key_seq(s)[j] == k);
    assert(j == i);
}

pub proof fn lemma_map_of_dom<V: View>(s: Seq<(String, V)>)
    requires
        distinct_keys(s),
    ensures
        map_of(s).dom() == key_seq(s).to_set(),
        map_of(s).dom().finite(),
        map_of(s).len() == s.len(),
{
    assert forall|k: Seq<char>| map_of(s).dom().contains(k) <==> key_seq(s).to_set().contains(k) by {
        if map_of(s).dom().contains(k) {
            let i = choose|i: int| has_key_at(s, k, i);
            assert(key_seq(s)[i] == k);
        }
        if key_seq(s).to_set().contains(k) {
            let i = choose|i: int| 0 <= i < key_seq(s).len() && key_seq(s)[i] == k;
            assert(has_key_at(s, k, i));
        }
    }
    assert(map_of(s).dom() =~= key_seq(s).to_set());
    assert(key_seq(s).no_duplicates());
    key_seq(s).unique_seq_to_set();
}

proof fn lemma_map_of_push<V: View>(s: Seq<(String, V)>, k: String, v: V)
    requires
        distinct_keys(s),
        !map_of(s).contains_key(k@),
    ensures
        distinct_keys(s.push((k, v))),
        map_of(s.push((k, v))) == map_of(s).insert(k@, v@),
{
    let t = s.push((k, v));
    assert forall|i: int| 0 <= i < s.len() implies s[i].0@ != k@ by {
        if s[i].0@ == k@ {
            assert(has_key_at(s, k@, i));
        }
    }
    assert(distinct_keys(t));
    assert forall|q: Seq<char>| #[trigger] map_of(t).contains_key(q) == map_of(s).insert(k@, v@).contains_key(q) by {
        if map_of(t).contains_key(q) {
            let i = choose|i: int| has_key_at(t, q, i);
            if i < s.len() {
                assert(has_key_at(s, q, i));
            }
        }
        if map_of(s).contains_key(q) {
            let i = choose|i: int| has_key_at(s, q, i);
            assert(has_key_at(t, q, i));
        }
        if q == k@ {
            assert(has_key_at(t, q, s.len() as int));
        }
    }
    assert forall|q: Seq<char>| #[trigger] map_of(t).contains_key(q) implies map_of(t)[q] == map_of(s).insert(k@, v@)[q] by {
        let i = choose|i: int| has_key_at(t, q, i);
        lemma_map_of_at(t, i);
        if i < s.len() {
            lemma_map_of_at(s, i);
        }
    }
    assert(map_of(t) =~= map_of(s).insert(k@, v@));
}

proof fn lemma_map_of_update<V: View>(s: Seq<(String, V)>, i: int, k: String, v: V)
    requires
        distinct_keys(s),
        0 <= i < s.len(),
        s[i].0@ == k@,
    ensures
        distinct_keys(s.update(i, (k, v))),
        map_of(s.update(i, (k, v))) == map_of(s).insert(k@, v@),
{
    let t = s.update(i, (k, v));
    assert(distinct_keys(t));
    lemma_map_of_at(s, i);
    assert forall|q: Seq<char>| #[trigger] map_of(t).contains_key(q) == map_of(s).insert(k@, v@).contains_key(q) by {
        if map_of(t).contains_key(q) {
            let j = choose|j: int| has_key_at(t, q, j);
            assert(has_key_at(s, q, j));
        }
        if map_of(s).contains_key(q) {
            let j = choose|j: int| has_key_at(s, q, j);
            assert(has_key_at(t, q, j));
        }
    }
    assert forall|q: Seq<char>| #[trigger] map_of(t).contains_key(q) implies map_of(t)[q] == map_of(s).insert(k@, v@)[q] by {
        let j = choose|j: int| has_key_at(t, q, j);
        lemma_map_of_at(t, j);
        if j != i {
            lemma_map_of_at(s, j);
        }
    }
    assert(map_of(t) =~= map_of(s).insert(k@, v@));
}

proof fn lemma_map_of_remove<V: View>(s: Seq<(String, V)>, i: int)
    requires
        distinct_keys(s),
        0 <= i < s.len(),
    ensures
        distinct_keys(s.remove(i)),
        map_of(s.remove(i)) == map_of(s).remove(s[i].0@),
{
    let k = s[i].0@;
    let t = s.remove(i);
    assert forall|a: int, b: int| 0 <= a < t.len() && 0 <= b < t.len() && a != b implies t[a].0@ != t[b].0@ by {
        let a2 = if a < i { a } else { a + 1 };
        let b2 = if b < i { b } else { b + 1 };
        assert(t[a] == s[a2]);
        assert(t[b] == s[b2]);
    }
    assert forall|q: Seq<char>| #[trigger] map_of(t).contains_key(q) == map_of(s).remove(k).contains_key(q) by {
        if map_of(t).contains_key(q) {
            let j = choose|j: int| has_key_at(t, q, j);
            let j2 = if j < i { j } else { j + 1 };
            assert(t[j] == s[j2]);
            assert(has_key_at(s, q, j2));
            assert(q != k);
        }
        if map_of(s).remove(k).contains_key(q) {
            let j = choose|j: int| has_key_at(s, q, j);
            assert(j != i);
            let j2 = if j < i { j } else { j - 1 };
            assert(t[j2] == s[j]);
            assert(has_key_at(t, q, j2));
        }
    }
    assert forall|q: Seq<char>| #[trigger] map_of(t).contains_key(q) implies map_of(t)[q] == map_of(s).remove(k)[q] by {
        let j = choose|j: int| has_key_at(t, q, j);
        lemma_map_of_at(t, j);
        let j2 = if j < i { j } else { j + 1 };
        assert(t[j] == s[j2]);
        lemma_map_of_at(s, j2);
    }
    assert(map_of(t) =~= map_of(s).remove(k));
}

/// A map from strings to values. Its entries keep the order in which keys
/// were first inserted.
#[derive(Debug, PartialEq, Eq)]
pub struct StrMap<V> {
    entries: Vec<(String, V)>,
}

impl<V> StrMap<V> {
    /// No two entries share a key.
    #[verifier::type_invariant]
    spec fn keys_distinct(self) -> bool {
        distinct_keys(self.entries@)
    }

    /// The entries of the map, in order.
    pub closed spec fn pairs(self) -> Seq<(String, V)> {
        self.entries@
    }
}

impl<V: View> View for StrMap<V> {
    type V = Map<Seq<char>, V::V>;

    open spec fn view(&self) -> Map<Seq<char>, V::V> {
        map_of(self.pairs())
    }
}

impl<V: View> StrMap<V> {
    /// An empty map.
    pub fn new() -> (r: Self)
        ensures
            r@ == Map::<Seq<char>, V::V>::empty(),
            r.pairs().len() == 0,
    {
        let r = StrMap { entries: Vec::new() };
        assert(map_of(r.entries@) =~= Map::<Seq<char>, V::V>::empty());
        r
    }

    /// The entries of the map, in order.
    pub fn entries(&self) -> (r: &Vec<(String, V)>)
        ensures
            r@ == self.pairs(),
            self@ == map_of(r@),
            distinct_keys(r@),
    {
        proof {
            use_type_invariant(self);
        }
        &self.entries
    }

    /// The number of entries.
    pub fn len(&self) -> (r: usize)
        ensures
            r == self@.len(),
            r == self.pairs().len(),
    {
        proof {
            use_type_invariant(self);
            lemma_map_of_dom(self.entries@);
        }
        self.entries.len()
    }

    pub fn is_empty(&self) -> (r: bool)
        ensures
            r == (self@ == Map::<Seq<char>, V::V>::empty()),
            r == (self@.len() == 0),
    {
        proof {
            use_type_invariant(self);
            lemma_map_of_dom(self.entries@);
            if self.entries@.len() > 0 {
                lemma_map_of_at(self.entries@, 0);
                assert(self@.contains_key(self.entries@[0].0@));
            } else {
                assert(self@ =~= Map::<Seq<char>, V::V>::empty());
            }
        }
        self.entries.len() == 0
    }

    /// The index of the entry with key `key`.
    fn position_in(entries: &Vec<(String, V)>, key: &str) -> (r: Option<usize>)
        ensures
            r matches Some(i) ==> has_key_at(entries@, key@, i as int),
            r is None ==> !map_of(entries@).contains_key(key@),
    {
        let mut i: usize = 0;
        while i < entries.len()
            invariant
                i <= entries@.len(),
                forall|j: int| 0 <= j < i ==> entries@[j].0@ != key@,
            decreases entries@.len() - i,
        {
            if str_equal(entries[i].0.as_str(), key) {
                return Some(i);
            }
            i = i + 1;
        }
        None
    }

    /// The value for `key`.
    pub fn get(&self, key: &str) -> (r: Option<&V>)
        ensures
            r matches Some(v) ==> self@.contains_key(key@) && self@[key@] == v@,
            r is None ==> !self@.contains_key(key@),
    {
        proof {
            use_type_invariant(self);
        }
        match Self::position_in(&self.entries, key) {
            Some(i) => {
                proof {
                    lemma_map_of_at(self.entries@, i as int);
                }
                Some(&self.entries[i].1)
            },
            None => None,
        }
    }

    pub fn contains_key(&self, key: &str) -> (r: bool)
        ensures
            r == self@.contains_key(key@),
    {
        proof {
            use_type_invariant(self);
        }
        match Self::position_in(&self.entries, key) {
            Some(i) => {
                proof {
                    lemma_map_of_at(self.entries@, i as int);
                }
                true
            },
            None => false,
        }
    }

    /// Sets the value for `key`; a new key goes after the existing ones.
    pub fn insert(&mut self, key: String, value: V)
        ensures
            final(self)@ == old(self)@.insert(key@, value@),
            !old(self)@.contains_key(key@) ==> final(self).pairs() == old(self).pairs().push((key, value)),
            old(self)@.contains_key(key@) ==> exists|i: int|
                has_key_at(old(self).pairs(), key@, i) && final(self).pairs() == old(self).pairs().update(i, (key, value)),
    {
        proof {
            use_type_invariant(&*self);
        }
        let mut entries = Vec::new();
        std::mem::swap(&mut entries, &mut self.entries);
        let ghost before = entries@;
        let pos = Self::position_in(&entries, key.as_str());
        if let Some(i) = pos {
            proof {
                lemma_map_of_update(before, i as int, key, value);
            }
            entries.set(i, (key, value));
        } else {
            proof {
                lemma_map_of_push(before, key, value);
            }
            entries.push((key, value));
        }
        self.entries = entries;
    }

    /// Removes the entry for `key`, handing back its value.
    pub fn remove(&mut self, key: &str) -> (r: Option<V>)
        ensures
            final(self)@ == old(self)@.remove(key@),
            r matches Some(v) ==> old(self)@.contains_key(key@) && old(self)@[key@] == v@,
            r is None <==> !old(self)@.contains_key(key@),
            r is None ==> final(self).pairs() == old(self).pairs(),
            r is Some ==> exists|i: int|
                has_key_at(old(self).pairs(), key@, i) && final(self).pairs() == old(self).pairs().remove(i),
    {
        proof {
            use_type_invariant(&*self);
        }
        let mut entries = Vec::new();
        std::mem::swap(&mut entries, &mut self.entries);
        let ghost before = entries@;
        let pos = Self::position_in(&entries, key);
        let mut r: Option<V> = None;
        if let Some(i) = pos {
            proof {
                lemma_map_of_at(before, i as int);
                lemma_map_of_remove(before, i as int);
            }
            let pair = entries.remove(i);
            proof {
                assert(before[i as int].1 == pair.1);
            }
            r = Some(pair.1);
        } else {
            proof {
                assert(map_of(before).remove(key@) =~= map_of(before));
            }
        }
        self.entries = entries;
        r
    }
}

impl<V: Duplicate> StrMap<V> {
    /// A copy of the map with the same entries in the same order.
    pub fn duplicate_map(&self) -> (r: Self)
        ensures
            r@ == self@,
            r.pairs().len() == self.pairs().len(),
            forall|i: int| 0 <= i < self.pairs().len() ==> (#[trigger] r.pairs()[i]).0@ == self.pairs()[i].0@ && r.pairs()[i].1@ == self.pairs()[i].1@,
    {
        proof {
            use_type_invariant(self);
        }
        let mut out: Vec<(String, V)> = Vec::new();
        let mut i: usize = 0;
        while i < self.entries.len()
            invariant
                i <= self.entries@.len(),
                out@.len() == i,
                forall|j: int| 0 <= j < i ==> (#[trigger] out@[j]).0@ == self.entries@[j].0@ && out@[j].1@ == self.entries@[j].1@,
            decreases self.entries@.len() - i,
        {
            out.push((self.entries[i].0.clone(), self.entries[i].1.duplicate()));
            i = i + 1;
        }
        proof {
            let a = out@;
            let b = self.entries@;
            assert forall|k: Seq<char>| #[trigger] map_of(a).contains_key(k) == map_of(b).contains_key(k) by {
                if map_of(a).contains_key(k) {
                    let j = choose|j: int| has_key_at(a, k, j);
                    assert(has_key_at(b, k, j));
                }
                if map_of(b).contains_key(k) {
                    let j = choose|j: int| has_key_at(b, k, j);
                    assert(has_key_at(a, k, j));
                }
            }
            assert forall|k: Seq<char>| #[trigger] map_of(a).contains_key(k) implies map_of(a)[k] == map_of(b)[k] by {
                assert(key_seq(a) =~= key_seq(b));
                let w = choose|j: int| has_key_at(a, k, j);
                assert(key_seq(a)[w] == k);
                let j = key_index(key_seq(a), k);
                assert(0 <= j < a.len());
            }
            assert(map_of(a) =~= map_of(b));
            if distinct_keys(a) {
                assert forall|x: int, y: int| 0 <= x < b.len() && 0 <= y < b.len() && x != y implies b[x].0@ != b[y].0@ by {
                    assert(a[x].0@ != a[y].0@);
                }
            }
            if distinct_keys(b) {
                assert forall|x: int, y: int| 0 <= x < a.len() && 0 <= y < a.len() && x != y implies a[x].0@ != a[y].0@ by {
                    assert(b[x].0@ != b[y].0@);
                }
            }
        }
        StrMap { entries: out }
    }
}

impl<V: Duplicate> Duplicate for StrMap<V> {
    fn duplicate(&self) -> (r: Self) {
        self.duplicate_map()
    }
}

} // verus!
