//! A small map from text keys to values, kept in insertion order.
//!
//! The registries of the host are keyed by identifiers and are small; an
//! ordered list of entries with distinct keys serves them all, and listing
//! the entries always gives the same order. A hash map keyed by `String`
//! would not do here: nothing can be proved of its contents, since vstd
//! models the hashing of integers and booleans only.

use vstd::prelude::*;

verus! {

/// One entry of a [`TextMap`].
pub struct Entry<V> {
    key: String,
    value: V,
}

/// No two entries share a key.
pub closed spec fn keys_distinct<V>(s: Seq<Entry<V>>) -> bool {
    forall|i: int, j: int|
        0 <= i < s.len() && 0 <= j < s.len() && i != j ==> (#[trigger] s[i]).key@ != (
        #[trigger] s[j]).key@
}

/// Some entry has the key `k`.
pub closed spec fn has_key<V>(s: Seq<Entry<V>>, k: Seq<char>) -> bool {
    exists|i: int| 0 <= i < s.len() && (#[trigger] s[i]).key@ == k
}

/// The position of the entry with the key `k`.
pub closed spec fn index_of<V>(s: Seq<Entry<V>>, k: Seq<char>) -> int {
    choose|i: int| 0 <= i < s.len() && (#[trigger] s[i]).key@ == k
}

/// The map that a list of entries stands for.
pub closed spec fn as_map<V>(s: Seq<Entry<V>>) -> Map<Seq<char>, V> {
    Map::new(|k: Seq<char>| has_key(s, k), |k: Seq<char>| s[index_of(s, k)].value)
}

/// The keys of a list of entries, in order.
pub closed spec fn keys_of<V>(s: Seq<Entry<V>>) -> Seq<Seq<char>> {
    Seq::new(s.len(), |i: int| s[i].key@)
}

proof fn lemma_index<V>(s: Seq<Entry<V>>, k: Seq<char>, i: int)
    requires
        keys_distinct(s),
        0 <= i < s.len(),
        s[i].key@ == k,
    ensures
        has_key(s, k),
        index_of(s, k) == i,
        as_map(s).contains_key(k),
        as_map(s)[k] == s[i].value,
{
    let j = index_of(s, k);
    assert(0 <= j < s.len() && s[j].key@ == k);
}

proof fn lemma_absent<V>(s: Seq<Entry<V>>, k: Seq<char>)
    requires
        forall|i: int| 0 <= i < s.len() ==> (#[trigger] s[i]).key@ != k,
    ensures
        !has_key(s, k),
        !as_map(s).contains_key(k),
{
}

proof fn lemma_push<V>(s: Seq<Entry<V>>, e: Entry<V>)
    requires
        keys_distinct(s),
        !has_key(s, e.key@),
    ensures
        keys_distinct(s.push(e)),
        as_map(s.push(e)) == as_map(s).insert(e.key@, e.value),
        keys_of(s.push(e)) == keys_of(s).push(e.key@),
{
    let t = s.push(e);
    assert forall|i: int, j: int| 0 <= i < t.len() && 0 <= j < t.len() && i != j implies (
    #[trigger] t[i]).key@ != (#[trigger] t[j]).key@ by {
        if i < s.len() && j < s.len() {
            assert(t[i] == s[i] && t[j] == s[j]);
        } else if i < s.len() {
            assert(t[i] == s[i]);
        } else {
            assert(t[j] == s[j]);
        }
    }
    assert forall|k: Seq<char>| has_key(t, k) <==> (has_key(s, k) || k == e.key@) by {
        if has_key(t, k) {
            let i = index_of(t, k);
            if i < s.len() {
                assert(s[i].key@ == k);
            }
        }
        if has_key(s, k) {
            let i = index_of(s, k);
            assert(t[i].key@ == k);
        }
        if k == e.key@ {
            assert(t[s.len() as int].key@ == k);
        }
    }
    assert forall|k: Seq<char>| has_key(t, k) implies #[trigger] as_map(t)[k] == as_map(s).insert(
        e.key@,
        e.value,
    )[k] by {
        if k == e.key@ {
            lemma_index(t, k, s.len() as int);
        } else {
            let i = index_of(s, k);
            assert(t[i] == s[i]);
            lemma_index(t, k, i);
        }
    }
    assert(as_map(t) =~= as_map(s).insert(e.key@, e.value));
    assert(keys_of(t) =~= keys_of(s).push(e.key@));
}

proof fn lemma_remove<V>(s: Seq<Entry<V>>, i: int)
    requires
        keys_distinct(s),
        0 <= i < s.len(),
    ensures
        keys_distinct(s.remove(i)),
        as_map(s.remove(i)) == as_map(s).remove(s[i].key@),
        keys_of(s.remove(i)) == keys_of(s).remove(i),
        !has_key(s.remove(i), s[i].key@),
{
    let t = s.remove(i);
    let gone = s[i].key@;
    assert forall|a: int| 0 <= a < t.len() implies #[trigger] t[a] == s[if a < i {
        a
    } else {
        a + 1
    }] by {}
    assert forall|a: int, b: int| 0 <= a < t.len() && 0 <= b < t.len() && a != b implies (
    #[trigger] t[a]).key@ != (#[trigger] t[b]).key@ by {
        let a2 = if a < i { a } else { a + 1 };
        let b2 = if b < i { b } else { b + 1 };
        assert(t[a] == s[a2] && t[b] == s[b2]);
    }
    assert forall|k: Seq<char>| has_key(t, k) <==> (has_key(s, k) && k != gone) by {
        if has_key(t, k) {
            let a = index_of(t, k);
            let a2 = if a < i { a } else { a + 1 };
            assert(t[a] == s[a2]);
            assert(s[a2].key@ == k);
        }
        if has_key(s, k) && k != gone {
            let a = index_of(s, k);
            let a2 = if a < i { a } else { a - 1 };
            assert(t[a2] == s[a]);
            assert(t[a2].key@ == k);
        }
    }
    assert forall|k: Seq<char>| has_key(t, k) implies #[trigger] as_map(t)[k] == as_map(s)[k] by {
        let a = index_of(t, k);
        let a2 = if a < i { a } else { a + 1 };
        assert(t[a] == s[a2]);
        lemma_index(s, k, a2);
    }
    assert(as_map(t) =~= as_map(s).remove(gone));
    assert(keys_of(t) =~= keys_of(s).remove(i));
}

proof fn lemma_insert_at<V>(s: Seq<Entry<V>>, i: int, e: Entry<V>)
    requires
        keys_distinct(s),
        !has_key(s, e.key@),
        0 <= i <= s.len(),
    ensures
        keys_distinct(s.insert(i, e)),
        as_map(s.insert(i, e)) == as_map(s).insert(e.key@, e.value),
        keys_of(s.insert(i, e)) == keys_of(s).insert(i, e.key@),
{
    let t = s.insert(i, e);
    assert forall|a: int| 0 <= a < t.len() && a != i implies #[trigger] t[a] == s[if a < i {
        a
    } else {
        a - 1
    }] by {}
    assert(t[i] == e);
    assert forall|a: int, b: int| 0 <= a < t.len() && 0 <= b < t.len() && a != b implies (
    #[trigger] t[a]).key@ != (#[trigger] t[b]).key@ by {
        let a2 = if a < i { a } else { a - 1 };
        let b2 = if b < i { b } else { b - 1 };
        if a != i && b != i {
            assert(t[a] == s[a2] && t[b] == s[b2]);
        } else if a == i {
            assert(t[b] == s[b2]);
        } else {
            assert(t[a] == s[a2]);
        }
    }
    assert forall|k: Seq<char>| has_key(t, k) <==> (has_key(s, k) || k == e.key@) by {
        if has_key(t, k) {
            let a = index_of(t, k);
            if a != i {
                let a2 = if a < i { a } else { a - 1 };
                assert(t[a] == s[a2]);
                assert(s[a2].key@ == k);
            }
        }
        if has_key(s, k) {
            let a = index_of(s, k);
            let a2 = if a < i { a } else { a + 1 };
            assert(t[a2] == s[a]);
            assert(t[a2].key@ == k);
        }
        if k == e.key@ {
            assert(t[i].key@ == k);
        }
    }
    assert forall|k: Seq<char>| has_key(t, k) implies #[trigger] as_map(t)[k] == as_map(s).insert(
        e.key@,
        e.value,
    )[k] by {
        if k == e.key@ {
            lemma_index(t, k, i);
        } else {
            let a = index_of(s, k);
            let a2 = if a < i { a } else { a + 1 };
            assert(t[a2] == s[a]);
            lemma_index(t, k, a2);
        }
    }
    assert(as_map(t) =~= as_map(s).insert(e.key@, e.value));
    assert(keys_of(t) =~= keys_of(s).insert(i, e.key@));
}

/// A map from text to `V` that remembers the order in which keys came in.
pub struct TextMap<V> {
    entries: Vec<Entry<V>>,
}

impl<V> View for TextMap<V> {
    type V = Map<Seq<char>, V>;

    closed spec fn view(&self) -> Map<Seq<char>, V> {
        as_map(self.entries@)
    }
}

impl<V> TextMap<V> {
    /// No key occurs twice.
    pub closed spec fn wf(&self) -> bool {
        keys_distinct(self.entries@)
    }

    /// The keys in the order in which they were first inserted.
    pub closed spec fn keys(&self) -> Seq<Seq<char>> {
        keys_of(self.entries@)
    }

    /// The keys list exactly the domain of the map, each key once.
    pub proof fn lemma_keys(&self)
        requires
            self.wf(),
        ensures
            forall|k: Seq<char>| self@.contains_key(k) <==> self.keys().contains(k),
            forall|i: int, j: int|
                0 <= i < self.keys().len() && 0 <= j < self.keys().len() && i != j
                    ==> self.keys()[i] != self.keys()[j],
    {
        let s = self.entries@;
        assert forall|k: Seq<char>| self@.contains_key(k) <==> self.keys().contains(k) by {
            if self@.contains_key(k) {
                let i = index_of(s, k);
                assert(keys_of(s)[i] == k);
            }
            if self.keys().contains(k) {
                let i = choose|i: int| 0 <= i < keys_of(s).len() && keys_of(s)[i] == k;
                assert(s[i].key@ == k);
            }
        }
        assert forall|i: int, j: int|
            0 <= i < self.keys().len() && 0 <= j < self.keys().len() && i != j implies self.keys()[i]
            != self.keys()[j] by {
            assert(s[i].key@ != s[j].key@);
        }
    }

    pub fn new() -> (m: Self)
        ensures
            m.wf(),
            m@ == Map::<Seq<char>, V>::empty(),
            m.keys() == Seq::<Seq<char>>::empty(),
    {
        let m = TextMap { entries: Vec::new() };
        assert(m@ =~= Map::<Seq<char>, V>::empty());
        assert(m.keys() =~= Seq::<Seq<char>>::empty());
        m
    }

    /// The number of entries.
    pub fn len(&self) -> (n: usize)
        ensures
            n == self.keys().len(),
    {
        self.entries.len()
    }

    fn find(&self, key: &String) -> (r: Option<usize>)
        ensures
            r is Some ==> r->Some_0 < self.entries@.len() && self.entries@[r->Some_0 as int].key@
                == key@,
            r is None ==> !has_key(self.entries@, key@),
    {
        let mut i: usize = 0;
        while i < self.entries.len()
            invariant
                i <= self.entries@.len(),
                forall|j: int| 0 <= j < i ==> (#[trigger] self.entries@[j]).key@ != key@,
            decreases self.entries@.len() - i,
        {
            if self.entries[i].key == *key {
                return Some(i);
            }
            i = i + 1;
        }
        proof {
            lemma_absent(self.entries@, key@);
        }
        None
    }

    /// Whether `key` has a value.
    pub fn contains_key(&self, key: &str) -> (b: bool)
        requires
            self.wf(),
        ensures
            b == self@.contains_key(key@),
    {
        let k = key.to_string();
        let r = self.find(&k);
        proof {
            if let Some(i) = r {
                lemma_index(self.entries@, key@, i as int);
            }
        }
        r.is_some()
    }

    /// The value of `key`, if it has one.
    pub fn get(&self, key: &str) -> (r: Option<&V>)
        requires
            self.wf(),
        ensures
            r is Some <==> self@.contains_key(key@),
            r is Some ==> *r->Some_0 == self@[key@],
    {
        let k = key.to_string();
        match self.find(&k) {
            Some(i) => {
                proof {
                            lemma_index(self.entries@, key@, i as int);
                }
                Some(&self.entries[i].value)
            },
            None => None,
        }
    }

    /// The key at position `i` of the insertion order.
    pub fn key_at(&self, i: usize) -> (k: &String)
        requires
            self.wf(),
            i < self.keys().len(),
        ensures
            k@ == self.keys()[i as int],
            self@.contains_key(k@),
    {
        proof {
            lemma_index(self.entries@, self.entries@[i as int].key@, i as int);
        }
        &self.entries[i].key
    }

    /// The value at position `i` of the insertion order.
    pub fn value_at(&self, i: usize) -> (v: &V)
        requires
            self.wf(),
            i < self.keys().len(),
        ensures
            self@.contains_key(self.keys()[i as int]),
            *v == self@[self.keys()[i as int]],
    {
        proof {
            lemma_index(self.entries@, self.entries@[i as int].key@, i as int);
        }
        &self.entries[i].value
    }

    /// Gives `key` the value `value`, and returns the value it had.
    ///
    /// A key that is already present keeps its place in the order; a new
    /// key goes to the end.
    pub fn insert(&mut self, key: String, value: V) -> (previous: Option<V>)
        requires
            old(self).wf(),
        ensures
            final(self).wf(),
            final(self)@ == old(self)@.insert(key@, value),
            previous is Some <==> old(self)@.contains_key(key@),
            previous is Some ==> previous->Some_0 == old(self)@[key@],
            old(self)@.contains_key(key@) ==> final(self).keys() == old(self).keys(),
            !old(self)@.contains_key(key@) ==> final(self).keys() == old(self).keys().push(key@),
    {
        let found = self.find(&key);
        let entry = Entry { key, value };
        match found {
            Some(i) => {
                proof {
                    lemma_index(self.entries@, entry.key@, i as int);
                    lemma_remove(self.entries@, i as int);
                }
                let gone = self.entries.remove(i);
                proof {
                    lemma_insert_at(self.entries@, i as int, entry);
                    assert(old(self)@.remove(entry.key@).insert(entry.key@, entry.value)
                        =~= old(self)@.insert(entry.key@, entry.value));
                    assert(keys_of(old(self).entries@).remove(i as int).insert(i as int, entry.key@)
                        =~= keys_of(old(self).entries@));
                }
                self.entries.insert(i, entry);
                Some(gone.value)
            },
            None => {
                proof {
                    lemma_push(self.entries@, entry);
                }
                self.entries.push(entry);
                None
            },
        }
    }

    /// Takes `key` out of the map, and returns the value it had.
    pub fn remove(&mut self, key: &str) -> (previous: Option<V>)
        requires
            old(self).wf(),
        ensures
            final(self).wf(),
            final(self)@ == old(self)@.remove(key@),
            previous is Some <==> old(self)@.contains_key(key@),
            previous is Some ==> previous->Some_0 == old(self)@[key@],
    {
        let k = key.to_string();
        match self.find(&k) {
            Some(i) => {
                proof {
                    lemma_index(self.entries@, key@, i as int);
                    lemma_remove(self.entries@, i as int);
                }
                let gone = self.entries.remove(i);
                Some(gone.value)
            },
            None => {
                assert(old(self)@.remove(key@) =~= old(self)@);
                None
            },
        }
    }
}

} // verus!
