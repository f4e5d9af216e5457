//! A map keyed by names that remembers the order in which the names first came.

use vstd::prelude::*;

verus! {

/// Whether some entry has the key `k`.
pub open spec fn has_key<V>(entries: Seq<(String, V)>, k: Seq<char>) -> bool {
    exists|i: int| 0 <= i < entries.len() && (#[trigger] entries[i]).0@ == k
}

/// The position of an entry with the key `k`.
pub open spec fn key_position<V>(entries: Seq<(String, V)>, k: Seq<char>) -> int {
    choose|i: int| 0 <= i < entries.len() && (#[trigger] entries[i]).0@ == k
}

/// No two entries share a key.
pub open spec fn distinct_keys<V>(entries: Seq<(String, V)>) -> bool {
    forall|i: int, j: int|
        #![trigger entries[i], entries[j]]
        0 <= i < j < entries.len() ==> entries[i].0@ != entries[j].0@
}

/// Where no two entries share a key, an entry stands where its key is looked for.
proof fn lemma_position<V>(entries: Seq<(String, V)>, i: int)
    requires
        distinct_keys(entries),
        0 <= i < entries.len(),
    ensures
        key_position(entries, entries[i].0@) == i,
{
    let k = entries[i].0@;
    assert(has_key(entries, k));
    let j = key_position(entries, k);
    assert(0 <= j < entries.len() && entries[j].0@ == k);
    if j < i {
        assert(entries[j].0@ != entries[i].0@);
    }
    if i < j {
        assert(entries[i].0@ != entries[j].0@);
    }
}

/// The value behind an optional reference.
pub open spec fn unref<V>(r: Option<&V>) -> Option<V> {
    match r {
        Some(v) => Some(*v),
        None => None,
    }
}

/// A map from names to values. Every name occurs once; iteration follows the order in which the
/// names were first inserted.
#[derive(Debug)]
pub struct NameMap<V> {
    entries: Vec<(String, V)>,
}

impl<V> View for NameMap<V> {
    type V = Map<Seq<char>, V>;

    open spec fn view(&self) -> Map<Seq<char>, V> {
        Map::new(
            |k: Seq<char>| has_key(self.entries_seq(), k),
            |k: Seq<char>| self.entries_seq()[key_position(self.entries_seq(), k)].1,
        )
    }
}

impl<V> NameMap<V> {
    /// The entries in iteration order.
    pub closed spec fn entries_seq(self) -> Seq<(String, V)> {
        self.entries@
    }

    #[verifier::type_invariant]
    spec fn keys_differ(self) -> bool {
        distinct_keys(self.entries@)
    }

    /// What is held under a name, if anything.
    pub open spec fn lookup(self, key: Seq<char>) -> Option<V> {
        if self@.contains_key(key) {
            Some(self@[key])
        } else {
            None
        }
    }

    /// No two entries share a name.
    pub open spec fn wf(self) -> bool {
        distinct_keys(self.entries_seq())
    }

    /// Each entry is what the map holds under its name.
    pub proof fn lemma_entry(self, i: int)
        requires
            self.wf(),
            0 <= i < self.entries_seq().len(),
        ensures
            self@.contains_key(self.entries_seq()[i].0@),
            self@[self.entries_seq()[i].0@] == self.entries_seq()[i].1,
    {
        assert(has_key(self.entries_seq(), self.entries_seq()[i].0@));
        lemma_position(self.entries_seq(), i);
    }

    pub fn new() -> (r: Self)
        ensures
            r.entries_seq() == Seq::<(String, V)>::empty(),
            r@ == Map::<Seq<char>, V>::empty(),
    {
        let r = NameMap { entries: Vec::new() };
        assert(r@ =~= Map::<Seq<char>, V>::empty());
        r
    }

    pub fn len(&self) -> (r: usize)
        ensures
            r == self.entries_seq().len(),
            self.wf(),
    {
        proof {
            use_type_invariant(self);
        }
        self.entries.len()
    }

    pub fn is_empty(&self) -> (r: bool)
        ensures
            r == (self.entries_seq().len() == 0),
            r == (self@ == Map::<Seq<char>, V>::empty()),
    {
        proof {
            if self.entries@.len() == 0 {
                assert(self@ =~= Map::<Seq<char>, V>::empty());
            } else {
                assert(has_key(self.entries@, self.entries@[0].0@));
                assert(self@.contains_key(self.entries@[0].0@));
            }
        }
        self.entries.len() == 0
    }

    /// The name at position `i` of the iteration order.
    pub fn key_at(&self, i: usize) -> (r: &String)
        requires
            i < self.entries_seq().len(),
        ensures
            *r == self.entries_seq()[i as int].0,
            self@.contains_key(r@),
            self@[r@] == self.entries_seq()[i as int].1,
    {
        proof {
            use_type_invariant(self);
            self.lemma_entry(i as int);
        }
        &self.entries[i].0
    }

    /// The value at position `i` of the iteration order.
    pub fn value_at(&self, i: usize) -> (r: &V)
        requires
            i < self.entries_seq().len(),
        ensures
            *r == self.entries_seq()[i as int].1,
            self@.contains_key(self.entries_seq()[i as int].0@),
            self@[self.entries_seq()[i as int].0@] == *r,
    {
        proof {
            use_type_invariant(self);
            self.lemma_entry(i as int);
        }
        &self.entries[i].1
    }

    /// The position of `key`, or the number of entries where it is absent.
    fn position(&self, key: &str) -> (r: usize)
        ensures
            r <= self.entries@.len(),
            r < self.entries@.len() ==> self.entries@[r as int].0@ == key@ && self@.contains_key(
                key@,
            ) && self@[key@] == self.entries@[r as int].1,
            r == self.entries@.len() ==> !self@.contains_key(key@),
    {
        let wanted: String = key.to_owned();
        let mut i: usize = 0;
        while i < self.entries.len()
            invariant
                i <= self.entries@.len(),
                wanted@ == key@,
                forall|j: int| 0 <= j < i ==> (#[trigger] self.entries@[j]).0@ != key@,
            decreases self.entries.len() - i,
        {
            if self.entries[i].0 == wanted {
                proof {
                    use_type_invariant(self);
                    self.lemma_entry(i as int);
                }
                return i;
            }
            i = i + 1;
        }
        i
    }

    pub fn get(&self, key: &str) -> (r: Option<&V>)
        ensures
            r is Some == self@.contains_key(key@),
            r matches Some(v) ==> *v == self@[key@],
            unref(r) == self.lookup(key@),
    {
        let i: usize = self.position(key);
        if i < self.entries.len() {
            Some(&self.entries[i].1)
        } else {
            None
        }
    }

    pub fn contains_key(&self, key: &str) -> (r: bool)
        ensures
            r == self@.contains_key(key@),
    {
        let i: usize = self.position(key);
        i < self.entries.len()
    }

    /// Holds `value` under `key`. A value that was there before is replaced in its place in the
    /// iteration order; a new name goes last.
    pub fn insert(&mut self, key: String, value: V)
        ensures
            final(self)@ == old(self)@.insert(key@, value),
            !old(self)@.contains_key(key@) ==> final(self).entries_seq() == old(
                self,
            ).entries_seq().push((key, value)),
            old(self)@.contains_key(key@) ==> final(self).entries_seq() == old(
                self,
            ).entries_seq().update(
                key_position(old(self).entries_seq(), key@),
                (key, value),
            ),
    {
        let ghost before = self.entries@;
        let ghost before_view = self@;
        let i: usize = self.position(key.as_str());
        proof {
            use_type_invariant(&*self);
        }
        let mut entries: Vec<(String, V)> = Vec::new();
        std::mem::swap(&mut entries, &mut self.entries);
        if i < entries.len() {
            entries[i] = (key, value);
            assert(entries@ == before.update(i as int, (key, value)));
            proof {
                lemma_position(before, i as int);
                assert forall|a: int, b: int|
                    #![trigger entries@[a], entries@[b]]
                    0 <= a < b < entries@.len() implies entries@[a].0@ != entries@[b].0@ by {
                    assert(before[a].0@ != before[b].0@);
                }
            }
        } else {
            entries.push((key, value));
            proof {
                assert forall|a: int, b: int|
                    #![trigger entries@[a], entries@[b]]
                    0 <= a < b < entries@.len() implies entries@[a].0@ != entries@[b].0@ by {
                    if b < before.len() {
                        assert(before[a].0@ != before[b].0@);
                    } else {
                        assert(entries@[a] == before[a]);
                        assert(has_key(before, before[a].0@));
                    }
                }
            }
        }
        self.entries = entries;
        proof {
            let after = self.entries@;
            let target = if i < before.len() {
                i as int
            } else {
                before.len() as int
            };
            assert forall|k: Seq<char>| #[trigger]
                has_key(after, k) == (k == key@ || has_key(before, k)) by {
                if has_key(before, k) {
                    let j = key_position(before, k);
                    if j != target {
                        assert(after[j] == before[j]);
                    } else {
                        assert(after[target].0@ == key@);
                    }
                }
                if k == key@ {
                    assert(after[target].0@ == key@);
                }
                if has_key(after, k) {
                    let j = key_position(after, k);
                    if j != target {
                        assert(after[j] == before[j]);
                    }
                }
            }
            assert forall|k: Seq<char>| has_key(after, k) implies #[trigger] self@[k]
                == before_view.insert(key@, value)[k] by {
                let j = key_position(after, k);
                self.lemma_entry(j);
                if k == key@ {
                    self.lemma_entry(target);
                } else {
                    assert(j != target);
                    assert(before[j] == after[j]);
                    assert(has_key(before, k));
                    let p = key_position(before, k);
                    if p < j {
                        assert(before[p].0@ != before[j].0@);
                    }
                    if j < p {
                        assert(before[j].0@ != before[p].0@);
                    }
                }
            }
            assert(self@ =~= before_view.insert(key@, value));
        }
    }

    /// Gives up what is held under `key`. The other names stay in their order.
    pub fn remove(&mut self, key: &str) -> (r: Option<V>)
        ensures
            final(self)@ == old(self)@.remove(key@),
            r is Some == old(self)@.contains_key(key@),
            r matches Some(v) ==> v == old(self)@[key@],
            final(self).entries_seq() == (if old(self)@.contains_key(key@) {
                old(self).entries_seq().remove(key_position(old(self).entries_seq(), key@))
            } else {
                old(self).entries_seq()
            }),
    {
        let ghost before = self.entries@;
        let ghost before_view = self@;
        let i: usize = self.position(key);
        proof {
            use_type_invariant(&*self);
        }
        if i == self.entries.len() {
            assert(self@ =~= before_view.remove(key@));
            return None;
        }
        let mut entries: Vec<(String, V)> = Vec::new();
        std::mem::swap(&mut entries, &mut self.entries);
        let taken: (String, V) = entries.remove(i);
        proof {
            lemma_position(before, i as int);
            assert(entries@ == before.remove(i as int));
            assert forall|a: int, b: int|
                #![trigger entries@[a], entries@[b]]
                0 <= a < b < entries@.len() implies entries@[a].0@ != entries@[b].0@ by {
                let a0 = if a < i {
                    a
                } else {
                    a + 1
                };
                let b0 = if b < i {
                    b
                } else {
                    b + 1
                };
                assert(before[a0].0@ != before[b0].0@);
            }
        }
        self.entries = entries;
        proof {
            let after = self.entries@;
            assert forall|k: Seq<char>| #[trigger]
                has_key(after, k) == (k != key@ && has_key(before, k)) by {
                if has_key(before, k) && k != key@ {
                    let j = key_position(before, k);
                    let j1 = if j < i {
                        j
                    } else {
                        j - 1
                    };
                    assert(after[j1] == before[j]);
                }
                if has_key(after, k) {
                    let j = key_position(after, k);
                    let j0 = if j < i {
                        j
                    } else {
                        j + 1
                    };
                    assert(after[j] == before[j0]);
                    if j0 < i {
                        assert(before[j0].0@ != before[i as int].0@);
                    } else {
                        assert(before[i as int].0@ != before[j0].0@);
                    }
                }
            }
            assert forall|k: Seq<char>| has_key(after, k) implies #[trigger] self@[k]
                == before_view[k] by {
                let j = key_position(after, k);
                self.lemma_entry(j);
                let j0 = if j < i {
                    j
                } else {
                    j + 1
                };
                assert(after[j] == before[j0]);
                assert(has_key(before, k));
                let p = key_position(before, k);
                if p < j0 {
                    assert(before[p].0@ != before[j0].0@);
                }
                if j0 < p {
                    assert(before[j0].0@ != before[p].0@);
                }
            }
            assert(self@ =~= before_view.remove(key@));
        }
        Some(taken.1)
    }
}

impl<V: Clone> Clone for NameMap<V> {
    fn clone(&self) -> (r: Self)
        ensures
            r.entries_seq().len() == self.entries_seq().len(),
            forall|i: int|
                0 <= i < self.entries_seq().len() ==> (#[trigger] r.entries_seq()[i]).0
                    == self.entries_seq()[i].0 && cloned(
                    self.entries_seq()[i].1,
                    r.entries_seq()[i].1,
                ),
    {
        proof {
            use_type_invariant(self);
        }
        let mut entries: Vec<(String, V)> = Vec::new();
        let mut i: usize = 0;
        while i < self.entries.len()
            invariant
                i <= self.entries@.len(),
                entries@.len() == i,
                forall|j: int|
                    0 <= j < i ==> (#[trigger] entries@[j]).0 == self.entries@[j].0 && cloned(
                        self.entries@[j].1,
                        entries@[j].1,
                    ),
            decreases self.entries.len() - i,
        {
            entries.push((self.entries[i].0.clone(), self.entries[i].1.clone()));
            i = i + 1;
        }
        assert forall|a: int, b: int|
            #![trigger entries@[a], entries@[b]]
            0 <= a < b < entries@.len() implies entries@[a].0@ != entries@[b].0@ by {
            assert(self.entries@[a].0@ != self.entries@[b].0@);
        }
        NameMap { entries }
    }
}

/// A set of names.
#[derive(Debug)]
pub struct NameSet {
    names: NameMap<()>,
}

impl View for NameSet {
    type V = Set<Seq<char>>;

    closed spec fn view(&self) -> Set<Seq<char>> {
        self.names@.dom()
    }
}

impl NameSet {
    pub fn new() -> (r: Self)
        ensures
            r@ == Set::<Seq<char>>::empty(),
    {
        NameSet { names: NameMap::new() }
    }

    pub fn contains(&self, name: &str) -> (r: bool)
        ensures
            r == self@.contains(name@),
    {
        self.names.contains_key(name)
    }

    pub fn insert(&mut self, name: String)
        ensures
            final(self)@ == old(self)@.insert(name@),
    {
        self.names.insert(name, ());
    }

    /// Takes a name out; tells whether it was there.
    pub fn remove(&mut self, name: &str) -> (r: bool)
        ensures
            final(self)@ == old(self)@.remove(name@),
            r == old(self)@.contains(name@),
    {
        self.names.remove(name).is_some()
    }
}

} // verus!
