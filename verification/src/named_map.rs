use vstd::prelude::*;

use crate::text::same_text;

verus! {

/// A map from names to values, kept in the order in which the names were first inserted.
/// No name occurs twice.
pub struct NamedMap<T> {
    entries: Vec<(String, T)>,
}

impl<T> NamedMap<T> {
    #[verifier::type_invariant]
    spec fn names_distinct(self) -> bool {
        forall|i: int, j: int|
            0 <= i < j < self.entries@.len() ==> self.entries@[i].0@ != self.entries@[j].0@
    }

    /// The entries, in order, each name taken by its characters.
    pub closed spec fn pairs(&self) -> Seq<(Seq<char>, T)> {
        self.entries@.map_values(|e: (String, T)| (e.0@, e.1))
    }

    /// Whether some entry carries the name `k`.
    pub open spec fn has(&self, k: Seq<char>) -> bool {
        exists|i: int| 0 <= i < self.pairs().len() && self.pairs()[i].0 == k
    }

    /// The position of the entry named `k`.
    pub open spec fn position(&self, k: Seq<char>) -> int {
        choose|i: int| 0 <= i < self.pairs().len() && self.pairs()[i].0 == k
    }

    /// The value stored under `k` (meaningful where `has(k)`).
    pub open spec fn at(&self, k: Seq<char>) -> T {
        self.pairs()[self.position(k)].1
    }

    /// Names are distinct, so the entry named `k` is the one at `position(k)`.
    proof fn lemma_position(&self, i: int)
        requires
            self.names_distinct(),
            0 <= i < self.pairs().len(),
        ensures
            self.has(self.pairs()[i].0),
            self.position(self.pairs()[i].0) == i,
    {
        let k = self.pairs()[i].0;
        assert(self.pairs()[i].0 == k);
        let j = self.position(k);
        if j != i {
            assert(self.entries@[i].0@ == self.entries@[j].0@);
        }
    }

    /// The entries as a map from names to values.
    pub open spec fn as_map(&self) -> Map<Seq<char>, T> {
        Map::new(|k: Seq<char>| self.has(k), |k: Seq<char>| self.at(k))
    }

    /// An empty map.
    pub fn new() -> (m: Self)
        ensures
            m.pairs() == Seq::<(Seq<char>, T)>::empty(),
    {
        let m = NamedMap { entries: Vec::new() };
        assert(m.pairs() =~= Seq::<(Seq<char>, T)>::empty());
        m
    }

    /// The number of entries.
    pub fn len(&self) -> (n: usize)
        ensures
            n == self.pairs().len(),
    {
        self.entries.len()
    }

    /// The position of the entry named `key`, if there is one.
    fn find(&self, key: &str) -> (r: Option<usize>)
        ensures
            r matches Some(i) ==> i < self.pairs().len() && self.pairs()[i as int].0 == key@,
            r is None ==> !self.has(key@),
    {
        let mut i: usize = 0;
        while i < self.entries.len()
            invariant
                i <= self.entries@.len(),
                forall|j: int| 0 <= j < i ==> self.pairs()[j].0 != key@,
            decreases self.entries@.len() - i,
        {
            if same_text(self.entries[i].0.as_str(), key) {
                return Some(i);
            }
            i = i + 1;
        }
        None
    }

    /// The value stored under `key`, if any.
    pub fn get(&self, key: &str) -> (r: Option<&T>)
        ensures
            r is Some <==> self.has(key@),
            r matches Some(v) ==> *v == self.at(key@),
    {
        match self.find(key) {
            Some(i) => {
                proof {
                    use_type_invariant(self);
                    self.lemma_position(i as int);
                }
                Some(&self.entries[i].1)
            },
            None => None,
        }
    }

    /// The entry at position `i`.
    pub fn entry(&self, i: usize) -> (r: (&String, &T))
        requires
            i < self.pairs().len(),
        ensures
            r.0@ == self.pairs()[i as int].0,
            *r.1 == self.pairs()[i as int].1,
    {
        let e = &self.entries[i];
        (&e.0, &e.1)
    }

    /// Stores `value` under `key`: an entry with that name keeps its position and takes the new
    /// value; otherwise the entry is appended.
    pub fn insert(&mut self, key: String, value: T)
        ensures
            old(self).has(key@) ==> final(self).pairs() == old(self).pairs().update(
                old(self).position(key@),
                (key@, value),
            ),
            !old(self).has(key@) ==> final(self).pairs() == old(self).pairs().push((key@, value)),
            final(self).as_map() == old(self).as_map().insert(key@, value),
    {
        proof {
            use_type_invariant(&*self);
        }
        let found = self.find(key.as_str());
        let mut entries: Vec<(String, T)> = Vec::new();
        std::mem::swap(&mut entries, &mut self.entries);
        let ghost before = entries@;
        match found {
            Some(i) => {
                proof {
                    old(self).lemma_position(i as int);
                }
                entries.set(i, (key, value));
                assert forall|a: int, b: int| 0 <= a < b < entries@.len() implies entries@[a].0@
                    != entries@[b].0@ by {
                    if a != i as int && b != i as int {
                        assert(before[a].0@ != before[b].0@);
                    } else if a == i as int {
                        assert(before[a].0@ != before[b].0@);
                    } else {
                        assert(before[a].0@ != before[b].0@);
                    }
                }
            },
            None => {
                assert forall|a: int| 0 <= a < before.len() implies before[a].0@ != key@ by {
                    assert(old(self).pairs()[a].0 == before[a].0@);
                }
                entries.push((key, value));
            },
        }
        self.entries = entries;
        proof {
            use_type_invariant(&*self);
            assert forall|k: Seq<char>| self.has(k) == (old(self).has(k) || k == key@)
                && (self.has(k) ==> self.at(k) == (if k == key@ { value } else { old(self).at(k) })) by {
                if old(self).has(k) {
                    let i = old(self).position(k);
                    assert(self.pairs()[i].0 == k);
                    self.lemma_position(i);
                }
                if self.has(k) {
                    let i = self.position(k);
                    if k != key@ {
                        assert(old(self).pairs()[i].0 == k);
                        old(self).lemma_position(i);
                    }
                }
                if k == key@ {
                    if let Some(i) = found {
                        assert(self.pairs()[i as int].0 == k);
                        self.lemma_position(i as int);
                    } else {
                        assert(self.pairs()[before.len() as int].0 == k);
                        self.lemma_position(before.len() as int);
                    }
                }
            }
            assert(self.as_map() =~= old(self).as_map().insert(key@, value));
            assert(self.pairs() =~= (if old(self).has(key@) {
                old(self).pairs().update(old(self).position(key@), (key@, value))
            } else {
                old(self).pairs().push((key@, value))
            }));
        }
    }

    /// Takes out the entry named `key`, if any; the other entries keep their order.
    pub fn remove(&mut self, key: &str) -> (r: Option<T>)
        ensures
            r is Some <==> old(self).has(key@),
            r matches Some(v) ==> v == old(self).at(key@) && final(self).pairs() == old(
                self,
            ).pairs().remove(old(self).position(key@)),
            r is None ==> final(self).pairs() == old(self).pairs(),
            final(self).as_map() == old(self).as_map().remove(key@),
    {
        proof {
            use_type_invariant(&*self);
        }
        match self.find(key) {
            Some(i) => {
                proof {
                    old(self).lemma_position(i as int);
                }
                let mut entries: Vec<(String, T)> = Vec::new();
                std::mem::swap(&mut entries, &mut self.entries);
                let ghost before = entries@;
                let (_name, value) = entries.remove(i);
                assert forall|a: int, b: int| 0 <= a < b < entries@.len() implies entries@[a].0@
                    != entries@[b].0@ by {
                    let a2 = if a < i { a } else { a + 1 };
                    let b2 = if b < i { b } else { b + 1 };
                    assert(before[a2].0@ != before[b2].0@);
                }
                self.entries = entries;
                assert(self.pairs() =~= old(self).pairs().remove(i as int));
                proof {
                    use_type_invariant(&*self);
                    assert forall|k: Seq<char>| self.has(k) == (old(self).has(k) && k != key@)
                        && (self.has(k) ==> self.at(k) == old(self).at(k)) by {
                        if old(self).has(k) && k != key@ {
                            let j = old(self).position(k);
                            let j2 = if j < i { j } else { j - 1 };
                            assert(j != i);
                            assert(self.pairs()[j2].0 == k);
                            self.lemma_position(j2);
                        }
                        if self.has(k) {
                            let j = self.position(k);
                            let j2 = if j < i { j } else { j + 1 };
                            assert(old(self).pairs()[j2].0 == k);
                            old(self).lemma_position(j2);
                            if k == key@ {
                                assert(j2 != i);
                            }
                        }
                    }
                    assert(self.as_map() =~= old(self).as_map().remove(key@));
                }
                Some(value)
            },
            None => {
                proof {
                    assert(old(self).as_map().remove(key@) =~= old(self).as_map());
                }
                None
            },
        }
    }

    /// The entries, in order.
    pub fn into_entries(self) -> (r: Vec<(String, T)>)
        ensures
            r@.map_values(|e: (String, T)| (e.0@, e.1)) == self.pairs(),
    {
        self.entries
    }
}

} // verus!
