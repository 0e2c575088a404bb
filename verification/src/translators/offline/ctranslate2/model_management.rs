use vstd::prelude::*;
use vstd::assert_maps_equal;
use vstd::map::*;

use crate::translators::helpers::str_eq;

verus! {

/// The eviction policy of a model cache: `Dispose` clears all entries
/// after each request, `KeepAlive` retains them for the process lifetime.
#[derive(PartialEq, Eq, Structural, Copy, Clone, Debug)]
pub enum ModelLifetime {
    Dispose,
    KeepAlive,
}

/// A keyed cache of loaded model handles. Keys are composite identifier
/// strings; values are whatever handle type the embedding chooses. One
/// request owns a cache at a time and passes it by exclusive reference.
pub struct ModelCache<V> {
    mode: ModelLifetime,
    idents: Vec<String>,
    values: Vec<V>,
}

impl<V> ModelCache<V> {
    /// The cache's eviction policy.
    pub closed spec fn spec_mode(self) -> ModelLifetime {
        self.mode
    }

    /// Internal shape: one value per identifier, identifiers pairwise
    /// distinct.
    pub closed spec fn wf(self) -> bool {
        &&& self.idents@.len() == self.values@.len()
        &&& forall|i: int, j: int|
            0 <= i < j < self.idents@.len() ==> self.idents@[i]@ != self.idents@[j]@
    }

    /// Whether an identifier is cached.
    pub closed spec fn contains_ident(self, id: Seq<char>) -> bool {
        exists|i: int| 0 <= i < self.idents@.len() && self.idents@[i]@ == id
    }

    closed spec fn index_of(self, id: Seq<char>) -> int {
        choose|i: int| 0 <= i < self.idents@.len() && self.idents@[i]@ == id
    }

    /// The handle cached under an identifier.
    pub closed spec fn value_of(self, id: Seq<char>) -> V {
        self.values@[self.index_of(id)]
    }

    /// The number of cached handles.
    pub closed spec fn spec_len(self) -> nat {
        self.idents@.len()
    }

    /// The cache's contents as a map from identifier to handle.
    pub open spec fn as_map(self) -> Map<Seq<char>, V> {
        Map::new(|id: Seq<char>| self.contains_ident(id), |id: Seq<char>| self.value_of(id))
    }

    proof fn lemma_value_at(self, i: int)
        requires
            self.wf(),
            0 <= i < self.idents@.len(),
        ensures
            self.contains_ident(self.idents@[i]@),
            self.value_of(self.idents@[i]@) == self.values@[i],
    {
        assert(self.contains_ident(self.idents@[i]@));
        let j = self.index_of(self.idents@[i]@);
        assert(self.idents@[j]@ == self.idents@[i]@);
        if i < j {
            assert(self.idents@[i]@ != self.idents@[j]@);
        } else if j < i {
            assert(self.idents@[j]@ != self.idents@[i]@);
        }
    }

    /// An empty cache with the given policy.
    pub fn new(mode: ModelLifetime) -> (r: Self)
        ensures
            r.wf(),
            r.spec_mode() == mode,
            r.spec_len() == 0,
            r.as_map() == Map::<Seq<char>, V>::empty(),
    {
        let r = ModelCache { mode, idents: Vec::new(), values: Vec::new() };
        proof {
            assert_maps_equal!(r.as_map(), Map::<Seq<char>, V>::empty());
        }
        r
    }

    /// The cache's eviction policy.
    pub fn mode(&self) -> (r: ModelLifetime)
        ensures
            r == self.spec_mode(),
    {
        self.mode
    }

    /// The number of cached handles.
    pub fn len(&self) -> (r: usize)
        ensures
            r == self.spec_len(),
    {
        self.idents.len()
    }

    fn find(&self, ident: &str) -> (r: Option<usize>)
        requires
            self.wf(),
        ensures
            match r {
                Some(i) => i < self.idents@.len() && self.idents@[i as int]@ == ident@,
                None => !self.contains_ident(ident@),
            },
    {
        let mut i: usize = 0;
        while i < self.idents.len()
            invariant
                self.wf(),
                i <= self.idents@.len(),
                forall|j: int| 0 <= j < i ==> self.idents@[j]@ != ident@,
            decreases self.idents@.len() - i,
        {
            if str_eq(self.idents[i].as_str(), ident) {
                return Some(i);
            }
            i += 1;
        }
        None
    }

    /// Whether an identifier is cached.
    pub fn contains(&self, ident: &str) -> (r: bool)
        requires
            self.wf(),
        ensures
            r == self.contains_ident(ident@),
    {
        match self.find(ident) {
            Some(i) => {
                proof {
                    self.lemma_value_at(i as int);
                }
                true
            },
            None => false,
        }
    }

    /// Returns the handle cached under `ident`; where none is cached yet,
    /// invokes `loader` once, caches its result, and returns it. A lookup
    /// that finds the identifier leaves the cache exactly as it was, so a
    /// second call with the same identifier never loads again.
    pub fn get_or_load<F: FnOnce() -> V>(&mut self, ident: &str, loader: F) -> (r: &V)
        requires
            old(self).wf(),
            call_requires(loader, ()),
        ensures
            final(self).wf(),
            final(self).spec_mode() == old(self).spec_mode(),
            final(self).contains_ident(ident@),
            *r == final(self).value_of(ident@),
            old(self).contains_ident(ident@) ==> *final(self) == *old(self) && *r == old(self).value_of(ident@),
            !old(self).contains_ident(ident@) ==> call_ensures(loader, (), *r) && final(self).as_map() == old(self).as_map().insert(ident@, *r) && final(self).spec_len() == old(self).spec_len() + 1,
    {
        match self.find(ident) {
            Some(i) => {
                proof {
                    self.lemma_value_at(i as int);
                }
                &self.values[i]
            },
            None => {
                let v = loader();
                self.idents.push(ident.to_owned());
                self.values.push(v);
                let n = self.values.len() - 1;
                proof {
                    self.lemma_value_at(n as int);
                    assert forall|id: Seq<char>|
                        id != ident@ && old(self).contains_ident(id) implies self.contains_ident(id)
                        && self.value_of(id) == old(self).value_of(id) by {
                        let k = old(self).index_of(id);
                        assert(old(self).idents@[k]@ == id);
                        assert(self.idents@[k]@ == id);
                        self.lemma_value_at(k);
                        old(self).lemma_value_at(k);
                    }
                    assert forall|id: Seq<char>|
                        id != ident@ && self.contains_ident(id) implies old(self).contains_ident(
                        id,
                    ) by {
                        let k = self.index_of(id);
                        assert(self.idents@[k]@ == id);
                        assert(k < n);
                        assert(old(self).idents@[k]@ == id);
                    }
                    assert_maps_equal!(
                        self.as_map(),
                        old(self).as_map().insert(ident@, self.values@[n as int]),
                        id => {
                            if id == ident@ {
                                self.lemma_value_at(n as int);
                            }
                        }
                    );
                }
                &self.values[n]
            },
        }
    }

    /// Removes and hands out the handle cached under `ident`, so that the
    /// caller can use it with exclusive access; `put` returns it.
    pub fn take(&mut self, ident: &str) -> (r: Option<V>)
        requires
            old(self).wf(),
        ensures
            final(self).wf(),
            final(self).spec_mode() == old(self).spec_mode(),
            match r {
                Some(v) => old(self).contains_ident(ident@) && v == old(self).value_of(ident@)
                    && final(self).as_map() == old(self).as_map().remove(ident@) && final(self).spec_len() + 1 == old(self).spec_len(),
                None => !old(self).contains_ident(ident@) && *final(self) == *old(self),
            },
    {
        match self.find(ident) {
            Some(i) => {
                proof {
                    self.lemma_value_at(i as int);
                }
                let ghost prev = *self;
                self.idents.swap_remove(i);
                let v = self.values.swap_remove(i);
                proof {
                    let n = self.idents@.len() as int;
                    assert forall|id: Seq<char>| self.contains_ident(id) implies prev.contains_ident(
                        id,
                    ) && id != ident@ by {
                        let k = self.index_of(id);
                        assert(self.idents@[k]@ == id);
                        if k < n && k != i {
                            assert(prev.idents@[k]@ == id);
                        } else {
                            assert(prev.idents@[n]@ == id);
                        }
                        if id == ident@ {
                            if k < n && k != i {
                                assert(prev.idents@[k]@ == prev.idents@[i as int]@);
                            } else {
                                assert(prev.idents@[n]@ == prev.idents@[i as int]@);
                            }
                        }
                    }
                    assert forall|id: Seq<char>|
                        prev.contains_ident(id) && id != ident@ implies self.contains_ident(id)
                        && self.value_of(id) == prev.value_of(id) by {
                        let k = prev.index_of(id);
                        assert(prev.idents@[k]@ == id);
                        assert(k != i);
                        let k2 = if k == n {
                            i as int
                        } else {
                            k
                        };
                        assert(self.idents@[k2]@ == id);
                        self.lemma_value_at(k2);
                        prev.lemma_value_at(k);
                    }
                    assert_maps_equal!(
                        self.as_map(),
                        prev.as_map().remove(ident@),
                        id => {}
                    );
                }
                Some(v)
            },
            None => None,
        }
    }

    /// Caches a handle under an identifier that is not yet present.
    pub fn put(&mut self, ident: &str, v: V)
        requires
            old(self).wf(),
            !old(self).contains_ident(ident@),
        ensures
            final(self).wf(),
            final(self).spec_mode() == old(self).spec_mode(),
            final(self).as_map() == old(self).as_map().insert(ident@, v),
            final(self).spec_len() == old(self).spec_len() + 1,
    {
        self.idents.push(ident.to_owned());
        self.values.push(v);
        proof {
            let n = self.idents@.len() - 1;
            self.lemma_value_at(n as int);
            assert forall|id: Seq<char>|
                id != ident@ && old(self).contains_ident(id) implies self.contains_ident(id)
                && self.value_of(id) == old(self).value_of(id) by {
                let k = old(self).index_of(id);
                assert(old(self).idents@[k]@ == id);
                assert(self.idents@[k]@ == id);
                self.lemma_value_at(k);
                old(self).lemma_value_at(k);
            }
            assert forall|id: Seq<char>|
                id != ident@ && self.contains_ident(id) implies old(self).contains_ident(id) by {
                let k = self.index_of(id);
                assert(self.idents@[k]@ == id);
                assert(k < n);
                assert(old(self).idents@[k]@ == id);
            }
            assert_maps_equal!(
                self.as_map(),
                old(self).as_map().insert(ident@, v),
                id => {
                    if id == ident@ {
                        self.lemma_value_at(n as int);
                    }
                }
            );
        }
    }

    /// Applies the eviction policy after a request: under `Dispose` every
    /// entry is cleared, under `KeepAlive` nothing changes.
    pub fn cleanup(&mut self)
        requires
            old(self).wf(),
        ensures
            final(self).wf(),
            final(self).spec_mode() == old(self).spec_mode(),
            old(self).spec_mode() is Dispose ==> final(self).spec_len() == 0 && final(self).as_map()
                == Map::<Seq<char>, V>::empty(),
            old(self).spec_mode() is KeepAlive ==> *final(self) == *old(self),
    {
        if self.mode == ModelLifetime::Dispose {
            self.idents.clear();
            self.values.clear();
            proof {
                assert_maps_equal!(self.as_map(), Map::<Seq<char>, V>::empty());
            }
        }
    }
}

} // verus!
