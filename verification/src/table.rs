//! An ordered table keyed by text.
//!
//! Sessions, tracks, peers and counters are kept in tables of this kind.
//! Every key occurs at most once, and entries keep the order in which they
//! were first inserted. A concurrent hash map from key to position finds a
//! key without walking the table.

use vstd::prelude::*;
use dashmap::DashMap;

verus! {

#[verifier::external_type_specification]
#[verifier::external_body]
#[verifier::reject_recursive_types(K)]
#[verifier::reject_recursive_types(V)]
#[verifier::reject_recursive_types(S)]
pub struct ExDashMap<K, V, S>(DashMap<K, V, S>);

/// The positions that an index holds, by key.
pub uninterp spec fn index_entries(index: DashMap<String, usize>) -> Map<Seq<char>, usize>;

/// `DashMap::new`: the new map holds nothing.
#[verifier::external_body]
fn index_new() -> (index: DashMap<String, usize>)
    ensures
        index_entries(index) == (Map::<Seq<char>, usize>::empty()),
{
    DashMap::new()
}

/// `DashMap::insert`: afterwards `key` maps to `position`, whether or not
/// it was present before, and every other key maps to what it mapped to.
#[verifier::external_body]
fn index_insert(index: &mut DashMap<String, usize>, key: String, position: usize)
    ensures
        index_entries(*final(index)) == index_entries(*old(index)).insert(key@, position),
{
    index.insert(key, position);
}

/// `DashMap::get`, copying the position out of the guard that it returns:
/// the position under `key`, or nothing where the map has no such key.
#[verifier::external_body]
fn index_get(index: &DashMap<String, usize>, key: &str) -> (position: Option<usize>)
    ensures
        position is Some == index_entries(*index).contains_key(key@),
        position matches Some(found) ==> found == index_entries(*index)[key@],
{
    index.get(key).map(|found| *found.value())
}

/// `DashMap::remove`: afterwards `key` is absent and every other key maps
/// to what it mapped to.
#[verifier::external_body]
fn index_remove(index: &mut DashMap<String, usize>, key: &str)
    ensures
        index_entries(*final(index)) == index_entries(*old(index)).remove(key@),
{
    index.remove(key);
}

/// The index that finds every key of `names` at its position.
pub open spec fn positions(names: Seq<Seq<char>>) -> Map<Seq<char>, usize> {
    Map::new(|k: Seq<char>| names.contains(k), |k: Seq<char>| names.index_of(k) as usize)
}

/// In a sequence without duplicates a value is found at its own position.
pub proof fn lemma_found_at(names: Seq<Seq<char>>, i: int)
    requires
        names.no_duplicates(),
        0 <= i < names.len(),
    ensures
        names.contains(names[i]),
        names.index_of(names[i]) == i,
{
    let k = names[i];
    assert(names.contains(k));
    let j = names.index_of(k);
    assert(0 <= j < names.len() && names[j] == k);
}

/// An insertion-ordered map from text keys to values.
#[derive(Debug)]
pub struct Table<V> {
    index: DashMap<String, usize>,
    keys: Vec<String>,
    values: Vec<V>,
}

impl<V> Table<V> {
    /// The keys, in insertion order.
    pub closed spec fn names(&self) -> Seq<Seq<char>> {
        self.keys.deep_view()
    }

    /// The values, in the order of their keys.
    pub closed spec fn items(&self) -> Seq<V> {
        self.values@
    }

    /// The index finds every key at its position and holds no other key.
    pub closed spec fn indexed(&self) -> bool {
        index_entries(self.index) == positions(self.keys.deep_view())
    }

    /// Every key has one value, no key occurs twice, and the index finds
    /// every key.
    pub open spec fn wf(&self) -> bool {
        &&& self.names().len() == self.items().len()
        &&& self.names().no_duplicates()
        &&& self.indexed()
    }

    /// The table as a map from key to value.
    pub open spec fn entries(&self) -> Map<Seq<char>, V> {
        Map::new(
            |k: Seq<char>| self.names().contains(k),
            |k: Seq<char>| self.items()[self.names().index_of(k)],
        )
    }

    /// Whether `key` is present.
    pub open spec fn has(&self, key: Seq<char>) -> bool {
        self.names().contains(key)
    }

    /// The value stored under `key`.
    pub open spec fn at(&self, key: Seq<char>) -> V {
        self.items()[self.names().index_of(key)]
    }

    /// In a well-formed table a key found at position `i` maps to the value
    /// at position `i`.
    pub proof fn lemma_at_position(&self, i: int)
        requires
            self.wf(),
            0 <= i < self.names().len(),
        ensures
            self.has(self.names()[i]),
            self.names().index_of(self.names()[i]) == i,
            self.at(self.names()[i]) == self.items()[i],
    {
        lemma_found_at(self.names(), i);
    }

    /// An empty table.
    pub fn new() -> (table: Self)
        ensures
            table.wf(),
            table.names() == Seq::<Seq<char>>::empty(),
            table.items() == Seq::<V>::empty(),
    {
        let table = Table { index: index_new(), keys: Vec::new(), values: Vec::new() };
        assert(table.names() =~= Seq::<Seq<char>>::empty());
        assert(index_entries(table.index) =~= positions(table.names()));
        table
    }

    /// The number of entries.
    pub fn len(&self) -> (n: usize)
        ensures
            n == self.names().len(),
    {
        self.keys.len()
    }

    /// The position of `key`, if it is present.
    pub fn position(&self, key: &str) -> (found: Option<usize>)
        requires
            self.wf(),
        ensures
            match found {
                Some(i) => i < self.names().len() && self.names()[i as int] == key@
                    && self.names().index_of(key@) == i,
                None => !self.has(key@),
            },
    {
        let found = index_get(&self.index, key);
        let size = self.keys.len();
        proof {
            assert(self.names().len() == size);
            assert(index_entries(self.index) == positions(self.names()));
            if found is Some {
                assert(positions(self.names()).contains_key(key@));
                let i = self.names().index_of(key@);
                assert(self.names().contains(key@));
                assert(0 <= i < self.names().len() && self.names()[i] == key@);
                assert(positions(self.names())[key@] == i as usize);
            } else {
                assert(!positions(self.names()).contains_key(key@));
            }
        }
        found
    }

    /// The key at position `i`.
    pub fn name_at(&self, i: usize) -> (name: &String)
        requires
            i < self.names().len(),
        ensures
            name@ == self.names()[i as int],
    {
        &self.keys[i]
    }

    /// The value at position `i`.
    pub fn value_at(&self, i: usize) -> (value: &V)
        requires
            self.wf(),
            i < self.names().len(),
        ensures
            *value == self.items()[i as int],
    {
        &self.values[i]
    }

    /// The value stored under `key`, if any.
    pub fn get(&self, key: &str) -> (value: Option<&V>)
        requires
            self.wf(),
        ensures
            match value {
                Some(v) => self.has(key@) && *v == self.at(key@),
                None => !self.has(key@),
            },
    {
        match self.position(key) {
            Some(i) => Some(&self.values[i]),
            None => None,
        }
    }

    /// Stores `value` under `key`. A value already stored under `key` is
    /// replaced in place; a new key goes to the end.
    pub fn insert(&mut self, key: String, value: V)
        requires
            old(self).wf(),
        ensures
            final(self).wf(),
            final(self).entries() == old(self).entries().insert(key@, value),
            old(self).has(key@) ==> final(self).names() == old(self).names() && final(self).items()
                == old(self).items().update(old(self).names().index_of(key@), value),
            !old(self).has(key@) ==> final(self).names() == old(self).names().push(key@) && final(self).items() == old(self).items().push(value),
    {
        let ghost before = *self;
        match self.position(key.as_str()) {
            Some(i) => {
                self.values.remove(i);
                self.values.insert(i, value);
                assert(self.items() =~= before.items().update(i as int, value));
                assert(self.entries() =~= before.entries().insert(key@, value)) by {
                    assert forall|k: Seq<char>| self.entries().contains_key(k) implies
                        #[trigger] self.entries()[k] == before.entries().insert(key@, value)[k] by {
                        let j = self.names().index_of(k);
                        assert(0 <= j < self.names().len() && self.names()[j] == k);
                    }
                }
            },
            None => {
                let position = self.keys.len();
                self.keys.push(key.clone());
                self.values.push(value);
                index_insert(&mut self.index, key, position);
                let ghost n = before.names().len() as int;
                assert(self.names() =~= before.names().push(key@));
                assert(self.names().no_duplicates());
                proof {
                    lemma_found_at(self.names(), n);
                    assert forall|k: Seq<char>| before.names().contains(k) implies self.names().contains(
                        k,
                    ) && self.names().index_of(k) == before.names().index_of(k) by {
                        let j = before.names().index_of(k);
                        assert(0 <= j < n && before.names()[j] == k);
                        assert(self.names()[j] == k);
                        lemma_found_at(self.names(), j);
                    }
                    assert forall|k: Seq<char>| self.names().contains(k) implies k == key@
                        || before.names().contains(k) by {
                        let j = self.names().index_of(k);
                        assert(0 <= j < self.names().len() && self.names()[j] == k);
                        if j < n {
                            assert(before.names()[j] == k);
                        }
                    }
                    assert(index_entries(self.index) =~= positions(self.names()));
                    assert(self.entries() =~= before.entries().insert(key@, value));
                }
            },
        }
    }

    /// Removes `key` and hands back its value. The other entries keep their
    /// order.
    pub fn remove(&mut self, key: &str) -> (removed: Option<V>)
        requires
            old(self).wf(),
        ensures
            final(self).wf(),
            final(self).entries() == old(self).entries().remove(key@),
            match removed {
                Some(v) => {
                    &&& old(self).has(key@)
                    &&& v == old(self).at(key@)
                    &&& final(self).names() == old(self).names().remove(
                        old(self).names().index_of(key@),
                    )
                    &&& final(self).items() == old(self).items().remove(
                        old(self).names().index_of(key@),
                    )
                },
                None => {
                    &&& !old(self).has(key@)
                    &&& final(self).names() == old(self).names()
                    &&& final(self).items() == old(self).items()
                },
            },
    {
        let ghost before = *self;
        let i = match self.position(key) {
            Some(i) => i,
            None => {
                assert(self.entries() =~= before.entries().remove(key@));
                return None;
            },
        };
        self.keys.remove(i);
        let v = self.values.remove(i);
        index_remove(&mut self.index, key);
        let ghost after = self.names();
        proof {
            assert(after =~= before.names().remove(i as int));
            assert(after.no_duplicates());
            assert forall|k: Seq<char>| after.contains(k) implies before.names().contains(k) && k
                != key@ && before.names().index_of(k) == (if after.index_of(k) < i {
                after.index_of(k)
            } else {
                after.index_of(k) + 1
            }) by {
                let j = after.index_of(k);
                assert(0 <= j < after.len() && after[j] == k);
                let jb = if j < i {
                    j
                } else {
                    j + 1
                };
                assert(before.names()[jb] == k);
                lemma_found_at(before.names(), jb);
            }
            assert forall|k: Seq<char>| before.names().contains(k) && k != key@ implies after.contains(
                k,
            ) by {
                let j = before.names().index_of(k);
                assert(0 <= j < before.names().len() && before.names()[j] == k);
                if j < i {
                    assert(after[j] == k);
                } else {
                    assert(after[j - 1] == k);
                }
            }
        }
        proof {
            assert(index_entries(self.index) =~= Map::new(
                |k: Seq<char>| after.contains(k),
                |k: Seq<char>|
                    (if after.index_of(k) < i {
                        after.index_of(k)
                    } else {
                        after.index_of(k) + 1
                    }) as usize,
            )) by {
                assert(index_entries(before.index) == positions(before.names()));
                assert forall|k: Seq<char>| after.contains(k) implies index_entries(
                    self.index,
                ).contains_key(k) && (#[trigger] index_entries(self.index)[k]) == (if after.index_of(
                    k,
                ) < i {
                    after.index_of(k)
                } else {
                    after.index_of(k) + 1
                }) as usize by {
                    assert(before.names().contains(k) && k != key@);
                    assert(positions(before.names()).contains_key(k));
                }
                assert forall|k: Seq<char>| index_entries(self.index).contains_key(
                    k,
                ) implies after.contains(k) by {
                    assert(positions(before.names()).contains_key(k));
                    assert(before.names().contains(k) && k != key@);
                }
            }
        }
        let mut j: usize = i;
        while j < self.keys.len()
            invariant
                i <= j <= self.keys.len(),
                self.keys.deep_view() == after,
                self.values@ == before.items().remove(i as int),
                after.no_duplicates(),
                index_entries(self.index) == Map::new(
                    |k: Seq<char>| after.contains(k),
                    |k: Seq<char>|
                        (if after.index_of(k) < j {
                            after.index_of(k)
                        } else {
                            after.index_of(k) + 1
                        }) as usize,
                ),
            decreases self.keys.len() - j,
        {
            let ghost during = index_entries(self.index);
            index_insert(&mut self.index, self.keys[j].clone(), j);
            proof {
                lemma_found_at(after, j as int);
                assert(index_entries(self.index) =~= Map::new(
                    |k: Seq<char>| after.contains(k),
                    |k: Seq<char>|
                        (if after.index_of(k) < j + 1 {
                            after.index_of(k)
                        } else {
                            after.index_of(k) + 1
                        }) as usize,
                )) by {
                    assert forall|k: Seq<char>| after.contains(k) implies (
                    #[trigger] index_entries(self.index)[k]) == (if after.index_of(k) < j + 1 {
                        after.index_of(k)
                    } else {
                        after.index_of(k) + 1
                    }) as usize by {
                        let p = after.index_of(k);
                        assert(0 <= p < after.len() && after[p] == k);
                        if k != after[j as int] {
                            assert(p != j);
                        }
                    }
                }
            }
            j += 1;
        }
        proof {
            assert(index_entries(self.index) =~= positions(self.names())) by {
                assert forall|k: Seq<char>| after.contains(k) implies (
                #[trigger] index_entries(self.index)[k]) == after.index_of(k) as usize by {
                    let p = after.index_of(k);
                    assert(0 <= p < after.len() && after[p] == k);
                }
            }
            before.lemma_at_position(i as int);
            assert(self.entries() =~= before.entries().remove(key@)) by {
                assert forall|k: Seq<char>| self.entries().contains_key(k) implies
                    before.entries().remove(key@).contains_key(k) &&
                    #[trigger] self.entries()[k] == before.entries().remove(key@)[k] by {
                    let p = self.names().index_of(k);
                    assert(0 <= p < self.names().len() && self.names()[p] == k);
                    let pb = if p < i { p } else { p + 1 };
                    assert(before.names()[pb] == k);
                    before.lemma_at_position(pb);
                }
            }
        }
        Some(v)
    }

    /// Takes the table apart and hands back its keys, in order.
    pub fn into_names(self) -> (names: Vec<String>)
        ensures
            names.deep_view() == self.names(),
    {
        self.keys
    }

    /// Mutable access to the value at position `i`.
    pub fn value_mut(&mut self, i: usize) -> (value: &mut V)
        requires
            old(self).wf(),
            i < old(self).names().len(),
        ensures
            *value == old(self).items()[i as int],
            final(self).names() == old(self).names(),
            final(self).items() == old(self).items().update(i as int, *final(value)),
            final(self).wf(),
    {
        &mut self.values[i]
    }
}

} // verus!
