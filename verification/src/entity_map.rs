//! An insertion-ordered map from string identifiers to entities.
use crate::text::str_eq;
use vstd::prelude::*;

verus! {

/// The texts that the string slices hold.
pub open spec fn texts(slices: Seq<&str>) -> Seq<Seq<char>> {
    Seq::new(slices.len(), |i: int| slices[i]@)
}

/// Whether no text occurs twice in the sequence.
pub open spec fn distinct(ids: Seq<Seq<char>>) -> bool {
    forall|i: int, j: int| 0 <= i < j < ids.len() ==> ids[i] != ids[j]
}

/// A map from identifiers to entities that keeps its entries in the order in
/// which their identifiers were first inserted. No identifier occurs twice.
pub struct EntityMap<T> {
    keys: Vec<String>,
    values: Vec<T>,
}

impl<T> EntityMap<T> {
    #[verifier::type_invariant]
    spec fn inv(self) -> bool {
        &&& self.keys.len() == self.values.len()
        &&& distinct(self.keys@.map_values(|k: String| k@))
    }

    /// The identifiers, in insertion order.
    pub closed spec fn ids(&self) -> Seq<Seq<char>> {
        self.keys@.map_values(|k: String| k@)
    }

    /// The entities, each at the position of its identifier in `ids`.
    pub closed spec fn items(&self) -> Seq<T> {
        self.values@
    }

    /// The validity of a map: one entity per identifier, no identifier twice.
    pub open spec fn wf(&self) -> bool {
        &&& self.ids().len() == self.items().len()
        &&& distinct(self.ids())
    }

    /// An empty map.
    pub fn new() -> (m: Self)
        ensures
            m.wf(),
            m.ids() == Seq::<Seq<char>>::empty(),
            m.items() == Seq::<T>::empty(),
    {
        let m = EntityMap { keys: Vec::new(), values: Vec::new() };
        assert(m.ids() =~= Seq::<Seq<char>>::empty());
        m
    }

    /// The number of entries.
    pub fn len(&self) -> (n: usize)
        ensures
            self.wf(),
            n == self.ids().len(),
    {
        proof {
            use_type_invariant(self);
        }
        self.keys.len()
    }

    /// Whether the map has no entries.
    pub fn is_empty(&self) -> (empty: bool)
        ensures
            self.wf(),
            empty == (self.ids().len() == 0),
    {
        proof {
            use_type_invariant(self);
        }
        self.keys.len() == 0
    }

    /// The identifier of the entry at position `i`.
    pub fn key_at(&self, i: usize) -> (key: &str)
        requires
            i < self.ids().len(),
        ensures
            key@ == self.ids()[i as int],
    {
        self.keys[i].as_str()
    }

    /// The entity of the entry at position `i`.
    pub fn value_at(&self, i: usize) -> (value: &T)
        requires
            i < self.items().len(),
        ensures
            *value == self.items()[i as int],
    {
        &self.values[i]
    }

    /// The identifiers, in insertion order.
    pub fn keys(&self) -> (keys: Vec<&str>)
        ensures
            self.wf(),
            texts(keys@) == self.ids(),
    {
        proof {
            use_type_invariant(self);
        }
        let mut keys: Vec<&str> = Vec::new();
        let mut i: usize = 0;
        while i < self.keys.len()
            invariant
                i <= self.keys.len(),
                keys@.len() == i,
                forall|j: int| 0 <= j < i ==> (#[trigger] keys@[j])@ == self.keys@[j]@,
            decreases self.keys.len() - i,
        {
            keys.push(self.keys[i].as_str());
            i = i + 1;
        }
        assert(texts(keys@) =~= self.ids());
        keys
    }

    /// The position of the entry with the given identifier.
    pub fn index_of(&self, key: &str) -> (found: Option<usize>)
        ensures
            self.wf(),
            match found {
                Some(i) => i < self.ids().len() && self.ids()[i as int] == key@,
                None => !self.ids().contains(key@),
            },
    {
        proof {
            use_type_invariant(self);
        }
        let mut i: usize = 0;
        while i < self.keys.len()
            invariant
                self.wf(),
                i <= self.keys.len(),
                forall|j: int| 0 <= j < i ==> self.ids()[j] != key@,
            decreases self.keys.len() - i,
        {
            if str_eq(self.keys[i].as_str(), key) {
                return Some(i);
            }
            i = i + 1;
        }
        None
    }

    /// Whether an entry with the given identifier is present.
    pub fn contains_key(&self, key: &str) -> (present: bool)
        ensures
            self.wf(),
            present == self.ids().contains(key@),
    {
        self.index_of(key).is_some()
    }

    /// The entity stored under the given identifier.
    pub fn get(&self, key: &str) -> (found: Option<&T>)
        ensures
            self.wf(),
            match found {
                Some(value) => self.ids().contains(key@) && *value == self.items()[self.ids().index_of(key@)],
                None => !self.ids().contains(key@),
            },
    {
        match self.index_of(key) {
            Some(i) => {
                proof {
                    let k = self.ids().index_of(key@);
                    assert(self.ids()[k] == key@);
                    assert(k == i);
                }
                Some(&self.values[i])
            },
            None => None,
        }
    }

    /// Stores `value` under `key`. A new identifier goes to the end; for one
    /// already present the entity is replaced where it stands and the entity
    /// that was there is returned.
    pub fn insert(&mut self, key: String, value: T) -> (replaced: Option<T>)
        ensures
            final(self).wf(),
            old(self).ids().contains(key@) ==> {
                &&& final(self).ids() == old(self).ids()
                &&& final(self).items() == old(self).items().update(
                    old(self).ids().index_of(key@),
                    value,
                )
                &&& replaced == Some(old(self).items()[old(self).ids().index_of(key@)])
            },
            !old(self).ids().contains(key@) ==> {
                &&& final(self).ids() == old(self).ids().push(key@)
                &&& final(self).items() == old(self).items().push(value)
                &&& replaced is None
            },
    {
        let mut taken = EntityMap::new();
        core::mem::swap(self, &mut taken);
        proof {
            use_type_invariant(&taken);
        }
        let found = taken.index_of(key.as_str());
        let EntityMap { mut keys, mut values } = taken;
        match found {
            Some(i) => {
                proof {
                    let k = old(self).ids().index_of(key@);
                    assert(old(self).ids()[k] == key@);
                    assert(k == i);
                }
                values.push(value);
                let previous = values.swap_remove(i);
                assert(values@ =~= old(self).items().update(i as int, value));
                *self = EntityMap { keys, values };
                Some(previous)
            },
            None => {
                keys.push(key);
                values.push(value);
                assert(keys@.map_values(|k: String| k@) =~= old(self).ids().push(key@));
                *self = EntityMap { keys, values };
                None
            },
        }
    }
}

/// A map is viewed as its entries in order: each identifier with the view of
/// its entity.
impl<T: View> EntityMap<T> {
    /// The entity stored under the given identifier, with its result stated
    /// over the map's view.
    pub fn find(&self, key: &str) -> (found: Option<&T>)
        ensures
            self.wf(),
            match found {
                Some(value) => lookup(self@, key@) == Some(value@),
                None => lookup(self@, key@) is None,
            },
    {
        proof {
            lemma_entry_ids(self);
        }
        let found = self.get(key);
        proof {
            if found is Some {
                let k = self.ids().index_of(key@);
                assert(self.ids()[k] == key@);
                assert(self@[k].1 == self.items()[k]@);
            }
        }
        found
    }
}

impl<T: View> View for EntityMap<T> {
    type V = Seq<(Seq<char>, T::V)>;

    open spec fn view(&self) -> Seq<(Seq<char>, T::V)> {
        Seq::new(self.ids().len(), |i: int| (self.ids()[i], self.items()[i]@))
    }
}

/// The identifiers of a map's entries, in order.
pub open spec fn entry_ids<V>(entries: Seq<(Seq<char>, V)>) -> Seq<Seq<char>> {
    Seq::new(entries.len(), |i: int| entries[i].0)
}

/// The entity that the entries hold under `id`, if any.
pub open spec fn lookup<V>(entries: Seq<(Seq<char>, V)>, id: Seq<char>) -> Option<V> {
    if entry_ids(entries).contains(id) {
        Some(entries[entry_ids(entries).index_of(id)].1)
    } else {
        None
    }
}

/// The identifiers in a map's view are the map's identifiers.
pub proof fn lemma_entry_ids<T: View>(map: &EntityMap<T>)
    ensures
        entry_ids(map@) == map.ids(),
{
    assert(entry_ids(map@) =~= map.ids());
}

} // verus!
