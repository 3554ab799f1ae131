//! Provides [TotalHashMap], a hash map in which every possible key has an associated value.
//! Only entries with *uncommon* values are stored; all other keys are taken to hold the *common*
//! value.

use std::collections::{HashMap, VecDeque};
use std::hash::Hash;
use std::marker::PhantomData;

use vstd::prelude::*;
use vstd::std_specs::hash::{obeys_key_model, spec_keys_iter};
use vstd::std_specs::iter::IteratorSpec;

use crate::{
    compacted, is_sparse, lemma_lists_pairs, lists_entries, stored_after_insert,
    stored_after_inserts, value_at, Commonality, DefaultCommonality,
};

verus! {

broadcast use vstd::std_specs::hash::group_hash_axioms;

/// A hash map in which every possible key has an associated value. Only entries with
/// *uncommon* values are stored; all other keys are taken to hold the *common* value.
///
/// Methods that treat the map as a collection ([len](Self::len), [keys](Self::keys), ...) see
/// only the stored, *uncommon* entries.
#[derive(Debug)]
pub struct TotalHashMap<K, V, C: Commonality<V> = DefaultCommonality> {
    inner: HashMap<K, V>,
    // kept so that a reference to the common value can be handed out, as `get` does
    common: V,
    _commonality: PhantomData<C>,
}

impl<K, V, C: Commonality<V>> View for TotalHashMap<K, V, C> {
    type V = Map<K, V>;

    /// The stored (uncommon) entries.
    closed spec fn view(&self) -> Map<K, V> {
        self.inner@
    }
}

impl<K, V, C: Commonality<V>> TotalHashMap<K, V, C> {
    /// The common value that unstored keys read as.
    pub closed spec fn common_value(&self) -> V {
        self.common
    }

    /// The value associated with `key`.
    pub open spec fn spec_get(&self, key: K) -> V {
        value_at(self@, key, self.common_value())
    }

    /// The map's invariant: keys hash and compare consistently, the cached common value is common, and no
    /// stored entry holds a common value.
    pub closed spec fn wf(&self) -> bool {
        &&& obeys_key_model::<K>()
        &&& C::spec_is_common(self.common)
        &&& is_sparse::<K, V, C>(self.inner@)
    }

    /// The map's invariant but for sparsity: stored values may be common.
    pub closed spec fn wf_unswept(&self) -> bool {
        &&& obeys_key_model::<K>()
        &&& C::spec_is_common(self.common)
    }

    /// The map's invariant, but for `key`, whose stored value may be common.
    pub closed spec fn wf_except(&self, key: K) -> bool {
        &&& obeys_key_model::<K>()
        &&& C::spec_is_common(self.common)
        &&& forall|k: K|
            #[trigger] self.inner@.contains_key(k) && k != key ==> !C::spec_is_common(
                self.inner@[k],
            )
    }

    /// Whatever operations built it, a well-formed map stores finitely many entries, none of
    /// them common, and its common value is common.
    pub proof fn lemma_sparse(&self)
        requires
            self.wf(),
        ensures
            is_sparse::<K, V, C>(self@),
            self@.dom().finite(),
            C::spec_is_common(self.common_value()),
    {
    }

    /// Returns the number of *uncommon* entries in the map.
    pub fn len(&self) -> (r: usize)
        requires
            self.wf(),
        ensures
            r == self@.len(),
    {
        self.inner.len()
    }

    /// Returns true if the map stores no *uncommon* entries.
    pub fn is_empty(&self) -> (r: bool)
        ensures
            r == self@.is_empty(),
            self.wf() ==> r == (self@.len() == 0),
    {
        proof {
            if self.wf() && self.inner@.len() == 0 {
                assert(self.inner@.dom() =~= Set::empty());
            }
        }
        self.inner.is_empty()
    }

    /// The number of *uncommon* entries the map can hold without reallocating.
    pub fn capacity(&self) -> (r: usize) {
        capacity(&self.inner)
    }

    /// Resets every key of the map to the *common* value.
    pub fn clear(&mut self)
        requires
            old(self).wf(),
        ensures
            final(self).wf(),
            final(self)@ == Map::<K, V>::empty(),
            final(self).common_value() == old(self).common_value(),
    {
        self.inner.clear()
    }
}

impl<K: Eq + Hash, V, C: Commonality<V>> TotalHashMap<K, V, C> {
    /// Constructs a map in which every key is associated with the *common* value.
    pub fn new() -> (r: Self)
        requires
            obeys_key_model::<K>(),
        ensures
            r.wf(),
            r@ == Map::<K, V>::empty(),
    {
        Self::wrap(HashMap::new())
    }

    /// Constructs a map in which every key is associated with the *common* value, with room
    /// for at least `capacity` *uncommon* entries.
    pub fn with_capacity(capacity: usize) -> (r: Self)
        requires
            obeys_key_model::<K>(),
        ensures
            r.wf(),
            r@ == Map::<K, V>::empty(),
    {
        Self::wrap(HashMap::with_capacity(capacity))
    }

    fn wrap(inner: HashMap<K, V>) -> (r: Self)
        requires
            obeys_key_model::<K>(),
            inner@ == Map::<K, V>::empty(),
        ensures
            r.wf(),
            r@ == Map::<K, V>::empty(),
    {
        TotalHashMap { inner, common: C::common(), _commonality: PhantomData }
    }

    /// Reserves room for at least `additional` more *uncommon* entries.
    pub fn reserve(&mut self, additional: usize)
        requires
            old(self).wf(),
        ensures
            final(self).wf(),
            final(self)@ == old(self)@,
            final(self).common_value() == old(self).common_value(),
    {
        self.inner.reserve(additional);
    }

    /// Shrinks the room for *uncommon* entries as much as possible.
    pub fn shrink_to_fit(&mut self)
        requires
            old(self).wf(),
        ensures
            final(self).wf(),
            final(self)@ == old(self)@,
            final(self).common_value() == old(self).common_value(),
    {
        shrink_to_fit(&mut self.inner);
    }

    /// Shrinks the room for *uncommon* entries, keeping room for at least `min_capacity`.
    pub fn shrink_to(&mut self, min_capacity: usize)
        requires
            old(self).wf(),
        ensures
            final(self).wf(),
            final(self)@ == old(self)@,
            final(self).common_value() == old(self).common_value(),
    {
        shrink_to(&mut self.inner, min_capacity);
    }

    /// Returns a reference to the value associated with `key`.
    pub fn get(&self, key: &K) -> (r: &V)
        requires
            self.wf(),
        ensures
            *r == self.spec_get(*key),
    {
        match self.inner.get(key) {
            Some(v) => v,
            None => &self.common,
        }
    }

    /// Returns true if the map stores an *uncommon* entry for `key`.
    pub fn contains_key(&self, key: &K) -> (r: bool)
        requires
            self.wf(),
        ensures
            r == self@.contains_key(*key),
    {
        self.inner.contains_key(key)
    }

    /// Associates `key` with `value`, and returns the value previously associated with `key`.
    pub fn insert(&mut self, key: K, value: V) -> (r: V)
        requires
            old(self).wf(),
        ensures
            final(self).wf(),
            final(self)@ == stored_after_insert::<K, V, C>(old(self)@, key, value),
            final(self).common_value() == old(self).common_value(),
            old(self)@.contains_key(key) ==> r == old(self)@[key],
            !old(self)@.contains_key(key) ==> C::spec_is_common(r),
    {
        let prev = if C::is_common(&value) {
            self.inner.remove(&key)
        } else {
            self.inner.insert(key, value)
        };
        match prev {
            Some(v) => v,
            None => C::common(),
        }
    }

    /// Associates `key` with the *common* value, and returns the value previously associated
    /// with `key`.
    pub fn remove(&mut self, key: &K) -> (r: V)
        requires
            old(self).wf(),
        ensures
            final(self).wf(),
            final(self)@ == old(self)@.remove(*key),
            final(self).common_value() == old(self).common_value(),
            old(self)@.contains_key(*key) ==> r == old(self)@[*key],
            !old(self)@.contains_key(*key) ==> C::spec_is_common(r),
    {
        match self.inner.remove(key) {
            Some(v) => v,
            None => C::common(),
        }
    }

    /// Gets `key`'s entry for in-place manipulation. The map is left as it is until
    /// [Entry::release] resolves the entry.
    pub fn entry(&mut self, key: K) -> (r: Entry<'_, K, V, C>)
        requires
            old(self).wf(),
        ensures
            r.wf(),
            r.map@ == old(self)@,
            r.map.common_value() == old(self).common_value(),
            r.key == EntryKey::Owned(key),
            r.pending is None <==> old(self)@.contains_key(key),
            r.pending matches Some(v) ==> C::spec_is_common(v),
            *final(self) == *final(r.map),
    {
        if self.inner.contains_key(&key) {
            Entry { map: self, key: EntryKey::Owned(key), pending: None }
        } else {
            let value = C::common();
            Entry { map: self, key: EntryKey::Owned(key), pending: Some(value) }
        }
    }

    /// Gets `key`'s entry, as [entry](Self::entry) does, if `key` holds an *uncommon* value;
    /// otherwise returns [None] and leaves the map as it is.
    pub fn uncommon_entry<'a>(&'a mut self, key: &'a K) -> (r: Option<Entry<'a, K, V, C>>)
        requires
            old(self).wf(),
        ensures
            r is None <==> !old(self)@.contains_key(*key),
            r is None ==> *final(self) == *old(self),
            r matches Some(e) ==> {
                &&& e.wf()
                &&& e.map@ == old(self)@
                &&& e.map.common_value() == old(self).common_value()
                &&& e.key == EntryKey::Borrowed(key)
                &&& e.pending is None
                &&& *final(self) == *final(e.map)
            },
    {
        if self.inner.contains_key(key) {
            Some(Entry { map: self, key: EntryKey::Borrowed(key), pending: None })
        } else {
            None
        }
    }
}

/// Relies on `HashMap::capacity`, which depends on the allocator: nothing is stated of it.
#[verifier::external_body]
fn capacity<K, V>(m: &HashMap<K, V>) -> usize {
    m.capacity()
}

/// Relies on `HashMap::shrink_to_fit`: it changes the capacity, never the entries.
#[verifier::external_body]
fn shrink_to_fit<K: Eq + Hash, V>(m: &mut HashMap<K, V>)
    ensures
        final(m)@ == old(m)@,
{
    m.shrink_to_fit()
}

/// Relies on `HashMap::shrink_to`: it changes the capacity, never the entries.
#[verifier::external_body]
fn shrink_to<K: Eq + Hash, V>(m: &mut HashMap<K, V>, min_capacity: usize)
    ensures
        final(m)@ == old(m)@,
{
    m.shrink_to(min_capacity)
}

/// Relies on `HashMap::get_mut`: a mutable reference to the value stored under `key`.
#[verifier::external_body]
fn value_mut<'a, K: Eq + Hash, V>(m: &'a mut HashMap<K, V>, key: &K) -> (r: Option<&'a mut V>)
    ensures
        obeys_key_model::<K>() ==> match r {
            Some(v) => {
                &&& old(m)@.contains_key(*key)
                &&& *v == old(m)@[*key]
                &&& final(m)@ == old(m)@.insert(*key, *final(v))
            },
            None => !old(m)@.contains_key(*key) && final(m)@ == old(m)@,
        },
{
    m.get_mut(key)
}

/// The key of an [Entry]: owned when the entry came from [TotalHashMap::entry], borrowed when
/// it came from [TotalHashMap::uncommon_entry].
#[derive(Debug)]
pub enum EntryKey<'a, K> {
    Owned(K),
    Borrowed(&'a K),
}

impl<'a, K> EntryKey<'a, K> {
    /// The key itself.
    pub open spec fn spec_key(self) -> K {
        match self {
            EntryKey::Owned(k) => k,
            EntryKey::Borrowed(k) => *k,
        }
    }

    /// Returns a reference to the key.
    pub fn get(&self) -> (r: &K)
        ensures
            *r == self.spec_key(),
    {
        match self {
            EntryKey::Owned(k) => k,
            EntryKey::Borrowed(k) => k,
        }
    }
}

/// A single entry of a [TotalHashMap], got by [TotalHashMap::entry] or
/// [TotalHashMap::uncommon_entry].
///
/// An occupied entry's value stays in `map` and is changed there; a vacant entry holds its value
/// in `pending` until it is resolved. [release](Self::release) resolves the entry: an occupied
/// entry whose value has become common is removed, a vacant entry whose value is uncommon is
/// stored. The entry must be released: one that is dropped instead is not resolved, so a vacant
/// entry's value is lost and a common value written to an occupied entry stays stored.
#[must_use]
#[derive(Debug)]
pub struct Entry<'a, K, V, C: Commonality<V> = DefaultCommonality> {
    /// The map the entry belongs to.
    pub map: &'a mut TotalHashMap<K, V, C>,
    /// The entry's key.
    pub key: EntryKey<'a, K>,
    /// The value of a vacant entry, not stored in `map` yet; [None] for an occupied entry.
    pub pending: Option<V>,
}

impl<'a, K, V, C: Commonality<V>> Entry<'a, K, V, C> {
    /// The entry's key.
    pub open spec fn spec_key(&self) -> K {
        self.key.spec_key()
    }

    /// The entry's current value: the pending one, or the one stored in the map.
    pub open spec fn spec_value(&self) -> V {
        match self.pending {
            Some(v) => v,
            None => self.map@[self.spec_key()],
        }
    }

    /// The entry's invariant: the map is well formed but for the entry's key, which it stores
    /// exactly when the entry is occupied; only an entry with an owned key can be vacant.
    pub open spec fn wf(&self) -> bool {
        &&& self.map.wf_except(self.spec_key())
        &&& (self.pending is Some <==> !self.map@.contains_key(self.spec_key()))
        &&& (self.pending is Some ==> self.key is Owned)
    }
}

impl<'a, K: Eq + Hash, V, C: Commonality<V>> Entry<'a, K, V, C> {
    /// Returns a reference to the entry's current value.
    pub fn get(&self) -> (r: &V)
        requires
            self.wf(),
        ensures
            *r == self.spec_value(),
    {
        match &self.pending {
            Some(v) => v,
            None => self.map.inner.get(self.key.get()).unwrap(),
        }
    }

    /// Returns a mutable reference to the entry's current value.
    pub fn get_mut(&mut self) -> (r: &mut V)
        requires
            old(self).wf(),
        ensures
            *r == old(self).spec_value(),
            final(self).wf(),
            final(self).key == old(self).key,
            final(self).pending is Some <==> old(self).pending is Some,
            final(self).spec_value() == *final(r),
            old(self).pending is Some ==> final(self).map@ == old(self).map@,
            old(self).pending is None ==> final(self).map@ == old(self).map@.insert(
                old(self).spec_key(),
                *final(r),
            ),
            final(self).map.common_value() == old(self).map.common_value(),
            *final(final(self).map) == *final(old(self).map),
    {
        match &mut self.pending {
            Some(v) => v,
            None => value_mut(&mut self.map.inner, self.key.get()).unwrap(),
        }
    }

    /// Resolves the entry: an uncommon value ends up stored under the entry's key, a common one
    /// does not.
    pub fn release(self)
        requires
            self.wf(),
        ensures
            final(self.map).wf(),
            final(self.map)@ == stored_after_insert::<K, V, C>(
                old(self.map)@,
                self.spec_key(),
                self.spec_value(),
            ),
            final(self.map).common_value() == old(self.map).common_value(),
    {
        let Entry { map, key, pending } = self;
        match pending {
            Some(value) => match key {
                EntryKey::Owned(k) => {
                    if !C::is_common(&value) {
                        map.inner.insert(k, value);
                    } else {
                        assert(map.inner@.remove(k) =~= map.inner@);
                    }
                },
                EntryKey::Borrowed(_) => {},
            },
            None => {
                let k = key.get();
                if C::is_common(map.inner.get(k).unwrap()) {
                    map.inner.remove(k);
                } else {
                    assert(map.inner@.insert(*k, map.inner@[*k]) =~= map.inner@);
                }
            },
        }
    }
}

impl<K: Clone, V: Clone, C: Commonality<V>> Clone for TotalHashMap<K, V, C> {
    fn clone(&self) -> (r: Self)
        ensures
            r@ == self@,
            self.wf() ==> r.wf(),
            C::spec_is_common(r.common_value()),
    {
        // the clone's common value is a fresh `C::common()`: `V::clone` is not known to keep a
        // value common
        TotalHashMap { inner: self.inner.clone(), common: C::common(), _commonality: PhantomData }
    }
}

impl<K, V, C: Commonality<V>> Default for TotalHashMap<K, V, C> {
    fn default() -> (r: Self)
        ensures
            r@ == Map::<K, V>::empty(),
            obeys_key_model::<K>() ==> r.wf(),
    {
        TotalHashMap { inner: HashMap::new(), common: C::common(), _commonality: PhantomData }
    }
}

// Population from sequences of entries

impl<K: Eq + Hash, V, C: Commonality<V>> TotalHashMap<K, V, C> {
    /// Inserts each of `entries`, in order.
    pub fn extend(&mut self, entries: Vec<(K, V)>)
        requires
            old(self).wf(),
        ensures
            final(self).wf(),
            final(self)@ == stored_after_inserts::<K, V, C>(old(self)@, entries@),
            final(self).common_value() == old(self).common_value(),
    {
        let ghost s = entries@;
        for kv in it: entries
            invariant
                it.seq() == s,
                self.wf(),
                self@ == stored_after_inserts::<K, V, C>(old(self)@, s.take(it.index() as int)),
                self.common_value() == old(self).common_value(),
        {
            let ghost i = it.index();
            let (k, v) = kv;
            assert(s.take(i + 1).drop_last() =~= s.take(i as int));
            self.insert(k, v);
        }
        assert(s.take(s.len() as int) =~= s);
    }

    /// Builds a map by inserting each of `entries`, in order, into an empty one.
    pub fn from_iter(entries: Vec<(K, V)>) -> (r: Self)
        requires
            obeys_key_model::<K>(),
        ensures
            r.wf(),
            r@ == stored_after_inserts::<K, V, C>(Map::empty(), entries@),
    {
        let mut this = Self::new();
        this.extend(entries);
        this
    }
}

/// `map[&key]` is [get](TotalHashMap::get).
impl<K: Eq + Hash, V, C: Commonality<V>> std::ops::Index<&K> for TotalHashMap<K, V, C> {
    type Output = V;

    fn index(&self, key: &K) -> (r: &V)
        ensures
            self.wf() ==> *r == self.spec_get(*key),
    {
        match self.inner.get(key) {
            Some(v) => v,
            None => &self.common,
        }
    }
}

// Equality

/// Two maps are equal when their common values are equal and they store equal entries, by the
/// equality of `K` and `V`. Where those equalities are spec equality, this is exactly equal
/// common values and equal stored entries. A map whose common value is not equal to itself (a
/// NaN) is not equal to itself either.
impl<K: Eq + Hash, V: PartialEq, C: Commonality<V>> PartialEq for TotalHashMap<K, V, C> {
    fn eq(&self, other: &Self) -> (r: bool) {
        proof {
            reveal(vstd::laws_eq::obeys_concrete_eq);
        }
        self.common == other.common && same_entries(&self.inner, &other.inner)
    }
}

impl<K: Eq + Hash, V: Eq, C: Commonality<V>> Eq for TotalHashMap<K, V, C> {

}

impl<K: Eq + Hash, V: PartialEq, C: Commonality<V>> vstd::std_specs::cmp::PartialEqSpecImpl for TotalHashMap<K, V, C> {
    open spec fn obeys_eq_spec() -> bool {
        &&& obeys_key_model::<K>()
        &&& vstd::laws_eq::obeys_concrete_eq::<K>()
        &&& vstd::laws_eq::obeys_concrete_eq::<V>()
    }

    open spec fn eq_spec(&self, other: &Self) -> bool {
        self.common_value() == other.common_value() && self@ == other@
    }
}

/// Relies on `HashMap`'s `PartialEq`: the same number of entries, and equal keys with equal
/// values. Where the equalities of `K` and `V` are spec equality, that is equal entries.
#[verifier::external_body]
fn same_entries<K: Eq + Hash, V: PartialEq>(a: &HashMap<K, V>, b: &HashMap<K, V>) -> (r: bool)
    ensures
        (obeys_key_model::<K>() && vstd::laws_eq::obeys_concrete_eq::<K>()
            && vstd::laws_eq::obeys_concrete_eq::<V>()) ==> r == (a@ == b@),
{
    a == b
}

// Iteration

impl<K, V, C: Commonality<V>> TotalHashMap<K, V, C> {
    /// The keys of the *uncommon* entries, in arbitrary order.
    pub fn keys(&self) -> (r: Keys<'_, K, V>)
        requires
            self.wf(),
        ensures
            r.remaining().unref().to_set() == self@.dom(),
            r.remaining().no_duplicates(),
            r.remaining().len() == self@.len(),
    {
        let mut items: VecDeque<&K> = VecDeque::new();
        for k in it: self.inner.keys()
            invariant
                items@ == it.seq().take(it.index() as int),
        {
            items.push_back(k);
        }
        assert(items@ == IteratorSpec::remaining(&spec_keys_iter(&self.inner)));
        Keys { items, _values: PhantomData }
    }

    /// The *uncommon* values, in arbitrary order.
    pub fn values(&self) -> (r: Values<'_, K, V>)
        requires
            self.wf(),
        ensures
            exists|s: Seq<(K, V)>|
                {
                    &&& lists_entries(s, self@)
                    &&& r.remaining().unref() == s.map_values(|kv: (K, V)| kv.1)
                },
    {
        let mut items: VecDeque<&V> = VecDeque::new();
        let ghost pairs = IteratorSpec::remaining(&vstd::std_specs::hash::spec_hash_map_iter(&self.inner));
        for kv in it: self.inner.iter()
            invariant
                it.seq() == pairs,
                items@ == pairs.take(it.index() as int).map_values(|kv: (&K, &V)| kv.1),
        {
            proof {
                assert(pairs.take(it.index() + 1) =~= pairs.take(it.index() as int).push(kv));
            }
            items.push_back(kv.1);
        }
        proof {
            assert(pairs.take(pairs.len() as int) =~= pairs);
            lemma_lists_pairs(pairs, self@);
            assert(items@.unref() =~= pairs.unref().map_values(|kv: (K, V)| kv.1));
        }
        Values { items, _keys: PhantomData }
    }

    /// The *uncommon* entries, in arbitrary order.
    pub fn iter(&self) -> (r: Iter<'_, K, V>)
        requires
            self.wf(),
        ensures
            lists_entries(r.remaining().unref(), self@),
    {
        let mut items: VecDeque<(&K, &V)> = VecDeque::new();
        for kv in it: self.inner.iter()
            invariant
                items@ == it.seq().take(it.index() as int),
        {
            items.push_back(kv);
        }
        assert(items@ == IteratorSpec::remaining(&vstd::std_specs::hash::spec_hash_map_iter(&self.inner)));
        proof {
            lemma_lists_pairs(items@, self@);
        }
        Iter { items }
    }

    /// Resets every key of the map to the *common* value, and returns the entries that were
    /// *uncommon*, in arbitrary order.
    pub fn drain(&mut self) -> (r: Drain<'_, K, V>)
        requires
            old(self).wf(),
        ensures
            final(self).wf(),
            final(self)@ == Map::<K, V>::empty(),
            final(self).common_value() == old(self).common_value(),
            lists_entries(r.remaining(), old(self)@),
    {
        let mut taken = HashMap::new();
        std::mem::swap(&mut self.inner, &mut taken);
        Drain { items: take_entries(taken), _map: PhantomData }
    }

    /// Consumes the map and returns its *uncommon* entries, in arbitrary order.
    pub fn into_iter(self) -> (r: IntoIter<K, V>)
        requires
            self.wf(),
        ensures
            lists_entries(r.remaining(), self@),
    {
        IntoIter { items: take_entries(self.inner) }
    }

    /// Consumes the map and returns the keys of its *uncommon* entries, in arbitrary order.
    pub fn into_keys(self) -> (r: IntoKeys<K, V>)
        requires
            self.wf(),
        ensures
            exists|s: Seq<(K, V)>|
                {
                    &&& lists_entries(s, self@)
                    &&& r.remaining() == s.map_values(|kv: (K, V)| kv.0)
                },
    {
        let mut entries = take_entries(self.inner);
        let ghost s = entries@;
        let mut items: VecDeque<K> = VecDeque::new();
        while entries.len() > 0
            invariant
                items@ + entries@.map_values(|kv: (K, V)| kv.0) == s.map_values(|kv: (K, V)| kv.0),
            decreases entries.len(),
        {
            let ghost before = entries@;
            let (k, _v) = entries.pop_front().unwrap();
            assert(before.map_values(|kv: (K, V)| kv.0) =~= seq![k] + entries@.map_values(
                |kv: (K, V)| kv.0,
            ));
            items.push_back(k);
        }
        assert(items@ =~= s.map_values(|kv: (K, V)| kv.0));
        assert(lists_entries(s, self@));
        IntoKeys { items, _values: PhantomData }
    }

    /// Consumes the map and returns its *uncommon* values, in arbitrary order.
    pub fn into_values(self) -> (r: IntoValues<K, V>)
        requires
            self.wf(),
        ensures
            exists|s: Seq<(K, V)>|
                {
                    &&& lists_entries(s, self@)
                    &&& r.remaining() == s.map_values(|kv: (K, V)| kv.1)
                },
    {
        let mut entries = take_entries(self.inner);
        let ghost s = entries@;
        let mut items: VecDeque<V> = VecDeque::new();
        while entries.len() > 0
            invariant
                items@ + entries@.map_values(|kv: (K, V)| kv.1) == s.map_values(|kv: (K, V)| kv.1),
            decreases entries.len(),
        {
            let ghost before = entries@;
            let (_k, v) = entries.pop_front().unwrap();
            assert(before.map_values(|kv: (K, V)| kv.1) =~= seq![v] + entries@.map_values(
                |kv: (K, V)| kv.1,
            ));
            items.push_back(v);
        }
        assert(items@ =~= s.map_values(|kv: (K, V)| kv.1));
        assert(lists_entries(s, self@));
        IntoValues { items, _keys: PhantomData }
    }
}

// Low-level access

impl<K, V, C: Commonality<V>> TotalHashMap<K, V, C> {
    /// The underlying [HashMap], which holds the *uncommon* entries.
    pub fn as_hash_map(&self) -> (r: &HashMap<K, V>)
        ensures
            r@ == self@,
    {
        &self.inner
    }
}

impl<K: Eq + Hash, V, C: Commonality<V>> TotalHashMap<K, V, C> {
    /// Gives unrestricted access to the underlying [HashMap]. Its entries may become common
    /// meanwhile; [AsHashMapMut::release] removes those that have.
    ///
    /// To change a single entry, [entry](Self::entry) is enough.
    pub fn as_hash_map_mut(&mut self) -> (r: AsHashMapMut<'_, K, V, C>)
        requires
            old(self).wf(),
        ensures
            r.map.wf_unswept(),
            r.map@ == old(self)@,
            r.map.common_value() == old(self).common_value(),
            *final(self) == *final(r.map),
    {
        AsHashMapMut { map: self }
    }
}

/// Unrestricted access to the underlying [HashMap] of a [TotalHashMap], given by
/// [TotalHashMap::as_hash_map_mut].
///
/// The entries may be changed freely, common values included. [release](Self::release) then
/// removes every entry whose value is common. The view must be released: one that is dropped
/// instead leaves common values stored.
#[must_use]
#[derive(Debug)]
pub struct AsHashMapMut<'a, K, V, C: Commonality<V> = DefaultCommonality> {
    /// The map whose entries are open to change.
    pub map: &'a mut TotalHashMap<K, V, C>,
}

impl<'a, K: Eq + Hash, V, C: Commonality<V>> AsHashMapMut<'a, K, V, C> {
    /// Returns a reference to the map's entries.
    pub fn get(&self) -> (r: &HashMap<K, V>)
        ensures
            r@ == old(self.map)@,
    {
        &self.map.inner
    }

    /// Returns a mutable reference to the map's entries.
    pub fn get_mut(&mut self) -> (r: &mut HashMap<K, V>)
        requires
            old(self).map.wf_unswept(),
        ensures
            r@ == old(self).map@,
            final(self).map.wf_unswept(),
            final(self).map@ == final(r)@,
            final(self).map.common_value() == old(self).map.common_value(),
            *final(final(self).map) == *final(old(self).map),
    {
        &mut self.map.inner
    }

    /// Removes every entry whose value is common, which restores the map's invariant.
    pub fn release(self)
        requires
            old(self.map).wf_unswept(),
        ensures
            final(self.map).wf(),
            final(self.map)@ == compacted::<K, V, C>(old(self.map)@),
            final(self.map).common_value() == old(self.map).common_value(),
    {
        let map = self.map;
        let mut entries = HashMap::new();
        std::mem::swap(&mut map.inner, &mut entries);
        let ghost src = entries@;
        let mut list = take_entries(entries);
        let ghost s = list@;
        let mut out: HashMap<K, V> = HashMap::new();
        let ghost mut i: int = 0;
        while list.len() > 0
            invariant
                lists_entries(s, src),
                0 <= i <= s.len(),
                list@ == s.subrange(i, s.len() as int),
                obeys_key_model::<K>(),
                forall|j: int|
                    0 <= j < i && !C::spec_is_common(s[j].1) ==> out@.contains_key(#[trigger] s[j].0)
                        && out@[s[j].0] == s[j].1,
                forall|k: K| #[trigger]
                    out@.contains_key(k) ==> exists|j: int|
                        0 <= j < i && #[trigger] s[j].0 == k && !C::spec_is_common(s[j].1),
            decreases list.len(),
        {
            let (k, v) = list.pop_front().unwrap();
            assert(s[i] == (k, v));
            if !C::is_common(&v) {
                out.insert(k, v);
            }
            proof {
                i = i + 1;
            }
        }
        proof {
            assert forall|k: K| #[trigger] out@.contains_key(k) implies !C::spec_is_common(out@[k]) by {
                let j = choose|j: int| 0 <= j < i && #[trigger] s[j].0 == k && !C::spec_is_common(s[j].1);
            }
            assert forall|k: K| compacted::<K, V, C>(src).contains_key(k) implies out@.contains_key(k) by {
                let j = choose|j: int| 0 <= j < s.len() && #[trigger] s[j].0 == k;
            }
            assert(out@ =~= compacted::<K, V, C>(src)) by {
                assert forall|k: K| #[trigger] out@.contains_key(k) implies compacted::<K, V, C>(src).contains_key(k)
                    && out@[k] == src[k] by {
                    let j = choose|j: int| 0 <= j < i && #[trigger] s[j].0 == k && !C::spec_is_common(s[j].1);
                }
            }
        }
        map.inner = out;
    }
}

/// Relies on `HashMap`'s `IntoIterator` and `VecDeque::from_iter`: every entry of the map once.
#[verifier::external_body]
fn take_entries<K, V>(m: HashMap<K, V>) -> (r: VecDeque<(K, V)>)
    ensures
        obeys_key_model::<K>() ==> {
            &&& lists_entries(r@, m@)
        },
{
    VecDeque::from_iter(m)
}

/// An iterator over the keys of the *uncommon* entries of a [TotalHashMap], created by
/// [TotalHashMap::keys].
#[derive(Debug)]
pub struct Keys<'a, K, V> {
    items: VecDeque<&'a K>,
    _values: PhantomData<&'a V>,
}

impl<'a, K, V> Default for Keys<'a, K, V> {
    fn default() -> (r: Self)
        ensures
            r.remaining().len() == 0,
    {
        Keys { items: VecDeque::new(), _values: PhantomData }
    }
}

impl<'a, K, V> Clone for Keys<'a, K, V> {
    fn clone(&self) -> (r: Self)
        ensures
            r.remaining() == self.remaining(),
    {
        let r = Keys { items: self.items.clone(), _values: PhantomData };
        assert(r.items@ =~= self.items@);
        r
    }
}

impl<'a, K, V> Keys<'a, K, V> {
    /// The keys not yet returned.
    pub closed spec fn remaining(&self) -> Seq<&'a K> {
        self.items@
    }

    /// Returns the next key.
    pub fn next(&mut self) -> (r: Option<&'a K>)
        ensures
            old(self).remaining().len() == 0 ==> r is None && final(self).remaining() == old(self).remaining(),
            old(self).remaining().len() > 0 ==> r == Some(old(self).remaining()[0])
                && final(self).remaining() == old(self).remaining().drop_first(),
    {
        self.items.pop_front()
    }

    /// The number of keys not yet returned.
    pub fn len(&self) -> (r: usize)
        ensures
            r == self.remaining().len(),
    {
        self.items.len()
    }
}

/// An owning iterator over the keys of the *uncommon* entries of a [TotalHashMap], created by
/// [TotalHashMap::into_keys].
#[derive(Debug)]
pub struct IntoKeys<K, V> {
    items: VecDeque<K>,
    _values: PhantomData<V>,
}

impl<K, V> Default for IntoKeys<K, V> {
    fn default() -> (r: Self)
        ensures
            r.remaining().len() == 0,
    {
        IntoKeys { items: VecDeque::new(), _values: PhantomData }
    }
}

impl<K, V> IntoKeys<K, V> {
    /// The keys not yet returned.
    pub closed spec fn remaining(&self) -> Seq<K> {
        self.items@
    }

    /// Returns the next key.
    pub fn next(&mut self) -> (r: Option<K>)
        ensures
            old(self).remaining().len() == 0 ==> r is None && final(self).remaining() == old(self).remaining(),
            old(self).remaining().len() > 0 ==> r == Some(old(self).remaining()[0])
                && final(self).remaining() == old(self).remaining().drop_first(),
    {
        self.items.pop_front()
    }

    /// The number of keys not yet returned.
    pub fn len(&self) -> (r: usize)
        ensures
            r == self.remaining().len(),
    {
        self.items.len()
    }
}

/// An iterator over the *uncommon* values of a [TotalHashMap], created by
/// [TotalHashMap::values].
#[derive(Debug)]
pub struct Values<'a, K, V> {
    items: VecDeque<&'a V>,
    _keys: PhantomData<&'a K>,
}

impl<'a, K, V> Default for Values<'a, K, V> {
    fn default() -> (r: Self)
        ensures
            r.remaining().len() == 0,
    {
        Values { items: VecDeque::new(), _keys: PhantomData }
    }
}

impl<'a, K, V> Clone for Values<'a, K, V> {
    fn clone(&self) -> (r: Self)
        ensures
            r.remaining() == self.remaining(),
    {
        let r = Values { items: self.items.clone(), _keys: PhantomData };
        assert(r.items@ =~= self.items@);
        r
    }
}

impl<'a, K, V> Values<'a, K, V> {
    /// The values not yet returned.
    pub closed spec fn remaining(&self) -> Seq<&'a V> {
        self.items@
    }

    /// Returns the next value.
    pub fn next(&mut self) -> (r: Option<&'a V>)
        ensures
            old(self).remaining().len() == 0 ==> r is None && final(self).remaining() == old(self).remaining(),
            old(self).remaining().len() > 0 ==> r == Some(old(self).remaining()[0])
                && final(self).remaining() == old(self).remaining().drop_first(),
    {
        self.items.pop_front()
    }

    /// The number of values not yet returned.
    pub fn len(&self) -> (r: usize)
        ensures
            r == self.remaining().len(),
    {
        self.items.len()
    }
}

/// An owning iterator over the *uncommon* values of a [TotalHashMap], created by
/// [TotalHashMap::into_values].
#[derive(Debug)]
pub struct IntoValues<K, V> {
    items: VecDeque<V>,
    _keys: PhantomData<K>,
}

impl<K, V> Default for IntoValues<K, V> {
    fn default() -> (r: Self)
        ensures
            r.remaining().len() == 0,
    {
        IntoValues { items: VecDeque::new(), _keys: PhantomData }
    }
}

impl<K, V> IntoValues<K, V> {
    /// The values not yet returned.
    pub closed spec fn remaining(&self) -> Seq<V> {
        self.items@
    }

    /// Returns the next value.
    pub fn next(&mut self) -> (r: Option<V>)
        ensures
            old(self).remaining().len() == 0 ==> r is None && final(self).remaining() == old(self).remaining(),
            old(self).remaining().len() > 0 ==> r == Some(old(self).remaining()[0])
                && final(self).remaining() == old(self).remaining().drop_first(),
    {
        self.items.pop_front()
    }

    /// The number of values not yet returned.
    pub fn len(&self) -> (r: usize)
        ensures
            r == self.remaining().len(),
    {
        self.items.len()
    }
}

/// An iterator over the *uncommon* entries of a [TotalHashMap], created by
/// [TotalHashMap::iter].
#[derive(Debug)]
pub struct Iter<'a, K, V> {
    items: VecDeque<(&'a K, &'a V)>,
}

impl<'a, K, V> Default for Iter<'a, K, V> {
    fn default() -> (r: Self)
        ensures
            r.remaining().len() == 0,
    {
        Iter { items: VecDeque::new() }
    }
}

impl<'a, K, V> Clone for Iter<'a, K, V> {
    fn clone(&self) -> (r: Self)
        ensures
            r.remaining() == self.remaining(),
    {
        let mut items: VecDeque<(&'a K, &'a V)> = VecDeque::new();
        let n = self.items.len();
        for i in 0..n
            invariant
                n == self.items@.len(),
                items@ == self.items@.take(i as int),
        {
            items.push_back(self.items[i]);
            assert(items@ =~= self.items@.take(i + 1));
        }
        assert(items@ =~= self.items@);
        Iter { items }
    }
}

impl<'a, K, V> Iter<'a, K, V> {
    /// The entries not yet returned.
    pub closed spec fn remaining(&self) -> Seq<(&'a K, &'a V)> {
        self.items@
    }

    /// Returns the next entry.
    pub fn next(&mut self) -> (r: Option<(&'a K, &'a V)>)
        ensures
            old(self).remaining().len() == 0 ==> r is None && final(self).remaining() == old(self).remaining(),
            old(self).remaining().len() > 0 ==> r == Some(old(self).remaining()[0])
                && final(self).remaining() == old(self).remaining().drop_first(),
    {
        self.items.pop_front()
    }

    /// The number of entries not yet returned.
    pub fn len(&self) -> (r: usize)
        ensures
            r == self.remaining().len(),
    {
        self.items.len()
    }
}

/// An owning iterator over the *uncommon* entries of a [TotalHashMap], created by
/// [TotalHashMap::into_iter].
#[derive(Debug)]
pub struct IntoIter<K, V> {
    items: VecDeque<(K, V)>,
}

impl<K, V> Default for IntoIter<K, V> {
    fn default() -> (r: Self)
        ensures
            r.remaining().len() == 0,
    {
        IntoIter { items: VecDeque::new() }
    }
}

impl<K, V> IntoIter<K, V> {
    /// The entries not yet returned.
    pub closed spec fn remaining(&self) -> Seq<(K, V)> {
        self.items@
    }

    /// Returns the next entry.
    pub fn next(&mut self) -> (r: Option<(K, V)>)
        ensures
            old(self).remaining().len() == 0 ==> r is None && final(self).remaining() == old(self).remaining(),
            old(self).remaining().len() > 0 ==> r == Some(old(self).remaining()[0])
                && final(self).remaining() == old(self).remaining().drop_first(),
    {
        self.items.pop_front()
    }

    /// The number of entries not yet returned.
    pub fn len(&self) -> (r: usize)
        ensures
            r == self.remaining().len(),
    {
        self.items.len()
    }
}

/// The entries drained from a [TotalHashMap] by [TotalHashMap::drain].
#[derive(Debug)]
pub struct Drain<'a, K, V> {
    items: VecDeque<(K, V)>,
    _map: PhantomData<&'a mut HashMap<K, V>>,
}

impl<'a, K, V> Drain<'a, K, V> {
    /// The entries not yet returned.
    pub closed spec fn remaining(&self) -> Seq<(K, V)> {
        self.items@
    }

    /// Returns the next entry.
    pub fn next(&mut self) -> (r: Option<(K, V)>)
        ensures
            old(self).remaining().len() == 0 ==> r is None && final(self).remaining() == old(self).remaining(),
            old(self).remaining().len() > 0 ==> r == Some(old(self).remaining()[0])
                && final(self).remaining() == old(self).remaining().drop_first(),
    {
        self.items.pop_front()
    }

    /// The number of entries not yet returned.
    pub fn len(&self) -> (r: usize)
        ensures
            r == self.remaining().len(),
    {
        self.items.len()
    }
}

} // verus!
