//! Provides [EmptyCommonality], a [commonality](Commonality) for collection types whose common
//! value is an empty collection.

use std::collections::{BTreeMap, BTreeSet, HashMap, HashSet, VecDeque};

use vstd::prelude::*;

use crate::{Commonality, TotalBTreeMap, TotalHashMap};

verus! {

/// A [commonality](Commonality) for collection types, whose common value is an empty collection.
///
/// For most collections this agrees with [DefaultCommonality](crate::DefaultCommonality), since
/// their default value is empty; this one needs no equality on the collection type.
#[derive(Debug, Clone, Copy, PartialEq, Eq, Hash)]
pub struct EmptyCommonality(());

impl<T> Commonality<Vec<T>> for EmptyCommonality {
    open spec fn spec_is_common(value: Vec<T>) -> bool {
        value@.len() == 0
    }

    fn common() -> (r: Vec<T>) {
        Vec::new()
    }

    fn is_common(value: &Vec<T>) -> (r: bool) {
        value.len() == 0
    }
}

impl<T> Commonality<VecDeque<T>> for EmptyCommonality {
    open spec fn spec_is_common(value: VecDeque<T>) -> bool {
        value@.len() == 0
    }

    fn common() -> (r: VecDeque<T>) {
        VecDeque::new()
    }

    fn is_common(value: &VecDeque<T>) -> (r: bool) {
        value.len() == 0
    }
}

impl<T> Commonality<HashSet<T>> for EmptyCommonality {
    open spec fn spec_is_common(value: HashSet<T>) -> bool {
        value@.is_empty()
    }

    fn common() -> (r: HashSet<T>) {
        HashSet::new()
    }

    fn is_common(value: &HashSet<T>) -> (r: bool) {
        value.is_empty()
    }
}

impl<K, V> Commonality<HashMap<K, V>> for EmptyCommonality {
    open spec fn spec_is_common(value: HashMap<K, V>) -> bool {
        value@.is_empty()
    }

    fn common() -> (r: HashMap<K, V>) {
        HashMap::new()
    }

    fn is_common(value: &HashMap<K, V>) -> (r: bool) {
        value.is_empty()
    }
}

impl<T> Commonality<BTreeSet<T>> for EmptyCommonality {
    open spec fn spec_is_common(value: BTreeSet<T>) -> bool {
        value@.is_empty()
    }

    fn common() -> (r: BTreeSet<T>) {
        BTreeSet::new()
    }

    fn is_common(value: &BTreeSet<T>) -> (r: bool) {
        value.is_empty()
    }
}

impl<K, V> Commonality<BTreeMap<K, V>> for EmptyCommonality {
    open spec fn spec_is_common(value: BTreeMap<K, V>) -> bool {
        value@.is_empty()
    }

    fn common() -> (r: BTreeMap<K, V>) {
        BTreeMap::new()
    }

    fn is_common(value: &BTreeMap<K, V>) -> (r: bool) {
        value.is_empty()
    }
}

impl<K, V, C: Commonality<V>> Commonality<TotalHashMap<K, V, C>> for EmptyCommonality {
    open spec fn spec_is_common(value: TotalHashMap<K, V, C>) -> bool {
        value@.is_empty()
    }

    fn common() -> (r: TotalHashMap<K, V, C>) {
        TotalHashMap::default()
    }

    fn is_common(value: &TotalHashMap<K, V, C>) -> (r: bool) {
        value.is_empty()
    }
}

impl<K, V, C: Commonality<V>> Commonality<TotalBTreeMap<K, V, C>> for EmptyCommonality {
    open spec fn spec_is_common(value: TotalBTreeMap<K, V, C>) -> bool {
        value@.is_empty()
    }

    fn common() -> (r: TotalBTreeMap<K, V, C>) {
        TotalBTreeMap::default()
    }

    fn is_common(value: &TotalBTreeMap<K, V, C>) -> (r: bool) {
        value.is_empty()
    }
}

} // verus!
