use std::collections::BTreeMap;

use total_maps::btree_map::{IntoIter, IntoKeys, IntoValues, Iter, Keys, Values};
use total_maps::{Commonality, TotalBTreeMap};

fn keys_of<'a>(mut it: Keys<'a, &'static str, &'static str>) -> Vec<&'static str> {
    let n = it.len();
    let mut out = Vec::new();
    while let Some(k) = it.next() {
        out.push(*k);
    }
    assert_eq!(out.len(), n);
    out
}

fn values_of<'a>(mut it: Values<'a, &'static str, &'static str>) -> Vec<&'static str> {
    let n = it.len();
    let mut out = Vec::new();
    while let Some(v) = it.next() {
        out.push(*v);
    }
    assert_eq!(out.len(), n);
    out
}

fn entries_of<'a>(mut it: Iter<'a, &'static str, &'static str>) -> Vec<(&'static str, &'static str)> {
    let n = it.len();
    let mut out = Vec::new();
    while let Some((k, v)) = it.next() {
        out.push((*k, *v));
    }
    assert_eq!(out.len(), n);
    out
}

fn owned_keys_of(mut it: IntoKeys<&'static str, &'static str>) -> Vec<&'static str> {
    let mut out = Vec::new();
    while let Some(k) = it.next() {
        out.push(k);
    }
    out
}

fn owned_values_of(mut it: IntoValues<&'static str, &'static str>) -> Vec<&'static str> {
    let mut out = Vec::new();
    while let Some(v) = it.next() {
        out.push(v);
    }
    out
}

fn owned_entries_of(mut it: IntoIter<&'static str, &'static str>) -> Vec<(&'static str, &'static str)> {
    let mut out = Vec::new();
    while let Some(kv) = it.next() {
        out.push(kv);
    }
    out
}

#[test]
fn btree_populate_basic() {
    let mut m = TotalBTreeMap::<_, _>::new();
    assert_eq!(m.insert("foo", "v_foo"), "");
    assert_eq!(m.insert("baz", ""), "");
    assert_eq!(m.insert("bar", "v_bar"), "");
    assert_eq!(m.insert("foo", "v_foo_2"), "v_foo");

    assert!(!m.is_empty());
    assert_eq!(m.len(), 2);
    assert_eq!(keys_of(m.keys()), ["bar", "foo"]);
    assert_eq!(values_of(m.values()), ["v_bar", "v_foo_2"]);
    assert_eq!(entries_of(m.iter()), [("bar", "v_bar"), ("foo", "v_foo_2")]);
    assert_eq!(owned_keys_of(m.clone().into_keys()), ["bar", "foo"]);
    assert_eq!(owned_values_of(m.clone().into_values()), ["v_bar", "v_foo_2"]);
    assert_eq!(owned_entries_of(m.into_iter()), [("bar", "v_bar"), ("foo", "v_foo_2")]);
}

#[test]
fn btree_populate_common_only() {
    let mut m = TotalBTreeMap::<_, _>::new();
    assert_eq!(m.insert("foo", ""), "");
    assert_eq!(m.insert("bar", ""), "");
    assert!(m.is_empty());
    assert_eq!(m.len(), 0);
    assert!(m.into_iter().next().is_none());
}

#[test]
fn btree_removal() {
    let mut m = TotalBTreeMap::<_, _>::new();

    assert_eq!(m.insert("foo", "bar"), "");
    assert_eq!(m.insert("baz", "quux"), "");
    assert_eq!(m.len(), 2);
    assert_eq!(entries_of(m.iter()), [("baz", "quux"), ("foo", "bar")]);

    assert_eq!(m.remove(&"foo"), "bar");
    assert_eq!(m.remove(&"xyzzy"), "");
    assert_eq!(m.len(), 1);
    assert_eq!(entries_of(m.iter()), [("baz", "quux")]);

    m.clear();
    assert_eq!(m.len(), 0);
    assert!(m.into_iter().next().is_none());
}

#[test]
fn btree_access() {
    let mut m = TotalBTreeMap::<_, _>::new();
    assert_eq!(m.insert("foo", "bar"), "");
    assert_eq!(m.insert("baz", ""), "");

    assert!(m.contains_key(&"foo"));
    assert_eq!(m.get(&"foo"), &"bar");
    assert_eq!(m[&"foo"], "bar");

    assert!(!m.contains_key(&"baz"));
    assert_eq!(m.get(&"baz"), &"");

    assert!(!m.contains_key(&"quux"));
    assert_eq!(m.get(&"quux"), &"");
    assert_eq!(m[&"quux"], "");
    assert_eq!(m[&"baz"], "");
}

#[test]
fn btree_entry_mut() {
    let mut m = TotalBTreeMap::<_, _>::new();

    let entry = m.entry("foo");
    assert_eq!(*entry.get(), "");
    entry.release();
    assert!(!m.contains_key(&"foo"));

    let mut entry = m.entry("foo");
    assert_eq!(*entry.get(), "");
    *entry.get_mut() = "bar";
    entry.release();
    assert_eq!(m.get(&"foo"), &"bar");

    let mut entry = m.entry("foo");
    assert_eq!(*entry.get(), "bar");
    *entry.get_mut() = "baz";
    entry.release();
    assert_eq!(m.get(&"foo"), &"baz");

    let mut entry = m.entry("foo");
    assert_eq!(*entry.get(), "baz");
    *entry.get_mut() = "";
    entry.release();
    assert!(!m.contains_key(&"foo"));
}

#[test]
fn btree_as_inner_mut() {
    let mut m = TotalBTreeMap::<_, _>::new();
    assert_eq!(m.insert("foo", "bar"), "");
    assert_eq!(m.insert("baz", "quux"), "");

    let mut view = m.as_btree_map_mut();
    let mut values = view.get_mut().values_mut().collect::<Vec<_>>();
    values.sort();
    assert_eq!(values.len(), 2);
    assert_eq!(values[0], &mut "bar");
    *values[0] = "bar2";
    assert_eq!(values[1], &mut "quux");
    *values[1] = "";
    view.release();

    assert_eq!(m.len(), 1);
    assert_eq!(entries_of(m.iter()), [("foo", "bar2")]);
}

#[test]
fn btree_from_iter() {
    let elems = [("foo", "bar"), ("baz", "quux"), ("xyzzy", ""), ("foo", "bar2"), ("baz", "")];

    let m = TotalBTreeMap::<_, _>::from_iter(elems.to_vec());
    assert_eq!(m.len(), 1);
    assert_eq!(entries_of(m.iter()), [("foo", "bar2")]);

    let mut m = TotalBTreeMap::<_, _>::new();
    m.insert("xyzzy", "plugh");
    m.insert("monkey", "banana");
    m.extend(elems.to_vec());
    assert_eq!(m.len(), 2);
    assert_eq!(entries_of(m.iter()), [("foo", "bar2"), ("monkey", "banana")]);
}

struct NaNCommonality;
impl Commonality<f64> for NaNCommonality {
    fn spec_is_common(value: f64) -> bool {
        value.is_nan()
    }
    fn common() -> f64 {
        f64::NAN
    }
    fn is_common(value: &f64) -> bool {
        value.is_nan()
    }
}

#[test]
fn btree_map_eq() {
    let a = TotalBTreeMap::<_, _>::from_iter(vec![("foo", "bar"), ("baz", "quux")]);
    let b = TotalBTreeMap::<_, _>::from_iter(vec![("baz", "quux"), ("foo", "bar")]);
    assert!(a == b);

    let c = TotalBTreeMap::<_, _>::from_iter(vec![("baz", "quux")]);
    assert!(a != c);

    let nan_map = TotalBTreeMap::<&str, f64, NaNCommonality>::new();
    assert!(nan_map != nan_map);
}

#[test]
fn btree_uncommon_entry() {
    let mut m = TotalBTreeMap::<_, _>::new();
    assert_eq!(m.insert("foo", "bar"), "");

    assert!(m.uncommon_entry(&"nope").is_none());
    assert_eq!(m.len(), 1);

    {
        let mut entry = m.uncommon_entry(&"foo").unwrap();
        assert_eq!(*entry.key.get(), "foo");
        *entry.get_mut() = "baz";
        entry.release();
    }
    assert_eq!(m.get(&"foo"), &"baz");

    {
        let mut entry = m.uncommon_entry(&"foo").unwrap();
        *entry.get_mut() = "";
        entry.release();
    }
    assert!(!m.contains_key(&"foo"));
}

#[test]
fn btree_keys_in_ascending_order() {
    let mut m = TotalBTreeMap::<_, _>::new();
    m.insert("foo", "1");
    m.insert("baz", "2");
    m.insert("bar", "3");
    assert_eq!(keys_of(m.keys()), ["bar", "baz", "foo"]);
    let mut keys = m.keys();
    assert_eq!(keys.next_back(), Some(&"foo"));
    assert_eq!(keys.next(), Some(&"bar"));
    assert_eq!(keys.len(), 1);
}

#[test]
fn btree_unset_keys_read_common() {
    let mut m = TotalBTreeMap::<u32, u32>::new();
    m.insert(1, 10);
    m.insert(2, 0);
    assert_eq!(*m.get(&3), 0);
    assert_eq!(*m.get(&2), 0);
    assert_eq!(*m.get(&1), 10);
    assert_eq!(m.len(), 1);
}

#[test]
fn btree_insert_common_keeps_len() {
    let mut m = TotalBTreeMap::<_, _>::new();
    m.insert("a", "x");
    assert_eq!(m.insert("b", ""), "");
    assert_eq!(m.len(), 1);
    assert!(!m.contains_key(&"b"));
    assert_eq!(m.insert("a", ""), "x");
    assert!(!m.contains_key(&"a"));
    assert_eq!(m.len(), 0);
}

#[test]
fn btree_entry_released_unchanged() {
    let mut m = TotalBTreeMap::<_, _>::new();
    m.insert("a", "x");
    m.entry("a").release();
    m.entry("b").release();
    assert!(m.contains_key(&"a"));
    assert!(!m.contains_key(&"b"));
    assert_eq!(m.len(), 1);
}

#[test]
fn btree_bulk_view_compaction() {
    let mut m = TotalBTreeMap::<_, _>::new();
    m.insert("foo", "bar");
    m.insert("baz", "quux");
    let mut view = m.as_btree_map_mut();
    view.get_mut().insert("baz", "");
    view.release();
    assert_eq!(m.len(), 1);
    assert_eq!(entries_of(m.iter()), [("foo", "bar")]);
}

#[test]
fn btree_bulk_view_replaced_wholesale() {
    let mut m = TotalBTreeMap::<_, _>::new();
    m.insert("old", "gone");
    let mut view = m.as_btree_map_mut();
    let mut base = BTreeMap::new();
    base.insert("foo", "bar");
    base.insert("empty", "");
    *view.get_mut() = base;
    view.release();
    assert_eq!(entries_of(m.iter()), [("foo", "bar")]);
    assert_eq!(m.as_btree_map().len(), 1);
}

#[test]
fn btree_clone_and_default() {
    let mut m = TotalBTreeMap::<_, _>::default();
    m.insert(5u64, 7u64);
    let c = m.clone();
    assert!(c == m);
    assert_eq!(*c.get(&5), 7);
}

#[test]
fn btree_partial_order() {
    let a = TotalBTreeMap::<_, _>::from_iter(vec![("a", 1u32)]);
    let b = TotalBTreeMap::<_, _>::from_iter(vec![("a", 2u32)]);
    let c = TotalBTreeMap::<_, _>::from_iter(vec![("a", 1u32), ("b", 0u32)]);
    assert!(a < b);
    assert!(b > a);
    assert_eq!(a.partial_cmp(&c), Some(std::cmp::Ordering::Equal));
    assert_eq!(a, c);
    assert!(format!("{:?}", a).contains("\"a\""));
}

#[test]
fn btree_iterator_clone_and_default() {
    let mut m = TotalBTreeMap::<_, _>::new();
    m.insert("k", "v");
    m.insert("j", "w");
    let mut it = m.iter();
    let copy = it.clone();
    assert_eq!(it.next(), Some((&"j", &"w")));
    assert_eq!(entries_of(copy), [("j", "w"), ("k", "v")]);
    assert_eq!(keys_of(m.keys().clone()), ["j", "k"]);
    assert_eq!(values_of(m.values().clone()), ["w", "v"]);
    assert_eq!(Keys::<u8, u8>::default().len(), 0);
    assert!(IntoIter::<u8, u8>::default().next().is_none());
}

#[test]
fn btree_entry_leaves_map_until_release() {
    let mut m = TotalBTreeMap::<_, _>::new();
    m.insert("a", "x");
    let mut e = m.entry("a");
    assert!(e.map.contains_key(&"a"));
    assert_eq!(e.map.len(), 1);
    *e.get_mut() = "y";
    assert_eq!(e.map.get(&"a"), &"y");
    e.release();
    assert_eq!(m.get(&"a"), &"y");

    let mut e = m.entry("b");
    *e.get_mut() = "z";
    assert!(!e.map.contains_key(&"b"));
    e.release();
    assert_eq!(m.get(&"b"), &"z");
    assert_eq!(m.len(), 2);
}

#[test]
fn btree_equal_maps_and_clone() {
    let mut a = TotalBTreeMap::<u32, u32>::new();
    let mut b = TotalBTreeMap::<u32, u32>::new();
    a.insert(1, 10);
    a.insert(2, 20);
    b.insert(2, 20);
    b.insert(1, 10);
    b.insert(3, 0);
    assert!(a == b);
    b.insert(3, 1);
    assert!(a != b);
    let c = a.clone();
    assert!(c == a);
    assert_eq!(*c.get(&7), 0);
}
