//! Maps in which every possible key has an associated value.
//!
//! Only entries with *uncommon* values are stored; every other key is taken to hold the
//! *common* value. Which values are common is decided by the map's [Commonality] parameter;
//! by default that is [DefaultCommonality], whose common value is the type's default.
//!
//! Mutation that may leave a common value behind goes through a guard: [btree_map::Entry] or
//! [hash_map::Entry] for a single key, [btree_map::AsBTreeMapMut] or [hash_map::AsHashMapMut]
//! for the whole backing map. Releasing a guard removes whatever the guard let become common.

use vstd::prelude::*;

pub mod btree_map;
pub mod empty;
pub mod hash_map;
pub mod nonzero;

pub use btree_map::TotalBTreeMap;
pub use empty::EmptyCommonality;
pub use hash_map::TotalHashMap;
pub use nonzero::{NonZeroBTreeMap, NonZeroHashMap, ZeroCommonality};

verus! {

/// Defines which values of type `V` are *common*, that is, which value every key of a
/// [TotalHashMap] or [TotalBTreeMap] holds until it is given another.
///
/// An implementation decides commonality by `spec_is_common`: `common` returns a value that
/// it holds of, and `is_common` computes it.
pub trait Commonality<V>: Sized {
    /// Whether `value` is a common value.
    spec fn spec_is_common(value: V) -> bool;

    /// A common value of type `V`.
    fn common() -> (r: V)
        ensures
            Self::spec_is_common(r),
    ;

    /// Returns true if `value` is a common value.
    fn is_common(value: &V) -> (r: bool)
        ensures
            r == Self::spec_is_common(*value),
    ;
}

/// A [commonality](Commonality) whose common value is the type's [Default] value.
///
/// A map using this commonality stores only entries whose value differs from the default. It is
/// given for the primitive integer types, `bool`, `char`, `&str` and `String`, whose default
/// value and equality are known precisely.
#[derive(Debug, Clone, Copy, PartialEq, Eq, Hash)]
pub struct DefaultCommonality(());

impl Commonality<u8> for DefaultCommonality {
    open spec fn spec_is_common(value: u8) -> bool {
        value == 0
    }

    fn common() -> (r: u8) {
        u8::default()
    }

    fn is_common(value: &u8) -> (r: bool) {
        *value == u8::default()
    }
}

impl Commonality<u16> for DefaultCommonality {
    open spec fn spec_is_common(value: u16) -> bool {
        value == 0
    }

    fn common() -> (r: u16) {
        u16::default()
    }

    fn is_common(value: &u16) -> (r: bool) {
        *value == u16::default()
    }
}

impl Commonality<u32> for DefaultCommonality {
    open spec fn spec_is_common(value: u32) -> bool {
        value == 0
    }

    fn common() -> (r: u32) {
        u32::default()
    }

    fn is_common(value: &u32) -> (r: bool) {
        *value == u32::default()
    }
}

impl Commonality<u64> for DefaultCommonality {
    open spec fn spec_is_common(value: u64) -> bool {
        value == 0
    }

    fn common() -> (r: u64) {
        u64::default()
    }

    fn is_common(value: &u64) -> (r: bool) {
        *value == u64::default()
    }
}

impl Commonality<u128> for DefaultCommonality {
    open spec fn spec_is_common(value: u128) -> bool {
        value == 0
    }

    fn common() -> (r: u128) {
        u128::default()
    }

    fn is_common(value: &u128) -> (r: bool) {
        *value == u128::default()
    }
}

impl Commonality<usize> for DefaultCommonality {
    open spec fn spec_is_common(value: usize) -> bool {
        value == 0
    }

    fn common() -> (r: usize) {
        usize::default()
    }

    fn is_common(value: &usize) -> (r: bool) {
        *value == usize::default()
    }
}

impl Commonality<i8> for DefaultCommonality {
    open spec fn spec_is_common(value: i8) -> bool {
        value == 0
    }

    fn common() -> (r: i8) {
        i8::default()
    }

    fn is_common(value: &i8) -> (r: bool) {
        *value == i8::default()
    }
}

impl Commonality<i16> for DefaultCommonality {
    open spec fn spec_is_common(value: i16) -> bool {
        value == 0
    }

    fn common() -> (r: i16) {
        i16::default()
    }

    fn is_common(value: &i16) -> (r: bool) {
        *value == i16::default()
    }
}

impl Commonality<i32> for DefaultCommonality {
    open spec fn spec_is_common(value: i32) -> bool {
        value == 0
    }

    fn common() -> (r: i32) {
        i32::default()
    }

    fn is_common(value: &i32) -> (r: bool) {
        *value == i32::default()
    }
}

impl Commonality<i64> for DefaultCommonality {
    open spec fn spec_is_common(value: i64) -> bool {
        value == 0
    }

    fn common() -> (r: i64) {
        i64::default()
    }

    fn is_common(value: &i64) -> (r: bool) {
        *value == i64::default()
    }
}

impl Commonality<i128> for DefaultCommonality {
    open spec fn spec_is_common(value: i128) -> bool {
        value == 0
    }

    fn common() -> (r: i128) {
        i128::default()
    }

    fn is_common(value: &i128) -> (r: bool) {
        *value == i128::default()
    }
}

impl Commonality<isize> for DefaultCommonality {
    open spec fn spec_is_common(value: isize) -> bool {
        value == 0
    }

    fn common() -> (r: isize) {
        isize::default()
    }

    fn is_common(value: &isize) -> (r: bool) {
        *value == isize::default()
    }
}

impl Commonality<bool> for DefaultCommonality {
    open spec fn spec_is_common(value: bool) -> bool {
        !value
    }

    fn common() -> (r: bool) {
        bool::default()
    }

    fn is_common(value: &bool) -> (r: bool) {
        *value == bool::default()
    }
}

impl Commonality<char> for DefaultCommonality {
    open spec fn spec_is_common(value: char) -> bool {
        value == '\0'
    }

    fn common() -> (r: char) {
        char::default()
    }

    fn is_common(value: &char) -> (r: bool) {
        *value == char::default()
    }
}

impl<'a> Commonality<&'a str> for DefaultCommonality {
    open spec fn spec_is_common(value: &'a str) -> bool {
        value@.len() == 0
    }

    fn common() -> (r: &'a str) {
        proof {
            reveal_strlit("");
        }
        <&'a str>::default()
    }

    fn is_common(value: &&'a str) -> (r: bool) {
        value.is_empty()
    }
}

impl Commonality<String> for DefaultCommonality {
    open spec fn spec_is_common(value: String) -> bool {
        value@.len() == 0
    }

    fn common() -> (r: String) {
        String::default()
    }

    fn is_common(value: &String) -> (r: bool) {
        value.as_str().is_empty()
    }
}

/// The value that a total map whose stored entries are `m`, and whose common value is `common`,
/// associates with `key`.
pub open spec fn value_at<K, V>(m: Map<K, V>, key: K, common: V) -> V {
    if m.contains_key(key) {
        m[key]
    } else {
        common
    }
}

/// No entry of `m` holds a common value.
pub open spec fn is_sparse<K, V, C: Commonality<V>>(m: Map<K, V>) -> bool {
    forall|k: K| #[trigger] m.contains_key(k) ==> !C::spec_is_common(m[k])
}

/// The stored entries `m` after `key` has been given `value`: a common value is not stored.
pub open spec fn stored_after_insert<K, V, C: Commonality<V>>(m: Map<K, V>, key: K, value: V) -> Map<
    K,
    V,
> {
    if C::spec_is_common(value) {
        m.remove(key)
    } else {
        m.insert(key, value)
    }
}

/// The stored entries `m` after each entry of `s` has been inserted, in order.
pub open spec fn stored_after_inserts<K, V, C: Commonality<V>>(m: Map<K, V>, s: Seq<(K, V)>) -> Map<
    K,
    V,
>
    decreases s.len(),
{
    if s.len() == 0 {
        m
    } else {
        stored_after_insert::<K, V, C>(
            stored_after_inserts::<K, V, C>(m, s.drop_last()),
            s.last().0,
            s.last().1,
        )
    }
}

/// The entries of `m` whose value is not common.
pub open spec fn compacted<K, V, C: Commonality<V>>(m: Map<K, V>) -> Map<K, V> {
    Map::new(|k: K| m.contains_key(k) && !C::spec_is_common(m[k]), |k: K| m[k])
}

/// `s` lists each entry of `m` exactly once.
pub open spec fn lists_entries<K, V>(s: Seq<(K, V)>, m: Map<K, V>) -> bool {
    &&& s.len() == m.len()
    &&& forall|i: int, j: int|
        0 <= i < s.len() && 0 <= j < s.len() && i != j ==> #[trigger] s[i].0 != #[trigger] s[j].0
    &&& forall|i: int| 0 <= i < s.len() ==> m.contains_key(#[trigger] s[i].0) && m[s[i].0] == s[i].1
    &&& forall|k: K| #[trigger] m.contains_key(k) ==> exists|i: int| 0 <= i < s.len() && #[trigger] s[i].0 == k
}

/// A listing of borrowed pairs, without repeats, that holds only entries of `m`, every entry of
/// `m`, and as many as `m` has, lists each entry of `m` exactly once.
pub proof fn lemma_lists_pairs<K, V>(v: Seq<(&K, &V)>, m: Map<K, V>)
    requires
        v.len() == m.len(),
        v.no_duplicates(),
        forall|i: int|
            0 <= i < v.len() ==> m.contains_key(*(#[trigger] v[i]).0) && m[*v[i].0] == *v[i].1,
        forall|k: K| #[trigger] m.contains_key(k) ==> v.contains((&k, &m[k])),
    ensures
        lists_entries(v.unref(), m),
{
    let u = v.unref();
    assert forall|i: int, j: int|
        0 <= i < u.len() && 0 <= j < u.len() && i != j implies #[trigger] u[i].0 != #[trigger] u[j].0 by {
        if u[i].0 == u[j].0 {
            assert(v[i] == v[j]);
        }
    }
    assert forall|i: int| 0 <= i < u.len() implies m.contains_key(#[trigger] u[i].0) && m[u[i].0] == u[i].1 by {
        assert(v[i].0 == u[i].0);
    }
    assert forall|k: K| #[trigger] m.contains_key(k) implies exists|i: int| 0 <= i < u.len() && #[trigger] u[i].0 == k by {
        let i = choose|i: int| 0 <= i < v.len() && v[i] == (&k, &m[k]);
        assert(u[i].0 == k);
    }
}

/// A key that none of `entries` names reads as the common value after they are all inserted
/// into an empty total map.
pub proof fn lemma_never_inserted<K, V, C: Commonality<V>>(entries: Seq<(K, V)>, key: K, common: V)
    requires
        forall|i: int| 0 <= i < entries.len() ==> (#[trigger] entries[i]).0 != key,
    ensures
        !stored_after_inserts::<K, V, C>(Map::empty(), entries).contains_key(key),
        value_at(stored_after_inserts::<K, V, C>(Map::empty(), entries), key, common) == common,
    decreases entries.len(),
{
    if entries.len() > 0 {
        let rest = entries.drop_last();
        assert forall|i: int| 0 <= i < rest.len() implies (#[trigger] rest[i]).0 != key by {
            assert(rest[i] == entries[i]);
        }
        lemma_never_inserted::<K, V, C>(rest, key, common);
        assert(entries.last() == entries[entries.len() - 1]);
    }
}

/// Inserting into a sparse map keeps it sparse.
pub proof fn lemma_insert_keeps_sparse<K, V, C: Commonality<V>>(m: Map<K, V>, key: K, value: V)
    requires
        is_sparse::<K, V, C>(m),
    ensures
        is_sparse::<K, V, C>(stored_after_insert::<K, V, C>(m, key, value)),
{
}

/// Giving a key a common value leaves it unstored, and changes nothing where it was unstored
/// already.
pub proof fn lemma_insert_common<K, V, C: Commonality<V>>(m: Map<K, V>, key: K, value: V)
    requires
        C::spec_is_common(value),
    ensures
        !stored_after_insert::<K, V, C>(m, key, value).contains_key(key),
        !m.contains_key(key) ==> stored_after_insert::<K, V, C>(m, key, value) == m,
{
    if !m.contains_key(key) {
        assert(m.remove(key) =~= m);
    }
}

/// After `key` is given `value`, it reads as `value`, or as the common value if `value` is
/// common.
pub proof fn lemma_round_trip<K, V, C: Commonality<V>>(m: Map<K, V>, key: K, value: V, common: V)
    ensures
        value_at(stored_after_insert::<K, V, C>(m, key, value), key, common) == if C::spec_is_common(
            value,
        ) {
            common
        } else {
            value
        },
{
}

/// Getting an entry of a sparse map and releasing it with the value it was got with leaves the
/// map as it was.
pub proof fn lemma_entry_unchanged<K, V, C: Commonality<V>>(m: Map<K, V>, key: K, value: V)
    requires
        is_sparse::<K, V, C>(m),
        m.contains_key(key) ==> value == m[key],
        !m.contains_key(key) ==> C::spec_is_common(value),
    ensures
        stored_after_insert::<K, V, C>(m, key, value) == m,
{
    if m.contains_key(key) {
        assert(m.insert(key, value) =~= m);
    } else {
        assert(m.remove(key) =~= m);
    }
}

/// An entry got for an unstored key and released with an uncommon value is stored with that
/// value; got again and released with a common value, it is unstored again.
pub proof fn lemma_entry_materialize_demote<K, V, C: Commonality<V>>(
    m: Map<K, V>,
    key: K,
    value: V,
    common: V,
)
    requires
        !m.contains_key(key),
        !C::spec_is_common(value),
        C::spec_is_common(common),
    ensures
        ({
            let stored = stored_after_insert::<K, V, C>(m, key, value);
            &&& stored.contains_key(key)
            &&& stored[key] == value
            &&& !stored_after_insert::<K, V, C>(stored, key, common).contains_key(key)
        }),
{
}

/// Compaction leaves exactly the uncommon entries: the result is sparse, and a map that is
/// sparse already is left as it is.
pub proof fn lemma_compacted<K, V, C: Commonality<V>>(m: Map<K, V>)
    ensures
        is_sparse::<K, V, C>(compacted::<K, V, C>(m)),
        forall|k: K|
            #[trigger] compacted::<K, V, C>(m).contains_key(k) <==> m.contains_key(k)
                && !C::spec_is_common(m[k]),
        is_sparse::<K, V, C>(m) ==> compacted::<K, V, C>(m) == m,
{
    if is_sparse::<K, V, C>(m) {
        assert(compacted::<K, V, C>(m) =~= m);
    }
}

/// Inserting entries for two different keys gives the same stored entries in either order.
pub proof fn lemma_insert_order<K, V, C: Commonality<V>>(
    m: Map<K, V>,
    k1: K,
    v1: V,
    k2: K,
    v2: V,
)
    requires
        k1 != k2,
    ensures
        stored_after_insert::<K, V, C>(stored_after_insert::<K, V, C>(m, k1, v1), k2, v2)
            == stored_after_insert::<K, V, C>(stored_after_insert::<K, V, C>(m, k2, v2), k1, v1),
{
    assert(stored_after_insert::<K, V, C>(stored_after_insert::<K, V, C>(m, k1, v1), k2, v2)
        =~= stored_after_insert::<K, V, C>(stored_after_insert::<K, V, C>(m, k2, v2), k1, v1));
}

/// No two of `s` have the same key.
pub open spec fn distinct_keys<K, V>(s: Seq<(K, V)>) -> bool {
    forall|i: int, j: int|
        0 <= i < s.len() && 0 <= j < s.len() && i != j ==> #[trigger] s[i].0 != #[trigger] s[j].0
}

/// After entries with distinct keys are inserted into an empty total map, exactly those of them
/// with an uncommon value are stored.
pub proof fn lemma_inserts_distinct<K, V, C: Commonality<V>>(s: Seq<(K, V)>)
    requires
        distinct_keys(s),
    ensures
        forall|k: K|
            #[trigger] stored_after_inserts::<K, V, C>(Map::empty(), s).contains_key(k) <==> exists|
                i: int,
            |
                0 <= i < s.len() && #[trigger] s[i].0 == k && !C::spec_is_common(s[i].1),
        forall|i: int|
            0 <= i < s.len() && !C::spec_is_common(#[trigger] s[i].1) ==> stored_after_inserts::<
                K,
                V,
                C,
            >(Map::empty(), s)[s[i].0] == s[i].1,
    decreases s.len(),
{
    if s.len() > 0 {
        let rest = s.drop_last();
        let last = s.last();
        assert(last == s[s.len() - 1]);
        assert forall|i: int, j: int|
            0 <= i < rest.len() && 0 <= j < rest.len() && i != j implies #[trigger] rest[i].0
            != #[trigger] rest[j].0 by {
            assert(rest[i] == s[i] && rest[j] == s[j]);
        }
        lemma_inserts_distinct::<K, V, C>(rest);
        let before = stored_after_inserts::<K, V, C>(Map::empty(), rest);
        let after = stored_after_inserts::<K, V, C>(Map::empty(), s);
        assert(after == stored_after_insert::<K, V, C>(before, last.0, last.1));
        assert(!before.contains_key(last.0)) by {
            if before.contains_key(last.0) {
                let i = choose|i: int|
                    0 <= i < rest.len() && #[trigger] rest[i].0 == last.0 && !C::spec_is_common(
                        rest[i].1,
                    );
                assert(s[i].0 == s[s.len() - 1].0);
            }
        }
        assert forall|k: K| #[trigger] after.contains_key(k) implies exists|i: int|
            0 <= i < s.len() && #[trigger] s[i].0 == k && !C::spec_is_common(s[i].1) by {
            if k == last.0 && !C::spec_is_common(last.1) {
                assert(s[s.len() - 1].0 == k);
            } else {
                let i = choose|i: int|
                    0 <= i < rest.len() && #[trigger] rest[i].0 == k && !C::spec_is_common(rest[i].1);
                assert(s[i] == rest[i]);
            }
        }
        assert forall|k: K|
            (exists|i: int| 0 <= i < s.len() && #[trigger] s[i].0 == k && !C::spec_is_common(s[i].1))
            implies #[trigger] after.contains_key(k) by {
            let i = choose|i: int| 0 <= i < s.len() && #[trigger] s[i].0 == k && !C::spec_is_common(s[i].1);
            if i < s.len() - 1 {
                assert(rest[i] == s[i]);
                assert(s[i].0 != s[s.len() - 1].0);
            }
        }
        assert forall|i: int| 0 <= i < s.len() && !C::spec_is_common(#[trigger] s[i].1) implies after[s[i].0]
            == s[i].1 by {
            if i < s.len() - 1 {
                assert(rest[i] == s[i]);
                assert(s[i].0 != s[s.len() - 1].0);
            }
        }
    }
}

/// Two total maps built from empty ones by inserting the same entries, with distinct keys, in
/// different orders store the same entries.
pub proof fn lemma_insert_order_irrelevant<K, V, C: Commonality<V>>(
    s1: Seq<(K, V)>,
    s2: Seq<(K, V)>,
)
    requires
        distinct_keys(s1),
        distinct_keys(s2),
        s1.to_set() == s2.to_set(),
    ensures
        stored_after_inserts::<K, V, C>(Map::empty(), s1) == stored_after_inserts::<K, V, C>(
            Map::empty(),
            s2,
        ),
{
    lemma_inserts_distinct::<K, V, C>(s1);
    lemma_inserts_distinct::<K, V, C>(s2);
    let m1 = stored_after_inserts::<K, V, C>(Map::empty(), s1);
    let m2 = stored_after_inserts::<K, V, C>(Map::empty(), s2);
    assert forall|k: K| #[trigger] m1.contains_key(k) implies m2.contains_key(k) && m1[k] == m2[k] by {
        let i = choose|i: int| 0 <= i < s1.len() && #[trigger] s1[i].0 == k && !C::spec_is_common(s1[i].1);
        assert(s1.to_set().contains(s1[i]));
        let j = choose|j: int| 0 <= j < s2.len() && s2[j] == s1[i];
        assert(s2[j].0 == k);
    }
    assert forall|k: K| #[trigger] m2.contains_key(k) implies m1.contains_key(k) by {
        let j = choose|j: int| 0 <= j < s2.len() && #[trigger] s2[j].0 == k && !C::spec_is_common(s2[j].1);
        assert(s2.to_set().contains(s2[j]));
        let i = choose|i: int| 0 <= i < s1.len() && s1[i] == s2[j];
        assert(s1[i].0 == k);
    }
    assert(m1 =~= m2);
}

} // verus!
