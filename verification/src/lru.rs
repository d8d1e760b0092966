//! A bounded table in least- to most-recently-used order.
//!
//! The table itself is `lru_cache::LruCache`. This module says, over a plain
//! sequence of entries, what the three operations used on it do, and proves
//! what follows from that for well-formed sequences.

use crate::status::ExitStatus;
use lru_cache::LruCache;
use std::collections::hash_map::RandomState;
use std::hash::BuildHasher;
use std::hash::Hash;
use vstd::prelude::*;

verus! {

/// A `(command, input)` pair as the table sees it.
pub type KeyView = (Seq<char>, Seq<char>);

/// What the table remembers of a run: its exit status and its output.
pub type ValueView = (ExitStatus, Seq<u8>);

/// The table's entries, least recently used first.
pub type Entries = Seq<(KeyView, ValueView)>;

/// The table type as this crate instantiates it.
pub type Table = LruCache<(String, String), (ExitStatus, Vec<u8>), RandomState>;

#[verifier::external_type_specification]
#[verifier::external_body]
#[verifier::reject_recursive_types(K)]
#[verifier::reject_recursive_types(V)]
#[verifier::reject_recursive_types(S)]
pub struct ExLruCache<K: Eq + Hash, V, S: BuildHasher>(LruCache<K, V, S>);

/// The entries that a table holds, in the order in which `LruCache::iter`
/// walks them: least recently used first. Strings stand by their characters,
/// output by its bytes.
pub uninterp spec fn table_entries(table: Table) -> Entries;

/// The number of entries that a table was made to hold (`LruCache::capacity`).
pub uninterp spec fn table_capacity(table: Table) -> nat;

/// Some entry of `entries` has the key `key`.
pub open spec fn has_key(entries: Entries, key: KeyView) -> bool {
    exists|i: int| 0 <= i < entries.len() && (#[trigger] entries[i]).0 == key
}

/// The position of an entry with the key `key`, where there is one. A table
/// holds no key twice, so there is at most one such position.
pub open spec fn position(entries: Entries, key: KeyView) -> int {
    choose|i: int| 0 <= i < entries.len() && (#[trigger] entries[i]).0 == key
}

/// No key occurs in two entries.
pub open spec fn distinct_keys(entries: Entries) -> bool {
    forall|i: int, j: int|
        0 <= i < j < entries.len() ==> (#[trigger] entries[i]).0 != (#[trigger] entries[j]).0
}

/// Every entry holds a successful exit status.
pub open spec fn all_successful(entries: Entries) -> bool {
    forall|i: int| 0 <= i < entries.len() ==> (#[trigger] entries[i]).1.0.is_success()
}

/// The value stored under `key`, if any.
pub open spec fn value_of(entries: Entries, key: KeyView) -> Option<ValueView> {
    if has_key(entries, key) {
        Some(entries[position(entries, key)].1)
    } else {
        None
    }
}

/// `entries` without the entry for `key`.
pub open spec fn without(entries: Entries, key: KeyView) -> Entries {
    if has_key(entries, key) {
        entries.remove(position(entries, key))
    } else {
        entries
    }
}

/// `entries` after a use of `key`: its entry, if there is one, becomes the
/// most recently used; nothing else moves.
pub open spec fn refreshed(entries: Entries, key: KeyView) -> Entries {
    if has_key(entries, key) {
        without(entries, key).push(entries[position(entries, key)])
    } else {
        entries
    }
}

/// `entries` after `value` is stored under `key` in a table of `capacity`
/// entries: the new entry is the most recently used, an older entry for the
/// same key is gone, and if the table then holds more than `capacity`
/// entries the least recently used one is dropped.
pub open spec fn stored(entries: Entries, key: KeyView, value: ValueView, capacity: nat) -> Entries {
    let grown = without(entries, key).push((key, value));
    if grown.len() > capacity {
        grown.subrange(1, grown.len() as int)
    } else {
        grown
    }
}

/// In a sequence without repeated keys, the entry at `i` is the one that its
/// key finds.
pub proof fn lemma_key_at(entries: Entries, i: int)
    requires
        distinct_keys(entries),
        0 <= i < entries.len(),
    ensures
        has_key(entries, entries[i].0),
        position(entries, entries[i].0) == i,
        value_of(entries, entries[i].0) == Some(entries[i].1),
{
    let key = entries[i].0;
    assert(has_key(entries, key));
    let p = position(entries, key);
    assert(0 <= p < entries.len() && entries[p].0 == key);
    if p != i {
        if p < i {
            assert(entries[p].0 != entries[i].0);
        } else {
            assert(entries[i].0 != entries[p].0);
        }
    }
}

/// Taking a key out leaves the other entries, in their order.
pub proof fn lemma_without(entries: Entries, key: KeyView)
    requires
        distinct_keys(entries),
    ensures
        distinct_keys(without(entries, key)),
        !has_key(without(entries, key), key),
        has_key(entries, key) ==> without(entries, key).len() == entries.len() - 1,
        !has_key(entries, key) ==> without(entries, key) == entries,
        forall|other: KeyView|
            other != key ==> value_of(without(entries, key), other) == value_of(entries, other),
        all_successful(entries) ==> all_successful(without(entries, key)),
{
    let rest = without(entries, key);
    if has_key(entries, key) {
        let p = position(entries, key);
        assert(0 <= p < entries.len() && entries[p].0 == key);
        assert forall|j: int| 0 <= j < rest.len() implies rest[j] == entries[if j < p {
            j
        } else {
            j + 1
        }] by {}
        assert forall|a: int, b: int| 0 <= a < b < rest.len() implies (#[trigger] rest[a]).0 != (
        #[trigger] rest[b]).0 by {
            let ia = if a < p { a } else { a + 1 };
            let ib = if b < p { b } else { b + 1 };
            assert(rest[a] == entries[ia]);
            assert(rest[b] == entries[ib]);
        }
        if has_key(rest, key) {
            let q = position(rest, key);
            let iq = if q < p { q } else { q + 1 };
            assert(rest[q] == entries[iq]);
            lemma_key_at(entries, iq);
        }
        assert forall|other: KeyView| other != key implies value_of(rest, other) == value_of(
            entries,
            other,
        ) by {
            if has_key(entries, other) {
                let i = position(entries, other);
                lemma_key_at(entries, i);
                let j = if i < p { i } else { i - 1 };
                assert(rest[j] == entries[i]);
                lemma_key_at(rest, j);
            } else if has_key(rest, other) {
                let j = position(rest, other);
                let i = if j < p { j } else { j + 1 };
                assert(rest[j] == entries[i]);
            }
        }
        if all_successful(entries) {
            assert forall|j: int| 0 <= j < rest.len() implies (#[trigger] rest[j]).1.0.is_success() by {
                let i = if j < p { j } else { j + 1 };
                assert(rest[j] == entries[i]);
            }
        }
    }
}

/// Adding an entry for a key that is not there keeps keys distinct, makes the
/// new entry findable and leaves every other key as it was.
pub proof fn lemma_push(entries: Entries, key: KeyView, value: ValueView)
    requires
        distinct_keys(entries),
        !has_key(entries, key),
    ensures
        distinct_keys(entries.push((key, value))),
        value_of(entries.push((key, value)), key) == Some(value),
        forall|other: KeyView|
            other != key ==> value_of(entries.push((key, value)), other) == value_of(
                entries,
                other,
            ),
{
    let grown = entries.push((key, value));
    assert forall|a: int, b: int| 0 <= a < b < grown.len() implies (#[trigger] grown[a]).0 != (
    #[trigger] grown[b]).0 by {
        assert(grown[a] == entries[a]);
        if b < entries.len() {
            assert(grown[b] == entries[b]);
        }
    }
    assert(grown[entries.len() as int] == (key, value));
    lemma_key_at(grown, entries.len() as int);
    assert forall|other: KeyView| other != key implies value_of(grown, other) == value_of(
        entries,
        other,
    ) by {
        if has_key(entries, other) {
            let i = position(entries, other);
            lemma_key_at(entries, i);
            assert(grown[i] == entries[i]);
            lemma_key_at(grown, i);
        } else if has_key(grown, other) {
            let j = position(grown, other);
            assert(j < entries.len());
            assert(grown[j] == entries[j]);
        }
    }
}

/// Dropping the least recently used entry loses that key and no other.
pub proof fn lemma_drop_first(entries: Entries)
    requires
        distinct_keys(entries),
        entries.len() > 0,
    ensures
        distinct_keys(entries.subrange(1, entries.len() as int)),
        !has_key(entries.subrange(1, entries.len() as int), entries[0].0),
        forall|other: KeyView|
            other != entries[0].0 ==> value_of(entries.subrange(1, entries.len() as int), other)
                == value_of(entries, other),
{
    let rest = entries.subrange(1, entries.len() as int);
    assert forall|a: int, b: int| 0 <= a < b < rest.len() implies (#[trigger] rest[a]).0 != (
    #[trigger] rest[b]).0 by {
        assert(rest[a] == entries[a + 1]);
        assert(rest[b] == entries[b + 1]);
    }
    if has_key(rest, entries[0].0) {
        let q = position(rest, entries[0].0);
        assert(rest[q] == entries[q + 1]);
        assert(entries[0].0 != entries[q + 1].0);
    }
    assert forall|other: KeyView| other != entries[0].0 implies value_of(rest, other) == value_of(
        entries,
        other,
    ) by {
        if has_key(entries, other) {
            let i = position(entries, other);
            lemma_key_at(entries, i);
            assert(rest[i - 1] == entries[i]);
            lemma_key_at(rest, i - 1);
        } else if has_key(rest, other) {
            let j = position(rest, other);
            assert(rest[j] == entries[j + 1]);
        }
    }
}

/// A table within its bound: at most `capacity` entries, no key twice, and
/// only successful runs.
pub open spec fn well_formed(entries: Entries, capacity: nat) -> bool {
    &&& entries.len() <= capacity
    &&& distinct_keys(entries)
    &&& all_successful(entries)
}

/// The key that storing `key` pushes out of a table of `capacity` entries:
/// the least recently used one, and only when the table is full and `key` is
/// new to it.
pub open spec fn evicted(entries: Entries, key: KeyView, capacity: nat) -> Option<KeyView> {
    if !has_key(entries, key) && entries.len() >= capacity && entries.len() > 0 {
        Some(entries[0].0)
    } else {
        None
    }
}

/// A use of a key reorders the table and changes nothing else: the same
/// keys with the same values, the used key last.
pub proof fn lemma_refreshed(entries: Entries, key: KeyView)
    requires
        distinct_keys(entries),
    ensures
        distinct_keys(refreshed(entries, key)),
        refreshed(entries, key).len() == entries.len(),
        all_successful(entries) ==> all_successful(refreshed(entries, key)),
        forall|other: KeyView|
            value_of(refreshed(entries, key), other) == value_of(entries, other),
        has_key(entries, key) ==> refreshed(entries, key).last() == (
            key,
            value_of(entries, key).unwrap(),
        ),
{
    if has_key(entries, key) {
        let p = position(entries, key);
        assert(0 <= p < entries.len() && entries[p].0 == key);
        lemma_key_at(entries, p);
        let entry = entries[p];
        assert(entry == (key, entry.1));
        lemma_without(entries, key);
        let rest = without(entries, key);
        lemma_push(rest, key, entry.1);
        let moved = rest.push(entry);
        assert(moved == refreshed(entries, key));
        if all_successful(entries) {
            assert forall|j: int| 0 <= j < moved.len() implies (#[trigger] moved[j]).1.0.is_success() by {
                if j < rest.len() {
                    assert(moved[j] == rest[j]);
                }
            }
        }
    }
}

/// Storing a pair in a table within its bound keeps it within its bound,
/// makes the pair the most recently used entry, and costs at most the least
/// recently used key.
pub proof fn lemma_stored(entries: Entries, key: KeyView, value: ValueView, capacity: nat)
    requires
        distinct_keys(entries),
        entries.len() <= capacity,
    ensures
        distinct_keys(stored(entries, key, value, capacity)),
        stored(entries, key, value, capacity).len() <= capacity,
        all_successful(entries) && value.0.is_success() ==> all_successful(
            stored(entries, key, value, capacity),
        ),
        capacity >= 1 ==> value_of(stored(entries, key, value, capacity), key) == Some(value),
        capacity >= 1 ==> stored(entries, key, value, capacity).last() == (key, value),
        capacity >= 1 && evicted(entries, key, capacity).is_none() ==> stored(
            entries,
            key,
            value,
            capacity,
        ) == without(entries, key).push((key, value)),
        capacity >= 1 && evicted(entries, key, capacity).is_some() ==> stored(
            entries,
            key,
            value,
            capacity,
        ) == entries.subrange(1, entries.len() as int).push((key, value)),
        forall|other: KeyView|
            other != key && evicted(entries, key, capacity) != Some(other) ==> value_of(
                stored(entries, key, value, capacity),
                other,
            ) == value_of(entries, other),
        forall|other: KeyView|
            other != key && evicted(entries, key, capacity) == Some(other) ==> value_of(
                stored(entries, key, value, capacity),
                other,
            ).is_none(),
{
    lemma_without(entries, key);
    let rest = without(entries, key);
    lemma_push(rest, key, value);
    let grown = rest.push((key, value));
    let after = stored(entries, key, value, capacity);
    if grown.len() > capacity {
        assert(!has_key(entries, key));
        assert(rest == entries);
        assert(entries.len() == capacity);
        lemma_drop_first(grown);
        assert(after == grown.subrange(1, grown.len() as int));
        if capacity >= 1 {
            assert(grown[0] == entries[0]);
            assert(after.last() == (key, value));
            lemma_key_at(after, after.len() - 1);
            assert(after =~= entries.subrange(1, entries.len() as int).push((key, value)));
            lemma_key_at(entries, 0);
        }
        if all_successful(entries) && value.0.is_success() {
            assert forall|j: int| 0 <= j < after.len() implies (#[trigger] after[j]).1.0.is_success() by {
                assert(after[j] == grown[j + 1]);
                if j + 1 < entries.len() {
                    assert(grown[j + 1] == entries[j + 1]);
                }
            }
        }
    } else {
        assert(after == grown);
        if all_successful(entries) && value.0.is_success() {
            assert forall|j: int| 0 <= j < after.len() implies (#[trigger] after[j]).1.0.is_success() by {
                if j < rest.len() {
                    assert(after[j] == rest[j]);
                }
            }
        }
    }
}

/// `LruCache::new`: an empty table that holds at most `capacity` entries.
#[verifier::external_body]
pub(crate) fn table_new(capacity: usize) -> (table: Table)
    ensures
        table_entries(table) == Seq::<(KeyView, ValueView)>::empty(),
        table_capacity(table) == capacity,
{
    LruCache::new(capacity)
}

/// `LruCache::get_mut`, with the value found copied out. The crate's source
/// shows that a key that is present is moved to the most recently used end and
/// its value returned, and that a table without the key is left as it was.
#[verifier::external_body]
pub(crate) fn table_get(table: &mut Table, key: &(String, String)) -> (found: Option<
    (ExitStatus, Vec<u8>),
>)
    ensures
        table_entries(*final(table)) == refreshed(table_entries(*old(table)), (key.0@, key.1@)),
        table_capacity(*final(table)) == table_capacity(*old(table)),
        match found {
            Some(value) => value_of(table_entries(*old(table)), (key.0@, key.1@)) == Some(
                (value.0, value.1@),
            ),
            None => value_of(table_entries(*old(table)), (key.0@, key.1@)).is_none(),
        },
{
    table.get_mut(key).cloned()
}

/// `LruCache::len`: the number of entries held.
#[verifier::external_body]
pub(crate) fn table_len(table: &Table) -> (n: usize)
    ensures
        n == table_entries(*table).len(),
{
    table.len()
}

/// `LruCache::insert`. The crate's source shows that the pair becomes the
/// most recently used entry, replacing an entry with the same key, and that
/// the least recently used entry is then removed if the table holds more
/// entries than its capacity.
#[verifier::external_body]
pub(crate) fn table_insert(table: &mut Table, key: (String, String), value: (ExitStatus, Vec<u8>))
    ensures
        table_entries(*final(table)) == stored(
            table_entries(*old(table)),
            (key.0@, key.1@),
            (value.0, value.1@),
            table_capacity(*old(table)),
        ),
        table_capacity(*final(table)) == table_capacity(*old(table)),
{
    table.insert(key, value);
}

} // verus!
