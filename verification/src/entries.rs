//! Sequences of named entries, and the map that they describe.
use vstd::prelude::*;

verus! {

/// The map that a sequence of (name, value) entries describes when they are
/// stored one after the other, a later entry of a name replacing an earlier one.
pub open spec fn entries_to_map<V>(entries: Seq<(String, V)>) -> Map<Seq<char>, V>
    decreases entries.len(),
{
    if entries.len() == 0 {
        Map::empty()
    } else {
        entries_to_map(entries.drop_last()).insert(entries.last().0@, entries.last().1)
    }
}

/// No two entries carry the same name.
pub open spec fn names_unique<V>(entries: Seq<(String, V)>) -> bool {
    forall|i: int, j: int|
        0 <= i < entries.len() && 0 <= j < entries.len() && i != j ==> #[trigger] entries[i].0@
            != #[trigger] entries[j].0@
}

pub proof fn lemma_entries_to_map_domain<V>(entries: Seq<(String, V)>)
    ensures
        entries_to_map(entries).dom().finite(),
        forall|k: Seq<char>|
            entries_to_map(entries).contains_key(k) <==> exists|i: int|
                0 <= i < entries.len() && #[trigger] entries[i].0@ == k,
    decreases entries.len(),
{
    if entries.len() > 0 {
        let init = entries.drop_last();
        lemma_entries_to_map_domain(init);
        assert forall|k: Seq<char>|
            entries_to_map(entries).contains_key(k) <==> exists|i: int|
                0 <= i < entries.len() && #[trigger] entries[i].0@ == k by {
            if entries_to_map(entries).contains_key(k) && k != entries.last().0@ {
                let i = choose|i: int| 0 <= i < init.len() && #[trigger] init[i].0@ == k;
                assert(entries[i] == init[i]);
            }
            if exists|i: int| 0 <= i < entries.len() && #[trigger] entries[i].0@ == k {
                let i = choose|i: int| 0 <= i < entries.len() && #[trigger] entries[i].0@ == k;
                if i < init.len() {
                    assert(init[i] == entries[i]);
                }
            }
        }
    }
}

/// With names unique, the entry of a name gives its value in the map.
pub proof fn lemma_entries_to_map_value<V>(entries: Seq<(String, V)>, i: int)
    requires
        names_unique(entries),
        0 <= i < entries.len(),
    ensures
        entries_to_map(entries).contains_key(entries[i].0@),
        entries_to_map(entries)[entries[i].0@] == entries[i].1,
    decreases entries.len(),
{
    let init = entries.drop_last();
    lemma_entries_to_map_domain(entries);
    if i < entries.len() - 1 {
        assert(init[i] == entries[i]);
        assert(names_unique(init)) by {
            assert forall|a: int, b: int|
                0 <= a < init.len() && 0 <= b < init.len() && a != b implies #[trigger] init[a].0@
                != #[trigger] init[b].0@ by {
                assert(init[a] == entries[a]);
                assert(init[b] == entries[b]);
            }
        }
        lemma_entries_to_map_value(init, i);
        assert(entries[i].0@ != entries[entries.len() - 1].0@);
    }
}

/// Replacing the value of an entry, or appending an entry for a new name, stores
/// that name with that value.
pub proof fn lemma_entries_to_map_store<V>(
    entries: Seq<(String, V)>,
    key: String,
    value: V,
    i: int,
)
    requires
        names_unique(entries),
        0 <= i < entries.len(),
        entries[i].0@ == key@,
    ensures
        entries_to_map(entries.update(i, (entries[i].0, value))) == entries_to_map(entries).insert(
            key@,
            value,
        ),
        names_unique(entries.update(i, (entries[i].0, value))),
    decreases entries.len(),
{
    let e2 = entries.update(i, (entries[i].0, value));
    assert(names_unique(e2)) by {
        assert forall|a: int, b: int|
            0 <= a < e2.len() && 0 <= b < e2.len() && a != b implies #[trigger] e2[a].0@
            != #[trigger] e2[b].0@ by {
            assert(e2[a].0 == entries[a].0);
            assert(e2[b].0 == entries[b].0);
        }
    }
    let n = entries.len();
    if i == n - 1 {
        assert(e2.drop_last() =~= entries.drop_last());
        assert(entries_to_map(e2) =~= entries_to_map(entries).insert(key@, value));
    } else {
        let init = entries.drop_last();
        assert(names_unique(init)) by {
            assert forall|a: int, b: int|
                0 <= a < init.len() && 0 <= b < init.len() && a != b implies #[trigger] init[a].0@
                != #[trigger] init[b].0@ by {
                assert(init[a] == entries[a]);
                assert(init[b] == entries[b]);
            }
        }
        assert(init[i] == entries[i]);
        lemma_entries_to_map_store(init, key, value, i);
        assert(e2.drop_last() =~= init.update(i, (init[i].0, value)));
        assert(entries[i].0@ != entries[n - 1].0@);
        assert(entries_to_map(e2) =~= entries_to_map(entries).insert(key@, value));
    }
}

pub proof fn lemma_entries_to_map_push<V>(
    entries: Seq<(String, V)>,
    key: String,
    value: V,
)
    requires
        names_unique(entries),
        forall|j: int| 0 <= j < entries.len() ==> #[trigger] entries[j].0@ != key@,
    ensures
        entries_to_map(entries.push((key, value))) == entries_to_map(entries).insert(key@, value),
        names_unique(entries.push((key, value))),
{
    let e2 = entries.push((key, value));
    assert(e2.drop_last() =~= entries);
    assert(names_unique(e2)) by {
        assert forall|a: int, b: int|
            0 <= a < e2.len() && 0 <= b < e2.len() && a != b implies #[trigger] e2[a].0@
            != #[trigger] e2[b].0@ by {
            if a < entries.len() {
                assert(e2[a] == entries[a]);
            }
            if b < entries.len() {
                assert(e2[b] == entries[b]);
            }
        }
    }
}

/// Stores `value` under `key` in a sequence of uniquely named entries: the entry
/// of that name gets the value, or a new entry is appended.
pub fn store_entry<V>(entries: &mut Vec<(String, V)>, key: String, value: V)
    requires
        names_unique(old(entries)@),
    ensures
        names_unique(final(entries)@),
        entries_to_map(final(entries)@) == entries_to_map(old(entries)@).insert(key@, value),
{
    let n = entries.len();
    let mut i: usize = 0;
    while i < n
        invariant
            n == entries@.len(),
            i <= n,
            entries@ == old(entries)@,
            names_unique(entries@),
            forall|j: int| 0 <= j < i ==> #[trigger] entries@[j].0@ != key@,
        decreases n - i,
    {
        if entries[i].0 == key {
            proof {
                lemma_entries_to_map_store(entries@, key, value, i as int);
            }
            let name = entries[i].0.clone();
            entries.set(i, (name, value));
            return ;
        }
        i += 1;
    }
    proof {
        lemma_entries_to_map_push(entries@, key, value);
    }
    entries.push((key, value));
}

/// Stores `value` under `key` in a sequence of uniquely named entries and hands
/// back the value that was stored under `key` before, if any.
pub fn replace_entry<V>(entries: &mut Vec<(String, V)>, key: String, value: V) -> (r: Option<V>)
    requires
        names_unique(old(entries)@),
    ensures
        names_unique(final(entries)@),
        entries_to_map(final(entries)@) == entries_to_map(old(entries)@).insert(key@, value),
        r == (if entries_to_map(old(entries)@).contains_key(key@) {
            Some(entries_to_map(old(entries)@)[key@])
        } else {
            None
        }),
{
    proof {
        lemma_entries_to_map_domain(entries@);
    }
    let n = entries.len();
    let mut i: usize = 0;
    while i < n
        invariant
            n == entries@.len(),
            i <= n,
            entries@ == old(entries)@,
            names_unique(entries@),
            forall|j: int| 0 <= j < i ==> #[trigger] entries@[j].0@ != key@,
        decreases n - i,
    {
        if entries[i].0 == key {
            proof {
                lemma_entries_to_map_store(entries@, key, value, i as int);
                lemma_entries_to_map_value(entries@, i as int);
            }
            let ghost before = entries@;
            let (name, previous) = entries.remove(i);
            entries.insert(i, (name, value));
            proof {
                assert(entries@ =~= before.update(i as int, (before[i as int].0, value)));
            }
            return Some(previous);
        }
        i += 1;
    }
    proof {
        lemma_entries_to_map_push(entries@, key, value);
        assert(!entries_to_map(entries@).contains_key(key@));
    }
    entries.push((key, value));
    None
}

/// The value stored under `key` in a sequence of uniquely named entries.
pub fn find_entry<'a, V>(entries: &'a Vec<(String, V)>, key: &String) -> (r: Option<&'a V>)
    requires
        names_unique(entries@),
    ensures
        r == (if entries_to_map(entries@).contains_key(key@) {
            Some(&entries_to_map(entries@)[key@])
        } else {
            None
        }),
{
    proof {
        lemma_entries_to_map_domain(entries@);
    }
    let mut i: usize = 0;
    while i < entries.len()
        invariant
            i <= entries.len(),
            names_unique(entries@),
            forall|j: int| 0 <= j < i ==> #[trigger] entries@[j].0@ != key@,
        decreases entries.len() - i,
    {
        if entries[i].0 == *key {
            proof {
                lemma_entries_to_map_value(entries@, i as int);
            }
            return Some(&entries[i].1);
        }
        i += 1;
    }
    None
}

} // verus!
