//! A keyed store: the model of one keyed scope of the contract's persistent
//! storage. It holds at most one value per key and is seen as a map.

use vstd::prelude::*;
use crate::address::Address;
use crate::digest::Digest;

verus! {

/// A key of a store: a plain value with a decidable equality.
pub trait StoreKey: Copy {
    /// Whether two keys are equal.
    fn same_key(&self, other: &Self) -> (r: bool)
        ensures
            r == (*self == *other),
    ;
}

impl StoreKey for Address {
    fn same_key(&self, other: &Self) -> (r: bool) {
        *self == *other
    }
}

impl StoreKey for Digest {
    fn same_key(&self, other: &Self) -> (r: bool) {
        self.same(other)
    }
}

/// Entries by key, in no particular order.
#[derive(Clone, Debug, PartialEq, Eq)]
pub struct Store<K, V> {
    pub entries: Vec<(K, V)>,
}

/// Whether some entry of `entries` has the key `key`.
pub open spec fn has_key<K, V>(entries: Seq<(K, V)>, key: K) -> bool {
    exists|i: int| 0 <= i < entries.len() && (#[trigger] entries[i]).0 == key
}

/// The position of an entry with the key `key`.
pub open spec fn index_of<K, V>(entries: Seq<(K, V)>, key: K) -> int {
    choose|i: int| 0 <= i < entries.len() && (#[trigger] entries[i]).0 == key
}

/// No two entries share a key.
pub open spec fn distinct_keys<K, V>(entries: Seq<(K, V)>) -> bool {
    forall|i: int, j: int|
        0 <= i < j < entries.len() ==> (#[trigger] entries[i]).0 != (#[trigger] entries[j]).0
}

/// The map that `entries` stand for.
pub open spec fn entries_map<K, V>(entries: Seq<(K, V)>) -> Map<K, V> {
    Map::new(|k: K| has_key(entries, k), |k: K| entries[index_of(entries, k)].1)
}

impl<K, V> View for Store<K, V> {
    type V = Map<K, V>;

    open spec fn view(&self) -> Map<K, V> {
        entries_map(self.entries@)
    }
}

/// With distinct keys, the entry at `i` is the one the map holds for its key.
pub proof fn lemma_entry_in_map<K, V>(entries: Seq<(K, V)>, i: int)
    requires
        distinct_keys(entries),
        0 <= i < entries.len(),
    ensures
        entries_map(entries).contains_key(entries[i].0),
        entries_map(entries)[entries[i].0] == entries[i].1,
        index_of(entries, entries[i].0) == i,
{
    let k = entries[i].0;
    assert(has_key(entries, k));
    let j = index_of(entries, k);
    assert(0 <= j < entries.len() && entries[j].0 == k);
    if j != i {
        if j < i {
            assert(entries[j].0 != entries[i].0);
        } else {
            assert(entries[i].0 != entries[j].0);
        }
    }
}

/// Appending an entry under a new key inserts it into the map.
pub proof fn lemma_push_inserts<K, V>(entries: Seq<(K, V)>, key: K, value: V)
    requires
        distinct_keys(entries),
        !has_key(entries, key),
    ensures
        distinct_keys(entries.push((key, value))),
        entries_map(entries.push((key, value))) == entries_map(entries).insert(key, value),
{
    let after = entries.push((key, value));
    assert forall|i: int, j: int| 0 <= i < j < after.len() implies (#[trigger] after[i]).0 != (
    #[trigger] after[j]).0 by {
        if j == entries.len() {
            assert(entries[i].0 != key);
        } else {
            assert(entries[i].0 != entries[j].0);
        }
    }
    assert forall|k: K| has_key(after, k) <==> (k == key || has_key(entries, k)) by {
        if has_key(after, k) {
            let i = index_of(after, k);
            if i < entries.len() {
                assert(entries[i].0 == k);
            }
        }
        if k == key {
            assert(after[entries.len() as int].0 == k);
        }
        if has_key(entries, k) {
            let i = index_of(entries, k);
            assert(after[i].0 == k);
        }
    }
    assert forall|k: K| has_key(after, k) implies entries_map(after)[k] == entries_map(
        entries,
    ).insert(key, value)[k] by {
        let i = index_of(after, k);
        lemma_entry_in_map(after, i);
        if k != key {
            let j = index_of(entries, k);
            assert(after[j].0 == k);
            lemma_entry_in_map(after, j);
        } else {
            lemma_entry_in_map(after, entries.len() as int);
        }
    }
    assert(entries_map(after) =~= entries_map(entries).insert(key, value));
}

/// Replacing the value of the entry at `i` updates the map at its key.
pub proof fn lemma_update_inserts<K, V>(entries: Seq<(K, V)>, i: int, value: V)
    requires
        distinct_keys(entries),
        0 <= i < entries.len(),
    ensures
        distinct_keys(entries.update(i, (entries[i].0, value))),
        entries_map(entries.update(i, (entries[i].0, value))) == entries_map(entries).insert(
            entries[i].0,
            value,
        ),
{
    let key = entries[i].0;
    let after = entries.update(i, (key, value));
    assert forall|a: int, b: int| 0 <= a < b < after.len() implies (#[trigger] after[a]).0 != (
    #[trigger] after[b]).0 by {
        assert(entries[a].0 != entries[b].0);
    }
    assert forall|k: K| has_key(after, k) <==> has_key(entries, k) by {
        if has_key(after, k) {
            let a = index_of(after, k);
            assert(entries[a].0 == k);
        }
        if has_key(entries, k) {
            let a = index_of(entries, k);
            assert(after[a].0 == k);
        }
    }
    assert(has_key(entries, key));
    assert forall|k: K| has_key(after, k) implies entries_map(after)[k] == entries_map(
        entries,
    ).insert(key, value)[k] by {
        let a = index_of(entries, k);
        lemma_entry_in_map(entries, a);
        assert(after[a].0 == k);
        lemma_entry_in_map(after, a);
    }
    assert(entries_map(after) =~= entries_map(entries).insert(key, value));
}

/// Moving the last entry into position `i` and dropping the last removes the
/// key that stood at `i` from the map.
pub proof fn lemma_swap_remove_removes<K, V>(entries: Seq<(K, V)>, i: int)
    requires
        distinct_keys(entries),
        0 <= i < entries.len(),
    ensures
        distinct_keys(entries.update(i, entries.last()).drop_last()),
        entries_map(entries.update(i, entries.last()).drop_last()) == entries_map(entries).remove(
            entries[i].0,
        ),
{
    let key = entries[i].0;
    let last = entries.len() - 1;
    let after = entries.update(i, entries.last()).drop_last();
    assert forall|a: int, b: int| 0 <= a < b < after.len() implies (#[trigger] after[a]).0 != (
    #[trigger] after[b]).0 by {
        let ea = if a == i { last } else { a };
        let eb = if b == i { last } else { b };
        assert(after[a] == entries[ea]);
        assert(after[b] == entries[eb]);
        if ea < eb {
            assert(entries[ea].0 != entries[eb].0);
        } else {
            assert(entries[eb].0 != entries[ea].0);
        }
    }
    assert forall|k: K| has_key(after, k) <==> (k != key && has_key(entries, k)) by {
        if has_key(after, k) {
            let a = index_of(after, k);
            let ea = if a == i { last } else { a };
            assert(after[a] == entries[ea]);
            assert(entries[ea].0 == k);
            if ea < i {
                assert(entries[ea].0 != entries[i].0);
            } else {
                assert(entries[i].0 != entries[ea].0);
            }
        }
        if k != key && has_key(entries, k) {
            let e = index_of(entries, k);
            let a = if e == last { i } else { e };
            assert(after[a] == entries[e]);
            assert(after[a].0 == k);
        }
    }
    assert forall|k: K| has_key(after, k) implies entries_map(after)[k] == entries_map(
        entries,
    ).remove(key)[k] by {
        let a = index_of(after, k);
        lemma_entry_in_map(after, a);
        let ea = if a == i { last } else { a };
        assert(after[a] == entries[ea]);
        lemma_entry_in_map(entries, ea);
    }
    assert(entries_map(after) =~= entries_map(entries).remove(key));
}

/// The sum of `measure` over the values of `entries`.
pub open spec fn total_of<K, V>(entries: Seq<(K, V)>, measure: spec_fn(V) -> int) -> int
    decreases entries.len(),
{
    if entries.len() == 0 {
        0
    } else {
        total_of(entries.drop_last(), measure) + measure(entries.last().1)
    }
}

/// Whether `measure` is nowhere negative on the values of `entries`.
pub open spec fn nonnegative_on<K, V>(entries: Seq<(K, V)>, measure: spec_fn(V) -> int) -> bool {
    forall|i: int| 0 <= i < entries.len() ==> measure((#[trigger] entries[i]).1) >= 0
}

/// What `measure` gives for the value held for `key`, or zero where none is
/// held.
pub open spec fn measure_at<K, V>(entries: Seq<(K, V)>, key: K, measure: spec_fn(V) -> int)
    -> int {
    if has_key(entries, key) {
        measure(entries_map(entries)[key])
    } else {
        0
    }
}

/// Appending an entry adds its measure to the sum.
pub proof fn lemma_total_push<K, V>(entries: Seq<(K, V)>, entry: (K, V), measure: spec_fn(V) -> int)
    ensures
        total_of(entries.push(entry), measure) == total_of(entries, measure) + measure(entry.1),
{
    assert(entries.push(entry).drop_last() =~= entries);
}

/// Replacing the entry at `i` changes the sum by the difference of the two
/// measures.
pub proof fn lemma_total_update<K, V>(
    entries: Seq<(K, V)>,
    i: int,
    entry: (K, V),
    measure: spec_fn(V) -> int,
)
    requires
        0 <= i < entries.len(),
    ensures
        total_of(entries.update(i, entry), measure) == total_of(entries, measure) - measure(
            entries[i].1,
        ) + measure(entry.1),
    decreases entries.len(),
{
    let after = entries.update(i, entry);
    if i == entries.len() - 1 {
        assert(after.drop_last() =~= entries.drop_last());
    } else {
        assert(after.drop_last() =~= entries.drop_last().update(i, entry));
        lemma_total_update(entries.drop_last(), i, entry, measure);
    }
}

/// Moving the last entry into position `i` and dropping the last takes the
/// measure of the entry that stood at `i` out of the sum.
pub proof fn lemma_total_swap_remove<K, V>(
    entries: Seq<(K, V)>,
    i: int,
    measure: spec_fn(V) -> int,
)
    requires
        0 <= i < entries.len(),
    ensures
        total_of(entries.update(i, entries.last()).drop_last(), measure) == total_of(
            entries,
            measure,
        ) - measure(entries[i].1),
{
    let moved = entries.update(i, entries.last());
    lemma_total_update(entries, i, entries.last(), measure);
    assert(moved.last() == entries.last());
}

/// Where no measure is negative, none exceeds the sum.
pub proof fn lemma_measure_at_most_total<K, V>(
    entries: Seq<(K, V)>,
    i: int,
    measure: spec_fn(V) -> int,
)
    requires
        0 <= i < entries.len(),
        nonnegative_on(entries, measure),
    ensures
        0 <= measure(entries[i].1) <= total_of(entries, measure),
    decreases entries.len(),
{
    let rest = entries.drop_last();
    assert(nonnegative_on(rest, measure)) by {
        assert forall|j: int| 0 <= j < rest.len() implies measure((#[trigger] rest[j]).1)
            >= 0 by {
            assert(rest[j] == entries[j]);
        }
    }
    lemma_total_nonnegative(rest, measure);
    assert(measure(entries[entries.len() - 1].1) >= 0);
    if i < entries.len() - 1 {
        lemma_measure_at_most_total(rest, i, measure);
        assert(rest[i] == entries[i]);
    }
}

/// Where no measure is negative, the sum is not.
pub proof fn lemma_total_nonnegative<K, V>(entries: Seq<(K, V)>, measure: spec_fn(V) -> int)
    requires
        nonnegative_on(entries, measure),
    ensures
        total_of(entries, measure) >= 0,
    decreases entries.len(),
{
    if entries.len() > 0 {
        let rest = entries.drop_last();
        assert forall|j: int| 0 <= j < rest.len() implies measure((#[trigger] rest[j]).1)
            >= 0 by {
            assert(rest[j] == entries[j]);
        }
        lemma_total_nonnegative(rest, measure);
        assert(measure(entries[entries.len() - 1].1) >= 0);
    }
}

/// Where no measure is negative, the measure at a key does not exceed the
/// sum.
pub proof fn lemma_measure_at_bounded<K, V>(
    entries: Seq<(K, V)>,
    key: K,
    measure: spec_fn(V) -> int,
)
    requires
        nonnegative_on(entries, measure),
    ensures
        0 <= measure_at(entries, key, measure) <= total_of(entries, measure),
{
    lemma_total_nonnegative(entries, measure);
    if has_key(entries, key) {
        let i = index_of(entries, key);
        lemma_measure_at_most_total(entries, i, measure);
    }
}

impl<K: StoreKey, V: Copy> Store<K, V> {
    /// No key is held twice.
    pub open spec fn wf(&self) -> bool {
        distinct_keys(self.entries@)
    }

    /// The empty store.
    pub fn new() -> (s: Self)
        ensures
            s.wf(),
            s@ == Map::<K, V>::empty(),
            s.entries@ == Seq::<(K, V)>::empty(),
    {
        let s = Store { entries: Vec::new() };
        assert(s@ =~= Map::<K, V>::empty());
        s
    }

    /// Whether no key is held twice.
    pub fn check_wf(&self) -> (ok: bool)
        ensures
            ok == self.wf(),
    {
        let mut i: usize = 0;
        while i < self.entries.len()
            invariant
                i <= self.entries@.len(),
                forall|a: int, b: int|
                    0 <= a < b < i ==> (#[trigger] self.entries@[a]).0 != (
                    #[trigger] self.entries@[b]).0,
            decreases self.entries@.len() - i,
        {
            let mut j: usize = 0;
            while j < i
                invariant
                    j <= i < self.entries@.len(),
                    forall|a: int|
                        0 <= a < j ==> (#[trigger] self.entries@[a]).0 != self.entries@[i as int].0,
                decreases i - j,
            {
                if self.entries[j].0.same_key(&self.entries[i].0) {
                    assert(self.entries@[j as int].0 == self.entries@[i as int].0);
                    return false;
                }
                j += 1;
            }
            i += 1;
        }
        true
    }

    /// Where the entry for `key` stands, if there is one.
    fn position(&self, key: &K) -> (r: Option<usize>)
        requires
            self.wf(),
        ensures
            match r {
                Some(i) => i < self.entries@.len() && self.entries@[i as int].0 == *key
                    && self@.contains_key(*key) && self@[*key] == self.entries@[i as int].1,
                None => !self@.contains_key(*key),
            },
    {
        let mut i: usize = 0;
        while i < self.entries.len()
            invariant
                i <= self.entries@.len(),
                self.wf(),
                forall|j: int| 0 <= j < i ==> (#[trigger] self.entries@[j]).0 != *key,
            decreases self.entries@.len() - i,
        {
            if self.entries[i].0.same_key(key) {
                proof {
                    lemma_entry_in_map(self.entries@, i as int);
                }
                return Some(i);
            }
            i += 1;
        }
        None
    }

    /// Whether a value is held for `key`.
    pub fn contains(&self, key: &K) -> (r: bool)
        requires
            self.wf(),
        ensures
            r == self@.contains_key(*key),
    {
        self.position(key).is_some()
    }

    /// The value held for `key`, if any.
    pub fn get(&self, key: &K) -> (r: Option<V>)
        requires
            self.wf(),
        ensures
            r == (if self@.contains_key(*key) {
                Some(self@[*key])
            } else {
                None
            }),
    {
        match self.position(key) {
            Some(i) => Some(self.entries[i].1),
            None => None,
        }
    }

    /// Holds `value` for `key`, in place of what was held before.
    pub fn set(&mut self, key: K, value: V)
        requires
            old(self).wf(),
        ensures
            final(self).wf(),
            final(self)@ == old(self)@.insert(key, value),
            forall|measure: spec_fn(V) -> int| #[trigger]
                total_of(final(self).entries@, measure) == total_of(old(self).entries@, measure)
                    - measure_at(old(self).entries@, key, measure) + measure(value),
    {
        match self.position(&key) {
            Some(i) => {
                proof {
                    lemma_update_inserts(self.entries@, i as int, value);
                    lemma_entry_in_map(self.entries@, i as int);
                    assert forall|measure: spec_fn(V) -> int| #[trigger]
                        total_of(self.entries@.update(i as int, (key, value)), measure)
                            == total_of(self.entries@, measure) - measure_at(
                            self.entries@,
                            key,
                            measure,
                        ) + measure(value) by {
                        lemma_total_update(self.entries@, i as int, (key, value), measure);
                    }
                }
                self.entries.set(i, (key, value));
            },
            None => {
                proof {
                    lemma_push_inserts(self.entries@, key, value);
                    assert forall|measure: spec_fn(V) -> int| #[trigger]
                        total_of(self.entries@.push((key, value)), measure) == total_of(
                            self.entries@,
                            measure,
                        ) - measure_at(self.entries@, key, measure) + measure(value) by {
                        lemma_total_push(self.entries@, (key, value), measure);
                    }
                }
                self.entries.push((key, value));
            },
        }
    }

    /// Forgets what was held for `key`.
    pub fn remove(&mut self, key: &K)
        requires
            old(self).wf(),
        ensures
            final(self).wf(),
            final(self)@ == old(self)@.remove(*key),
            forall|measure: spec_fn(V) -> int| #[trigger]
                total_of(final(self).entries@, measure) == total_of(old(self).entries@, measure)
                    - measure_at(old(self).entries@, *key, measure),
    {
        match self.position(key) {
            Some(i) => {
                proof {
                    lemma_swap_remove_removes(self.entries@, i as int);
                    lemma_entry_in_map(self.entries@, i as int);
                    assert forall|measure: spec_fn(V) -> int| #[trigger]
                        total_of(
                            self.entries@.update(i as int, self.entries@.last()).drop_last(),
                            measure,
                        ) == total_of(self.entries@, measure) - measure_at(
                            self.entries@,
                            *key,
                            measure,
                        ) by {
                        lemma_total_swap_remove(self.entries@, i as int, measure);
                    }
                }
                let last = self.entries[self.entries.len() - 1];
                self.entries.set(i, last);
                self.entries.pop();
            },
            None => {
                assert(self@ =~= self@.remove(*key));
            },
        }
    }
}

} // verus!
