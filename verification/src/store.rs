//! A map keyed by account, held as a list of entries with distinct keys.
use vstd::prelude::*;
use crate::account::{AccountId, same_account};

verus! {

/// Whether some entry of `s` has key `k`.
pub open spec fn has_key<V>(s: Seq<(AccountId, V)>, k: AccountId) -> bool {
    exists|i: int| 0 <= i < s.len() && #[trigger] s[i].0 == k
}

/// The map that a list of entries with distinct keys stands for.
pub open spec fn entries_map<V>(s: Seq<(AccountId, V)>) -> Map<AccountId, V> {
    Map::new(
        |k: AccountId| has_key(s, k),
        |k: AccountId| s[choose|i: int| 0 <= i < s.len() && #[trigger] s[i].0 == k].1,
    )
}

/// No two entries of `s` share a key.
pub open spec fn distinct_keys<V>(s: Seq<(AccountId, V)>) -> bool {
    forall|i: int, j: int|
        0 <= i < s.len() && 0 <= j < s.len() && i != j ==> #[trigger] s[i].0 != #[trigger] s[j].0
}

/// In a list with distinct keys, the map's value at the key of entry `i` is
/// that entry's value.
proof fn lemma_entry_value<V>(s: Seq<(AccountId, V)>, i: int)
    requires
        distinct_keys(s),
        0 <= i < s.len(),
    ensures
        entries_map(s).dom().contains(s[i].0),
        entries_map(s)[s[i].0] == s[i].1,
{
    let k = s[i].0;
    assert(has_key(s, k));
    let j = choose|j: int| 0 <= j < s.len() && #[trigger] s[j].0 == k;
    assert(s[j].0 == k);
    assert(i == j);
}

/// A map from accounts to values of type `V`.
pub struct KeyedStore<V: Copy> {
    entries: Vec<(AccountId, V)>,
}

impl<V: Copy> View for KeyedStore<V> {
    type V = Map<AccountId, V>;

    closed spec fn view(&self) -> Map<AccountId, V> {
        entries_map(self.entries@)
    }
}

impl<V: Copy> KeyedStore<V> {
    #[verifier::type_invariant]
    spec fn keys_distinct(&self) -> bool {
        distinct_keys(self.entries@)
    }

    /// The empty map.
    pub fn new() -> (r: KeyedStore<V>)
        ensures
            r@ == Map::<AccountId, V>::empty(),
    {
        let r = KeyedStore { entries: Vec::new() };
        assert(r@ =~= Map::<AccountId, V>::empty());
        r
    }

    /// The position of the entry with key `k`, if any.
    fn find(&self, k: &AccountId) -> (r: Option<usize>)
        ensures
            r matches Some(i) ==> i < self.entries@.len() && self.entries@[i as int].0 == *k,
            r is None ==> !has_key(self.entries@, *k),
    {
        let mut i: usize = 0;
        while i < self.entries.len()
            invariant
                0 <= i <= self.entries@.len(),
                forall|j: int| 0 <= j < i ==> self.entries@[j].0 != *k,
            decreases self.entries@.len() - i,
        {
            if same_account(&self.entries[i].0, k) {
                return Some(i);
            }
            i = i + 1;
        }
        None
    }

    /// The value stored under `k`, if any.
    pub fn get(&self, k: &AccountId) -> (r: Option<V>)
        ensures
            r == (if self@.dom().contains(*k) { Some(self@[*k]) } else { None::<V> }),
    {
        proof { use_type_invariant(self); }
        match self.find(k) {
            Some(i) => {
                proof { lemma_entry_value(self.entries@, i as int); }
                Some(self.entries[i].1)
            },
            None => None,
        }
    }

    /// Whether a value is stored under `k`.
    pub fn contains_key(&self, k: &AccountId) -> (r: bool)
        ensures
            r == self@.dom().contains(*k),
    {
        self.find(k).is_some()
    }

    /// Stores `v` under `k`, replacing any value stored there.
    pub fn insert(&mut self, k: AccountId, v: V)
        ensures
            final(self)@ == old(self)@.insert(k, v),
    {
        proof { use_type_invariant(&*self); }
        let ghost s = self.entries@;
        match self.find(&k) {
            Some(i) => {
                let mut entries: Vec<(AccountId, V)> = Vec::new();
                std::mem::swap(&mut entries, &mut self.entries);
                entries.set(i, (k, v));
                let ghost t = entries@;
                assert(t == s.update(i as int, (k, v)));
                assert(distinct_keys(t));
                self.entries = entries;
                proof {
                    assert forall|key: AccountId| #[trigger] has_key(t, key) == (has_key(s, key) || key == k) by {
                        if has_key(s, key) {
                            let j = choose|j: int| 0 <= j < s.len() && #[trigger] s[j].0 == key;
                            assert(t[j].0 == key || j == i);
                        }
                        if key == k {
                            assert(t[i as int].0 == k);
                        }
                    }
                    assert forall|key: AccountId| has_key(t, key) implies #[trigger] entries_map(t)[key]
                        == entries_map(s).insert(k, v)[key] by {
                        let j = choose|j: int| 0 <= j < t.len() && #[trigger] t[j].0 == key;
                        lemma_entry_value(t, j);
                        if key != k {
                            assert(j != i);
                            assert(s[j] == t[j]);
                            lemma_entry_value(s, j);
                        }
                    }
                    assert(entries_map(t) =~= entries_map(s).insert(k, v));
                }
            },
            None => {
                let mut entries: Vec<(AccountId, V)> = Vec::new();
                std::mem::swap(&mut entries, &mut self.entries);
                entries.push((k, v));
                let ghost t = entries@;
                assert(t == s.push((k, v)));
                assert(distinct_keys(t));
                self.entries = entries;
                proof {
                    assert forall|key: AccountId| #[trigger] has_key(t, key) == (has_key(s, key) || key == k) by {
                        if has_key(s, key) {
                            let j = choose|j: int| 0 <= j < s.len() && #[trigger] s[j].0 == key;
                            assert(t[j].0 == key);
                        }
                        if key == k {
                            assert(t[s.len() as int].0 == k);
                        }
                    }
                    assert forall|key: AccountId| has_key(t, key) implies #[trigger] entries_map(t)[key]
                        == entries_map(s).insert(k, v)[key] by {
                        let j = choose|j: int| 0 <= j < t.len() && #[trigger] t[j].0 == key;
                        lemma_entry_value(t, j);
                        if key != k {
                            assert(j != s.len());
                            assert(s[j] == t[j]);
                            lemma_entry_value(s, j);
                        }
                    }
                    assert(entries_map(t) =~= entries_map(s).insert(k, v));
                }
            },
        }
    }

    /// Removes any value stored under `k`.
    pub fn remove(&mut self, k: &AccountId)
        ensures
            final(self)@ == old(self)@.remove(*k),
    {
        proof { use_type_invariant(&*self); }
        let ghost s = self.entries@;
        match self.find(k) {
            Some(i) => {
                let mut entries: Vec<(AccountId, V)> = Vec::new();
                std::mem::swap(&mut entries, &mut self.entries);
                entries.remove(i);
                let ghost t = entries@;
                proof {
                    s.remove_ensures(i as int);
                    assert(t == s.remove(i as int));
                    assert forall|a: int, b: int|
                        0 <= a < t.len() && 0 <= b < t.len() && a != b implies #[trigger] t[a].0
                        != #[trigger] t[b].0 by {
                        let a2 = if a < i { a } else { a + 1 };
                        let b2 = if b < i { b } else { b + 1 };
                        assert(t[a] == s[a2]);
                        assert(t[b] == s[b2]);
                    }
                }
                self.entries = entries;
                proof {
                    assert forall|key: AccountId| #[trigger] has_key(t, key) == (has_key(s, key) && key != *k) by {
                        if has_key(s, key) && key != *k {
                            let j = choose|j: int| 0 <= j < s.len() && #[trigger] s[j].0 == key;
                            assert(j != i);
                            let j2 = if j < i { j } else { j - 1 };
                            assert(t[j2] == s[j]);
                        }
                        if has_key(t, key) {
                            let j = choose|j: int| 0 <= j < t.len() && #[trigger] t[j].0 == key;
                            let j2 = if j < i { j } else { j + 1 };
                            assert(t[j] == s[j2]);
                            assert(j2 != i);
                        }
                    }
                    assert forall|key: AccountId| has_key(t, key) implies #[trigger] entries_map(t)[key]
                        == entries_map(s)[key] by {
                        let j = choose|j: int| 0 <= j < t.len() && #[trigger] t[j].0 == key;
                        lemma_entry_value(t, j);
                        let j2 = if j < i { j } else { j + 1 };
                        assert(t[j] == s[j2]);
                        lemma_entry_value(s, j2);
                    }
                    assert(entries_map(t) =~= entries_map(s).remove(*k));
                }
            },
            None => {
                assert(entries_map(s) =~= entries_map(s).remove(*k));
            },
        }
    }
}

} // verus!
