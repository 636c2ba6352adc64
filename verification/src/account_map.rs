//! An owned map from account identifiers to values.
//!
//! Token contracts and depositors are both named by account identifiers, which
//! are strings. The map keeps its entries in a vector in which no identifier
//! occurs twice, and is seen in contracts as a `Map` from the identifier's
//! characters to the value.

use vstd::prelude::*;

verus! {

/// The name of an account: a depositor or a token contract.
pub type AccountId = String;

/// No identifier occurs at two positions.
spec fn keys_distinct<V>(entries: Seq<(String, V)>) -> bool {
    forall|i: int, j: int| 0 <= i < j < entries.len() ==> entries[i].0@ != entries[j].0@
}

/// Some entry carries the identifier `key`.
spec fn has_key<V>(entries: Seq<(String, V)>, key: Seq<char>) -> bool {
    exists|i: int| 0 <= i < entries.len() && entries[i].0@ == key
}

/// A position at which `key` stands, where there is one.
spec fn position<V>(entries: Seq<(String, V)>, key: Seq<char>) -> int {
    choose|i: int| 0 <= i < entries.len() && entries[i].0@ == key
}

/// The map that a sequence of entries stands for.
spec fn map_of<V>(entries: Seq<(String, V)>) -> Map<Seq<char>, V> {
    Map::new(|k: Seq<char>| has_key(entries, k), |k: Seq<char>| entries[position(entries, k)].1)
}

/// In a sequence without repeated identifiers, the entry at position `i` is
/// what the map holds under that entry's identifier.
proof fn lemma_entry_is_mapped<V>(entries: Seq<(String, V)>, i: int)
    requires
        keys_distinct(entries),
        0 <= i < entries.len(),
    ensures
        has_key(entries, entries[i].0@),
        position(entries, entries[i].0@) == i,
        map_of(entries).contains_key(entries[i].0@),
        map_of(entries)[entries[i].0@] == entries[i].1,
{
    let key = entries[i].0@;
    assert(has_key(entries, key));
    let p = position(entries, key);
    assert(0 <= p < entries.len() && entries[p].0@ == key);
    if p < i {
        assert(entries[p].0@ != entries[i].0@);
    } else if i < p {
        assert(entries[i].0@ != entries[p].0@);
    }
}

/// Appending an entry under a fresh identifier inserts it into the map.
proof fn lemma_push_inserts<V>(entries: Seq<(String, V)>, key: String, value: V)
    requires
        keys_distinct(entries),
        !has_key(entries, key@),
    ensures
        keys_distinct(entries.push((key, value))),
        map_of(entries.push((key, value))) == map_of(entries).insert(key@, value),
{
    let longer = entries.push((key, value));
    assert forall|i: int, j: int| 0 <= i < j < longer.len() implies longer[i].0@ != longer[j].0@ by {
        if j < entries.len() {
            assert(entries[i].0@ != entries[j].0@);
        } else {
            assert(entries[i].0@ == longer[i].0@);
        }
    }
    assert forall|k: Seq<char>| has_key(longer, k) <==> (has_key(entries, k) || k == key@) by {
        if has_key(entries, k) {
            let p = position(entries, k);
            assert(longer[p].0@ == k);
        }
        if k == key@ {
            assert(longer[entries.len() as int].0@ == k);
        }
        if has_key(longer, k) {
            let p = position(longer, k);
            if p < entries.len() {
                assert(entries[p].0@ == k);
            }
        }
    }
    assert forall|k: Seq<char>| has_key(longer, k) implies #[trigger] map_of(longer)[k] == map_of(
        entries,
    ).insert(key@, value)[k] by {
        if k == key@ {
            lemma_entry_is_mapped(longer, entries.len() as int);
        } else {
            let p = position(entries, k);
            assert(longer[p] == entries[p]);
            lemma_entry_is_mapped(longer, p);
        }
    }
    assert(map_of(longer) =~= map_of(entries).insert(key@, value));
}

/// Taking the entry at position `i` out removes its identifier from the map.
proof fn lemma_remove_removes<V>(entries: Seq<(String, V)>, i: int)
    requires
        keys_distinct(entries),
        0 <= i < entries.len(),
    ensures
        keys_distinct(entries.remove(i)),
        !has_key(entries.remove(i), entries[i].0@),
        map_of(entries.remove(i)) == map_of(entries).remove(entries[i].0@),
{
    let shorter = entries.remove(i);
    let key = entries[i].0@;
    assert forall|a: int| 0 <= a < shorter.len() implies shorter[a] == entries[if a < i {
        a
    } else {
        a + 1
    }] by {}
    assert forall|a: int, b: int| 0 <= a < b < shorter.len() implies shorter[a].0@ != shorter[b].0@ by {
        let first = if a < i { a } else { a + 1 };
        let second = if b < i { b } else { b + 1 };
        assert(entries[first].0@ != entries[second].0@);
    }
    assert forall|k: Seq<char>| has_key(shorter, k) <==> (has_key(entries, k) && k != key) by {
        if has_key(shorter, k) {
            let p = position(shorter, k);
            let origin = if p < i { p } else { p + 1 };
            assert(entries[origin].0@ == k);
            if origin < i {
                assert(entries[origin].0@ != entries[i].0@);
            } else {
                assert(entries[i].0@ != entries[origin].0@);
            }
        }
        if has_key(entries, k) && k != key {
            let p = position(entries, k);
            let q = if p < i { p } else { p - 1 };
            assert(shorter[q].0@ == k);
        }
    }
    assert forall|k: Seq<char>| has_key(shorter, k) implies #[trigger] map_of(shorter)[k] == map_of(
        entries,
    )[k] by {
        let p = position(shorter, k);
        let origin = if p < i { p } else { p + 1 };
        lemma_entry_is_mapped(shorter, p);
        lemma_entry_is_mapped(entries, origin);
    }
    assert(map_of(shorter) =~= map_of(entries).remove(key));
}

/// A map from account identifiers to values of type `V`.
pub struct AccountMap<V> {
    entries: Vec<(String, V)>,
}

impl<V> View for AccountMap<V> {
    type V = Map<Seq<char>, V>;

    closed spec fn view(&self) -> Map<Seq<char>, V> {
        map_of(self.entries@)
    }
}

impl<V> AccountMap<V> {
    #[verifier::type_invariant]
    spec fn well_formed(self) -> bool {
        keys_distinct(self.entries@)
    }

    /// A map without entries.
    pub fn new() -> (map: Self)
        ensures
            map@ == Map::<Seq<char>, V>::empty(),
    {
        let map = AccountMap { entries: Vec::new() };
        assert(map@ =~= Map::<Seq<char>, V>::empty());
        map
    }

    /// The position of the entry for `key`, if there is one.
    fn find(&self, key: &String) -> (found: Option<usize>)
        ensures
            match found {
                Some(i) => i < self.entries@.len() && self.entries@[i as int].0@ == key@,
                None => !has_key(self.entries@, key@),
            },
    {
        let mut i: usize = 0;
        while i < self.entries.len()
            invariant
                i <= self.entries@.len(),
                forall|j: int| 0 <= j < i ==> self.entries@[j].0@ != key@,
            decreases self.entries@.len() - i,
        {
            if self.entries[i].0 == *key {
                return Some(i);
            }
            i += 1;
        }
        None
    }

    /// Whether the map holds a value for `key`.
    pub fn contains_key(&self, key: &String) -> (present: bool)
        ensures
            present == self@.contains_key(key@),
    {
        proof {
            use_type_invariant(self);
        }
        match self.find(key) {
            Some(i) => {
                proof {
                    lemma_entry_is_mapped(self.entries@, i as int);
                }
                true
            },
            None => false,
        }
    }

    /// The value that the map holds for `key`.
    pub fn get(&self, key: &String) -> (value: Option<&V>)
        ensures
            value == (if self@.contains_key(key@) {
                Some(&self@[key@])
            } else {
                None
            }),
    {
        proof {
            use_type_invariant(self);
        }
        match self.find(key) {
            Some(i) => {
                proof {
                    lemma_entry_is_mapped(self.entries@, i as int);
                }
                Some(&self.entries[i].1)
            },
            None => None,
        }
    }

    /// Puts `value` under `key` and hands back the value that stood there.
    pub fn insert(&mut self, key: String, value: V) -> (previous: Option<V>)
        ensures
            final(self)@ == old(self)@.insert(key@, value),
            previous == (if old(self)@.contains_key(key@) {
                Some(old(self)@[key@])
            } else {
                None
            }),
    {
        proof {
            use_type_invariant(&*self);
        }
        let found = self.find(&key);
        let mut entries: Vec<(String, V)> = Vec::new();
        std::mem::swap(&mut entries, &mut self.entries);
        let ghost before = entries@;
        let previous = match found {
            Some(i) => {
                proof {
                    lemma_entry_is_mapped(before, i as int);
                    lemma_remove_removes(before, i as int);
                }
                let taken = entries.remove(i);
                Some(taken.1)
            },
            None => None,
        };
        proof {
            lemma_push_inserts(entries@, key, value);
            assert(map_of(before).remove(key@).insert(key@, value) =~= map_of(before).insert(
                key@,
                value,
            ));
            if found is None {
                assert(map_of(before).remove(key@) =~= map_of(before));
            }
        }
        entries.push((key, value));
        self.entries = entries;
        previous
    }

    /// Takes the entry for `key` out and hands back its value.
    pub fn remove(&mut self, key: &String) -> (previous: Option<V>)
        ensures
            final(self)@ == old(self)@.remove(key@),
            previous == (if old(self)@.contains_key(key@) {
                Some(old(self)@[key@])
            } else {
                None
            }),
    {
        proof {
            use_type_invariant(&*self);
        }
        match self.find(key) {
            Some(i) => {
                let mut entries: Vec<(String, V)> = Vec::new();
                std::mem::swap(&mut entries, &mut self.entries);
                proof {
                    lemma_entry_is_mapped(entries@, i as int);
                    lemma_remove_removes(entries@, i as int);
                }
                let taken = entries.remove(i);
                self.entries = entries;
                Some(taken.1)
            },
            None => {
                assert(self@.remove(key@) =~= self@);
                None
            },
        }
    }
}

} // verus!
