//! A map from text keys to values, kept as a list of entries in the order
//! in which their keys first arrived. No key occurs twice.

use crate::text::same_text;
use vstd::pervasive::cloned;
use vstd::prelude::*;

verus! {

/// The map that pairs `keys[i]` with `values[i]`.
pub open spec fn paired<V>(keys: Seq<Seq<char>>, values: Seq<V>) -> Map<Seq<char>, V> {
    Map::new(|k: Seq<char>| keys.contains(k), |k: Seq<char>| values[keys.index_of(k)])
}

/// The texts of a map whose values are strings.
pub open spec fn texts(m: Map<Seq<char>, String>) -> Map<Seq<char>, Seq<char>> {
    m.map_values(|s: String| s@)
}

/// In a list without repeated keys, the key at position `i` is paired with
/// the value at position `i`.
pub proof fn lemma_paired_at<V>(keys: Seq<Seq<char>>, values: Seq<V>, i: int)
    requires
        keys.no_duplicates(),
        0 <= i < keys.len(),
    ensures
        paired(keys, values).contains_key(keys[i]),
        paired(keys, values)[keys[i]] == values[i],
{
    assert(keys.contains(keys[i]));
    let j = keys.index_of(keys[i]);
    assert(0 <= j < keys.len() && keys[j] == keys[i]);
}

/// A list without repeated keys makes a map with as many entries as it has keys.
pub proof fn lemma_paired_size<V>(keys: Seq<Seq<char>>, values: Seq<V>)
    requires
        keys.no_duplicates(),
    ensures
        paired(keys, values).dom().finite(),
        paired(keys, values).len() == keys.len(),
{
    assert(paired(keys, values).dom() =~= keys.to_set());
    keys.unique_seq_to_set();
    vstd::seq_lib::seq_to_set_is_finite(keys);
}

/// A map keyed by text.
#[derive(Debug)]
pub struct StrMap<V> {
    entries: Vec<(String, V)>,
}

/// The keys of a list of entries.
pub open spec fn keys_of<V>(entries: Seq<(String, V)>) -> Seq<Seq<char>> {
    Seq::new(entries.len(), |i: int| entries[i].0@)
}

/// The values of a list of entries.
pub open spec fn values_of<V>(entries: Seq<(String, V)>) -> Seq<V> {
    Seq::new(entries.len(), |i: int| entries[i].1)
}

impl<V> View for StrMap<V> {
    type V = Map<Seq<char>, V>;

    open spec fn view(&self) -> Map<Seq<char>, V> {
        paired(self.key_seq(), self.value_seq())
    }
}

impl<V> StrMap<V> {
    #[verifier::type_invariant]
    spec fn inv(&self) -> bool {
        self.key_seq().no_duplicates()
    }

    /// The keys, in the order in which they first arrived.
    pub closed spec fn key_seq(&self) -> Seq<Seq<char>> {
        keys_of(self.entries@)
    }

    /// The values, each at the position of its key in `key_seq`.
    pub closed spec fn value_seq(&self) -> Seq<V> {
        values_of(self.entries@)
    }

    /// What every map of this type satisfies: one value per key, and no key twice.
    pub open spec fn well_formed(&self) -> bool {
        &&& self.key_seq().len() == self.value_seq().len()
        &&& self.key_seq().no_duplicates()
    }

    /// A map without entries.
    pub fn new() -> (m: Self)
        ensures
            m@ == Map::<Seq<char>, V>::empty(),
            m.key_seq() == Seq::<Seq<char>>::empty(),
            m.value_seq() == Seq::<V>::empty(),
    {
        let m = StrMap { entries: Vec::new() };
        assert(m.key_seq() =~= Seq::<Seq<char>>::empty());
        assert(m.value_seq() =~= Seq::<V>::empty());
        assert(m@ =~= Map::<Seq<char>, V>::empty());
        m
    }

    /// The number of entries.
    pub fn len(&self) -> (n: usize)
        ensures
            n == self.key_seq().len(),
            n == self@.len(),
            self@.dom().finite(),
            self.well_formed(),
    {
        proof {
            use_type_invariant(self);
            lemma_paired_size(self.key_seq(), self.value_seq());
        }
        self.entries.len()
    }

    /// The position of `key` among the keys, if it is one of them.
    pub fn position(&self, key: &str) -> (r: Option<usize>)
        ensures
            self.well_formed(),
            match r {
                Some(i) => i < self.key_seq().len() && self.key_seq()[i as int] == key@,
                None => !self.key_seq().contains(key@),
            },
    {
        proof {
            use_type_invariant(self);
        }
        let mut i: usize = 0;
        while i < self.entries.len()
            invariant
                0 <= i <= self.entries.len(),
                forall|j: int| 0 <= j < i ==> self.key_seq()[j] != key@,
                self.key_seq().len() == self.entries.len(),
                self.well_formed(),
            decreases self.entries.len() - i,
        {
            assert(self.key_seq()[i as int] == self.entries@[i as int].0@);
            if same_text(self.entries[i].0.as_str(), key) {
                return Some(i);
            }
            i += 1;
        }
        None
    }

    /// Whether `key` has an entry.
    pub fn contains_key(&self, key: &str) -> (r: bool)
        ensures
            r == self@.contains_key(key@),
    {
        self.position(key).is_some()
    }

    /// The value stored under `key`, if there is one.
    pub fn get(&self, key: &str) -> (r: Option<&V>)
        ensures
            match r {
                Some(v) => self@.contains_key(key@) && *v == self@[key@],
                None => !self@.contains_key(key@),
            },
    {
        match self.position(key) {
            Some(i) => {
                proof {
                    lemma_paired_at(self.key_seq(), self.value_seq(), i as int);
                }
                Some(&self.entries[i].1)
            },
            None => None,
        }
    }

    /// The key at position `i`.
    pub fn key_at(&self, i: usize) -> (k: &String)
        requires
            i < self.key_seq().len(),
        ensures
            k@ == self.key_seq()[i as int],
            self@.contains_key(k@),
    {
        proof {
            use_type_invariant(self);
            lemma_paired_at(self.key_seq(), self.value_seq(), i as int);
        }
        &self.entries[i].0
    }

    /// The value at position `i`.
    pub fn value_at(&self, i: usize) -> (v: &V)
        requires
            i < self.key_seq().len(),
        ensures
            *v == self.value_seq()[i as int],
            *v == self@[self.key_seq()[i as int]],
    {
        proof {
            use_type_invariant(self);
            lemma_paired_at(self.key_seq(), self.value_seq(), i as int);
        }
        &self.entries[i].1
    }

    /// Replaces the value at position `i` and hands back the one that was there.
    pub fn replace_at(&mut self, i: usize, value: V) -> (previous: V)
        requires
            i < old(self).key_seq().len(),
        ensures
            final(self).key_seq() == old(self).key_seq(),
            final(self).value_seq() == old(self).value_seq().update(i as int, value),
            final(self)@ == old(self)@.insert(old(self).key_seq()[i as int], value),
            previous == old(self).value_seq()[i as int],
    {
        proof {
            use_type_invariant(&*self);
        }
        let ghost keys = self.key_seq();
        let ghost before = self.value_seq();
        let mut entries: Vec<(String, V)> = Vec::new();
        std::mem::swap(&mut entries, &mut self.entries);
        let mut swapped = value;
        std::mem::swap(&mut entries[i].1, &mut swapped);
        proof {
            assert(keys_of(entries@) =~= keys);
            assert(values_of(entries@) =~= before.update(i as int, value));
        }
        std::mem::swap(&mut entries, &mut self.entries);
        proof {
            let after = self.value_seq();
            assert forall|k: Seq<char>| #[trigger] paired(keys, after).contains_key(k) implies paired(keys, after)[k] == paired(keys, before).insert(keys[i as int], value)[k] by {
                let j = keys.index_of(k);
                assert(0 <= j < keys.len() && keys[j] == k);
            }
            assert(paired(keys, after) =~= paired(keys, before).insert(keys[i as int], value));
        }
        swapped
    }

    /// Whether the map has no entry.
    pub fn is_empty(&self) -> (r: bool)
        ensures
            r == (self.key_seq().len() == 0),
            r == (self@ == Map::<Seq<char>, V>::empty()),
    {
        let r = self.entries.len() == 0;
        proof {
            if r {
                assert(self@ =~= Map::<Seq<char>, V>::empty());
            } else {
                assert(self.key_seq().contains(self.key_seq()[0]));
                assert(self@.contains_key(self.key_seq()[0]));
            }
        }
        r
    }

    /// Removes every entry.
    pub fn clear(&mut self)
        ensures
            final(self)@ == Map::<Seq<char>, V>::empty(),
            final(self).key_seq() == Seq::<Seq<char>>::empty(),
            final(self).value_seq() == Seq::<V>::empty(),
    {
        let mut entries: Vec<(String, V)> = Vec::new();
        std::mem::swap(&mut entries, &mut self.entries);
        proof {
            assert(self.key_seq() =~= Seq::<Seq<char>>::empty());
            assert(self.value_seq() =~= Seq::<V>::empty());
            assert(self@ =~= Map::<Seq<char>, V>::empty());
        }
    }

    /// Removes the entry of `key`, if there is one, and hands back its value.
    /// The entries behind it move up by one position.
    pub fn remove(&mut self, key: &str) -> (previous: Option<V>)
        ensures
            final(self)@ == old(self)@.remove(key@),
            previous == if old(self)@.contains_key(key@) {
                Some(old(self)@[key@])
            } else {
                None
            },
            !old(self)@.contains_key(key@) ==> final(self).key_seq() == old(self).key_seq(),
    {
        match self.position(key) {
            Some(i) => {
                let ghost keys = self.key_seq();
                let ghost values = self.value_seq();
                proof {
                    lemma_paired_at(keys, values, i as int);
                }
                let mut entries: Vec<(String, V)> = Vec::new();
                std::mem::swap(&mut entries, &mut self.entries);
                let entry = entries.remove(i);
                proof {
                    assert(keys_of(entries@) =~= keys.remove(i as int));
                    assert(values_of(entries@) =~= values.remove(i as int));
                    lemma_paired_remove(keys, values, i as int);
                }
                std::mem::swap(&mut entries, &mut self.entries);
                Some(entry.1)
            },
            None => {
                proof {
                    assert(self@.remove(key@) =~= self@);
                }
                None
            },
        }
    }

    /// Moves every entry of `other` into this map. Where both hold a key,
    /// the value of `other` stays.
    pub fn absorb(&mut self, other: StrMap<V>)
        ensures
            final(self)@ == old(self)@.union_prefer_right(other@),
    {
        proof {
            use_type_invariant(&other);
        }
        let ghost keys = other.key_seq();
        let ghost values = other.value_seq();
        let ghost start = self@;
        let mut rest = other.entries;
        while rest.len() > 0
            invariant
                keys.no_duplicates(),
                keys.len() == values.len(),
                rest@.len() <= keys.len(),
                keys_of(rest@) == keys.take(rest@.len() as int),
                values_of(rest@) == values.take(rest@.len() as int),
                forall|k: Seq<char>|
                    self@.contains_key(k) <==> (start.contains_key(k) || exists|j: int|
                        rest@.len() <= j < keys.len() && keys[j] == k),
                forall|j: int| rest@.len() <= j < keys.len() ==> self@[#[trigger] keys[j]] == values[j],
                forall|k: Seq<char>|
                    start.contains_key(k) && !(exists|j: int| rest@.len() <= j < keys.len() && keys[j] == k)
                        ==> #[trigger] self@[k] == start[k],
            decreases rest@.len(),
        {
            let ghost n = rest@.len() as int;
            let ghost before = self@;
            let ghost rest_before = rest@;
            let entry = rest.pop().unwrap();
            proof {
                assert(keys_of(rest_before)[n - 1] == entry.0@);
                assert(values_of(rest_before)[n - 1] == entry.1);
                assert(keys[n - 1] == entry.0@);
                assert(values[n - 1] == entry.1);
                assert(keys_of(rest@) =~= keys.take(n - 1));
                assert(values_of(rest@) =~= values.take(n - 1));
            }
            self.insert(entry.0, entry.1);
            proof {
                assert(self@ == before.insert(keys[n - 1], values[n - 1]));
                assert forall|k: Seq<char>|
                    self@.contains_key(k) <==> (start.contains_key(k) || exists|j: int|
                        n - 1 <= j < keys.len() && keys[j] == k) by {
                    if self@.contains_key(k) && !start.contains_key(k) {
                        if k == keys[n - 1] {
                            assert(n - 1 <= n - 1 < keys.len() && keys[n - 1] == k);
                        } else {
                            assert(before.contains_key(k));
                            let j = choose|j: int| n <= j < keys.len() && keys[j] == k;
                            assert(n - 1 <= j < keys.len() && keys[j] == k);
                        }
                    }
                    if exists|j: int| n - 1 <= j < keys.len() && keys[j] == k {
                        let j = choose|j: int| n - 1 <= j < keys.len() && keys[j] == k;
                        if j >= n {
                            assert(before.contains_key(k));
                        }
                    }
                }
                assert forall|j: int| n - 1 <= j < keys.len() implies self@[#[trigger] keys[j]]
                    == values[j] by {
                    if j >= n {
                        assert(keys[j] != keys[n - 1]);
                    }
                }
                assert forall|k: Seq<char>|
                    start.contains_key(k) && !(exists|j: int| n - 1 <= j < keys.len() && keys[j] == k)
                        implies #[trigger] self@[k] == start[k] by {
                    assert(k != keys[n - 1]);
                    assert(!(exists|j: int| n <= j < keys.len() && keys[j] == k)) by {
                        if exists|j: int| n <= j < keys.len() && keys[j] == k {
                            let j = choose|j: int| n <= j < keys.len() && keys[j] == k;
                            assert(n - 1 <= j < keys.len() && keys[j] == k);
                        }
                    }
                }
            }
        }
        proof {
            let goal = start.union_prefer_right(paired(keys, values));
            assert forall|k: Seq<char>| self@.contains_key(k) <==> goal.contains_key(k) by {
                if keys.contains(k) {
                    let j = choose|j: int| 0 <= j < keys.len() && keys[j] == k;
                    assert(0 <= j < keys.len() && keys[j] == k);
                }
            }
            assert forall|k: Seq<char>| self@.contains_key(k) implies #[trigger] self@[k] == goal[k] by {
                if keys.contains(k) {
                    let j = choose|j: int| 0 <= j < keys.len() && keys[j] == k;
                    lemma_paired_at(keys, values, j);
                    assert(self@[keys[j]] == values[j]);
                } else {
                    assert(!(exists|j: int| 0 <= j < keys.len() && keys[j] == k));
                }
            }
            assert(self@ =~= goal);
        }
    }

    /// Stores `value` under `key`. A key that is already present keeps its
    /// position and hands back its former value; a new key goes to the end.
    pub fn insert(&mut self, key: String, value: V) -> (previous: Option<V>)
        ensures
            old(self).well_formed(),
            final(self)@ == old(self)@.insert(key@, value),
            previous == if old(self)@.contains_key(key@) {
                Some(old(self)@[key@])
            } else {
                None
            },
            old(self)@.contains_key(key@) ==> final(self).key_seq() == old(self).key_seq(),
            old(self)@.contains_key(key@) ==> final(self).value_seq() == old(self).value_seq().update(
                old(self).key_seq().index_of(key@),
                value,
            ),
            !old(self)@.contains_key(key@) ==> final(self).key_seq() == old(self).key_seq().push(key@),
            !old(self)@.contains_key(key@) ==> final(self).value_seq() == old(self).value_seq().push(value),
    {
        match self.position(key.as_str()) {
            Some(i) => {
                proof {
                    lemma_paired_at(self.key_seq(), self.value_seq(), i as int);
                    let keys = self.key_seq();
                    let j = keys.index_of(key@);
                    assert(keys.contains(key@));
                    assert(0 <= j < keys.len() && keys[j] == key@);
                    assert(j == i);
                }
                Some(self.replace_at(i, value))
            },
            None => {
                proof {
                    use_type_invariant(&*self);
                }
                let ghost keys = self.key_seq();
                let ghost values = self.value_seq();
                let mut entries: Vec<(String, V)> = Vec::new();
                std::mem::swap(&mut entries, &mut self.entries);
                entries.push((key, value));
                proof {
                    assert(keys_of(entries@) =~= keys.push(key@));
                    assert(values_of(entries@) =~= values.push(value));
                    lemma_paired_push(keys, values, key@, value);
                }
                std::mem::swap(&mut entries, &mut self.entries);
                None
            },
        }
    }
}

/// Dropping the pair at position `i` removes its key from the map.
pub proof fn lemma_paired_remove<V>(keys: Seq<Seq<char>>, values: Seq<V>, i: int)
    requires
        keys.no_duplicates(),
        keys.len() == values.len(),
        0 <= i < keys.len(),
    ensures
        keys.remove(i).no_duplicates(),
        paired(keys.remove(i), values.remove(i)) == paired(keys, values).remove(keys[i]),
{
    let keys2 = keys.remove(i);
    let values2 = values.remove(i);
    assert forall|a: int, b: int| 0 <= a < keys2.len() && 0 <= b < keys2.len() && a != b implies keys2[a] != keys2[b] by {
        let a0 = if a < i { a } else { a + 1 };
        let b0 = if b < i { b } else { b + 1 };
        assert(keys2[a] == keys[a0] && keys2[b] == keys[b0]);
    }
    assert forall|k: Seq<char>| keys2.contains(k) <==> (k != keys[i] && keys.contains(k)) by {
        if keys2.contains(k) {
            let a = choose|a: int| 0 <= a < keys2.len() && keys2[a] == k;
            let a0 = if a < i { a } else { a + 1 };
            assert(keys[a0] == k);
        }
        if k != keys[i] && keys.contains(k) {
            let a0 = choose|a: int| 0 <= a < keys.len() && keys[a] == k;
            let a = if a0 < i { a0 } else { a0 - 1 };
            assert(keys2[a] == k);
        }
    }
    assert forall|k: Seq<char>| #[trigger] keys2.contains(k) implies paired(keys2, values2)[k] == paired(keys, values).remove(keys[i])[k] by {
        let a = keys2.index_of(k);
        assert(0 <= a < keys2.len() && keys2[a] == k);
        let a0 = if a < i { a } else { a + 1 };
        assert(keys[a0] == k);
        let j0 = keys.index_of(k);
        assert(0 <= j0 < keys.len() && keys[j0] == k);
        assert(j0 == a0);
    }
    assert(paired(keys2, values2) =~= paired(keys, values).remove(keys[i]));
}

impl<V: Clone> Clone for StrMap<V> {
    /// A map with the same keys in the same order, each with a clone of its value.
    fn clone(&self) -> (m: Self)
        ensures
            self.well_formed(),
            m.key_seq() == self.key_seq(),
            m.value_seq().len() == self.value_seq().len(),
            forall|i: int|
                0 <= i < self.value_seq().len() ==> cloned::<V>(
                    #[trigger] self.value_seq()[i],
                    m.value_seq()[i],
                ),
    {
        proof {
            use_type_invariant(self);
        }
        let mut entries: Vec<(String, V)> = Vec::new();
        let mut i: usize = 0;
        while i < self.entries.len()
            invariant
                0 <= i <= self.entries.len(),
                entries@.len() == i,
                keys_of(entries@) == keys_of(self.entries@).take(i as int),
                forall|j: int|
                    0 <= j < i ==> cloned::<V>(#[trigger] values_of(self.entries@)[j], values_of(entries@)[j]),
            decreases self.entries.len() - i,
        {
            let key = self.entries[i].0.clone();
            let value = self.entries[i].1.clone();
            let ghost before = entries@;
            entries.push((key, value));
            proof {
                assert(keys_of(entries@) =~= keys_of(self.entries@).take(i + 1));
                assert forall|j: int| 0 <= j < i + 1 implies cloned::<V>(
                    #[trigger] values_of(self.entries@)[j],
                    values_of(entries@)[j],
                ) by {
                    if j < i {
                        assert(cloned::<V>(values_of(self.entries@)[j], values_of(before)[j]));
                    }
                }
            }
            i += 1;
        }
        proof {
            assert(keys_of(self.entries@).take(i as int) =~= keys_of(self.entries@));
        }
        StrMap { entries }
    }
}

/// A clone of a map of strings holds the same strings.
pub proof fn lemma_clone_of_strings(a: StrMap<String>, b: StrMap<String>)
    requires
        a.well_formed(),
        b.key_seq() == a.key_seq(),
        b.value_seq().len() == a.value_seq().len(),
        forall|i: int|
            0 <= i < a.value_seq().len() ==> cloned::<String>(#[trigger] a.value_seq()[i], b.value_seq()[i]),
    ensures
        b@ == a@,
{
    assert forall|i: int| 0 <= i < a.value_seq().len() implies a.value_seq()[i] == b.value_seq()[i] by {
        assert(cloned::<String>(a.value_seq()[i], b.value_seq()[i]));
    }
    assert(a.value_seq() =~= b.value_seq());
}

/// A copy of a map of strings.
pub fn copy_of_strings(m: &StrMap<String>) -> (r: StrMap<String>)
    ensures
        r@ == m@,
        r.key_seq() == m.key_seq(),
        r.value_seq() == m.value_seq(),
{
    let r = m.clone();
    proof {
        lemma_clone_of_strings(*m, r);
        assert(m.value_seq() =~= r.value_seq());
    }
    r
}

/// Adding a pair with a new key at the end inserts it into the map.
pub proof fn lemma_paired_push<V>(keys: Seq<Seq<char>>, values: Seq<V>, key: Seq<char>, value: V)
    requires
        keys.no_duplicates(),
        keys.len() == values.len(),
        !keys.contains(key),
    ensures
        keys.push(key).no_duplicates(),
        paired(keys.push(key), values.push(value)) == paired(keys, values).insert(key, value),
{
    let keys2 = keys.push(key);
    let values2 = values.push(value);
    assert(keys2.no_duplicates()) by {
        assert forall|i: int, j: int| 0 <= i < keys2.len() && 0 <= j < keys2.len() && i != j implies keys2[i] != keys2[j] by {
            if i < keys.len() && j < keys.len() {
            } else if i < keys.len() {
                assert(keys.contains(keys[i]));
            } else {
                assert(keys.contains(keys[j]));
            }
        }
    }
    assert forall|k: Seq<char>| keys2.contains(k) <==> (k == key || keys.contains(k)) by {
        if keys2.contains(k) {
            let i = choose|i: int| 0 <= i < keys2.len() && keys2[i] == k;
            if i < keys.len() {
                assert(keys[i] == k);
            }
        }
        if keys.contains(k) {
            let i = choose|i: int| 0 <= i < keys.len() && keys[i] == k;
            assert(keys2[i] == k);
        }
        if k == key {
            assert(keys2[keys.len() as int] == k);
        }
    }
    assert forall|k: Seq<char>| #[trigger] keys2.contains(k) implies paired(keys2, values2)[k] == paired(keys, values).insert(key, value)[k] by {
        let j = keys2.index_of(k);
        assert(0 <= j < keys2.len() && keys2[j] == k);
        if k == key {
            assert(keys2[keys.len() as int] == key);
            assert(j == keys.len());
        } else {
            assert(j < keys.len());
            assert(keys[j] == k);
            let j0 = keys.index_of(k);
            assert(0 <= j0 < keys.len() && keys[j0] == k);
            assert(j0 == j);
        }
    }
    assert(paired(keys2, values2) =~= paired(keys, values).insert(key, value));
}

} // verus!
