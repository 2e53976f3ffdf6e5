//! A finite map from text keys to values, kept as a list of entries in insertion order.
use vstd::prelude::*;

verus! {

/// The entries of a `TextMap` as spec values: each key by its characters.
pub open spec fn keyed<V>(entries: Seq<(String, V)>) -> Seq<(Seq<char>, V)> {
    entries.map_values(|e: (String, V)| (e.0@, e.1))
}

/// No key occurs twice in the list.
pub open spec fn distinct_keys<K, V>(s: Seq<(K, V)>) -> bool {
    forall|i: int, j: int| 0 <= i < s.len() && 0 <= j < s.len() && i != j ==> s[i].0 != s[j].0
}

/// The key `k` is the key of some entry.
pub open spec fn has_key<K, V>(s: Seq<(K, V)>, k: K) -> bool {
    exists|i: int| 0 <= i < s.len() && #[trigger] s[i].0 == k
}

/// The map that a list of entries with distinct keys stands for.
pub open spec fn to_map<K, V>(s: Seq<(K, V)>) -> Map<K, V> {
    Map::new(
        |k: K| has_key(s, k),
        |k: K| s[choose|i: int| 0 <= i < s.len() && #[trigger] s[i].0 == k].1,
    )
}

/// The position of the entry whose key is `k`.
pub open spec fn key_index<K, V>(s: Seq<(K, V)>, k: K) -> int {
    choose|i: int| 0 <= i < s.len() && #[trigger] s[i].0 == k
}

/// The entries after storing `v` under `k`: an entry with the key keeps its place and
/// takes the value; otherwise a new entry comes last.
pub open spec fn entries_insert<K, V>(s: Seq<(K, V)>, k: K, v: V) -> Seq<(K, V)> {
    if has_key(s, k) {
        s.update(key_index(s, k), (k, v))
    } else {
        s.push((k, v))
    }
}

/// The entries after removing the one with key `k`, if there is one.
pub open spec fn entries_remove<K, V>(s: Seq<(K, V)>, k: K) -> Seq<(K, V)> {
    if has_key(s, k) {
        s.remove(key_index(s, k))
    } else {
        s
    }
}

/// The entries after storing each of `items` in turn.
pub open spec fn entries_insert_all<K, V>(s: Seq<(K, V)>, items: Seq<(K, V)>) -> Seq<(K, V)>
    decreases items.len(),
{
    if items.len() == 0 {
        s
    } else {
        let rest = entries_insert_all(s, items.drop_last());
        entries_insert(rest, items.last().0, items.last().1)
    }
}

/// The map after storing each of `items` in turn.
pub open spec fn map_insert_all<K, V>(m: Map<K, V>, items: Seq<(K, V)>) -> Map<K, V>
    decreases items.len(),
{
    if items.len() == 0 {
        m
    } else {
        map_insert_all(m, items.drop_last()).insert(items.last().0, items.last().1)
    }
}

/// The position of a key that some entry has is that entry's.
pub proof fn lemma_key_index<K, V>(s: Seq<(K, V)>, i: int)
    requires
        distinct_keys(s),
        0 <= i < s.len(),
    ensures
        key_index(s, s[i].0) == i,
{
    assert(has_key(s, s[i].0));
}

/// Storing a value keeps the keys distinct and stores it in the map.
pub proof fn lemma_entries_insert<K, V>(s: Seq<(K, V)>, k: K, v: V)
    requires
        distinct_keys(s),
    ensures
        distinct_keys(entries_insert(s, k, v)),
        to_map(entries_insert(s, k, v)) == to_map(s).insert(k, v),
{
    if has_key(s, k) {
        let i = key_index(s, k);
        lemma_to_map_update(s, i, v);
    } else {
        lemma_to_map_push(s, k, v);
    }
}

/// Storing values in turn keeps the keys distinct and stores them in the map in turn.
pub proof fn lemma_entries_insert_all<K, V>(s: Seq<(K, V)>, items: Seq<(K, V)>)
    requires
        distinct_keys(s),
    ensures
        distinct_keys(entries_insert_all(s, items)),
        to_map(entries_insert_all(s, items)) == map_insert_all(to_map(s), items),
    decreases items.len(),
{
    if items.len() > 0 {
        lemma_entries_insert_all(s, items.drop_last());
        lemma_entries_insert(
            entries_insert_all(s, items.drop_last()),
            items.last().0,
            items.last().1,
        );
    }
}

/// Looking a key up finds the value of the entry that holds it.
pub proof fn lemma_to_map_lookup<K, V>(s: Seq<(K, V)>, i: int)
    requires
        distinct_keys(s),
        0 <= i < s.len(),
    ensures
        to_map(s).contains_key(s[i].0),
        to_map(s)[s[i].0] == s[i].1,
{
    let k = s[i].0;
    assert(has_key(s, k));
    let j = choose|j: int| 0 <= j < s.len() && #[trigger] s[j].0 == k;
    assert(j == i);
}

/// Appending an entry with a new key inserts it into the map.
pub proof fn lemma_to_map_push<K, V>(s: Seq<(K, V)>, k: K, v: V)
    requires
        distinct_keys(s),
        !has_key(s, k),
    ensures
        distinct_keys(s.push((k, v))),
        to_map(s.push((k, v))) == to_map(s).insert(k, v),
{
    let t = s.push((k, v));
    assert forall|i: int, j: int| 0 <= i < t.len() && 0 <= j < t.len() && i != j implies t[i].0
        != t[j].0 by {
        if i < s.len() && j < s.len() {
            assert(t[i] == s[i] && t[j] == s[j]);
        } else if i < s.len() {
            assert(t[i] == s[i]);
        } else {
            assert(t[j] == s[j]);
        }
    }
    assert forall|key: K| #[trigger] has_key(t, key) == (has_key(s, key) || key == k) by {
        if has_key(s, key) {
            let i = choose|i: int| 0 <= i < s.len() && #[trigger] s[i].0 == key;
            assert(t[i] == s[i]);
        }
        if has_key(t, key) && key != k {
            let i = choose|i: int| 0 <= i < t.len() && #[trigger] t[i].0 == key;
            assert(i < s.len());
            assert(s[i] == t[i]);
        }
        if key == k {
            assert(t[s.len() as int].0 == k);
        }
    }
    assert forall|key: K| #[trigger] to_map(t).contains_key(key) implies to_map(t)[key]
        == to_map(s).insert(k, v)[key] by {
        let i = choose|i: int| 0 <= i < t.len() && #[trigger] t[i].0 == key;
        lemma_to_map_lookup(t, i);
        if i < s.len() {
            assert(t[i] == s[i]);
            lemma_to_map_lookup(s, i);
        }
    }
    assert(to_map(t) =~= to_map(s).insert(k, v));
}

/// Replacing the value of the entry at `i` updates the map at its key.
pub proof fn lemma_to_map_update<K, V>(s: Seq<(K, V)>, i: int, v: V)
    requires
        distinct_keys(s),
        0 <= i < s.len(),
    ensures
        distinct_keys(s.update(i, (s[i].0, v))),
        to_map(s.update(i, (s[i].0, v))) == to_map(s).insert(s[i].0, v),
{
    let k = s[i].0;
    let t = s.update(i, (k, v));
    assert forall|a: int, b: int| 0 <= a < t.len() && 0 <= b < t.len() && a != b implies t[a].0
        != t[b].0 by {
        assert(t[a].0 == s[a].0 && t[b].0 == s[b].0);
    }
    assert forall|key: K| #[trigger] has_key(t, key) == has_key(s, key) by {
        if has_key(s, key) {
            let j = choose|j: int| 0 <= j < s.len() && #[trigger] s[j].0 == key;
            assert(t[j].0 == s[j].0);
        }
        if has_key(t, key) {
            let j = choose|j: int| 0 <= j < t.len() && #[trigger] t[j].0 == key;
            assert(t[j].0 == s[j].0);
        }
    }
    assert forall|key: K| #[trigger] to_map(t).contains_key(key) implies to_map(t)[key]
        == to_map(s).insert(k, v)[key] by {
        let j = choose|j: int| 0 <= j < t.len() && #[trigger] t[j].0 == key;
        lemma_to_map_lookup(t, j);
        if j != i {
            assert(t[j] == s[j]);
            lemma_to_map_lookup(s, j);
        }
    }
    assert(has_key(s, k));
    assert(to_map(t) =~= to_map(s).insert(k, v));
}

/// Removing the entry at `i` removes its key from the map.
pub proof fn lemma_to_map_remove<K, V>(s: Seq<(K, V)>, i: int)
    requires
        distinct_keys(s),
        0 <= i < s.len(),
    ensures
        distinct_keys(s.remove(i)),
        to_map(s.remove(i)) == to_map(s).remove(s[i].0),
{
    let k = s[i].0;
    let t = s.remove(i);
    assert forall|j: int| 0 <= j < t.len() implies #[trigger] t[j] == s[if j < i { j } else { j + 1 }] by {}
    assert forall|a: int, b: int| 0 <= a < t.len() && 0 <= b < t.len() && a != b implies t[a].0
        != t[b].0 by {
        assert(t[a] == s[if a < i { a } else { a + 1 }]);
        assert(t[b] == s[if b < i { b } else { b + 1 }]);
    }
    assert forall|key: K| #[trigger] has_key(t, key) == (has_key(s, key) && key != k) by {
        if has_key(s, key) && key != k {
            let j = choose|j: int| 0 <= j < s.len() && #[trigger] s[j].0 == key;
            assert(j != i);
            let jj = if j < i { j } else { j - 1 };
            assert(t[jj] == s[j]);
        }
        if has_key(t, key) {
            let j = choose|j: int| 0 <= j < t.len() && #[trigger] t[j].0 == key;
            let jj = if j < i { j } else { j + 1 };
            assert(t[j] == s[jj]);
            assert(jj != i);
        }
    }
    assert forall|key: K| #[trigger] to_map(t).contains_key(key) implies to_map(t)[key]
        == to_map(s).remove(k)[key] by {
        let j = choose|j: int| 0 <= j < t.len() && #[trigger] t[j].0 == key;
        lemma_to_map_lookup(t, j);
        let jj = if j < i { j } else { j + 1 };
        assert(t[j] == s[jj]);
        lemma_to_map_lookup(s, jj);
    }
    assert(to_map(t) =~= to_map(s).remove(k));
}

/// A finite map from text keys to values. Its entries keep the order in which their keys
/// were first inserted; no key occurs twice.
#[derive(Debug)]
pub struct TextMap<V> {
    entries: Vec<(String, V)>,
}

impl<V> View for TextMap<V> {
    type V = Map<Seq<char>, V>;

    open spec fn view(&self) -> Map<Seq<char>, V> {
        to_map(self.entries())
    }
}

impl<V> TextMap<V> {
    /// The entries in their order, each key by its characters.
    pub closed spec fn entries(self) -> Seq<(Seq<char>, V)> {
        keyed(self.entries@)
    }

    /// The keys of the entries are distinct: what every `TextMap` keeps.
    #[verifier::type_invariant]
    pub open spec fn inv(self) -> bool {
        distinct_keys(self.entries())
    }

    /// An empty map.
    pub fn new() -> (m: Self)
        ensures
            m.entries() == Seq::<(Seq<char>, V)>::empty(),
            m@ == Map::<Seq<char>, V>::empty(),
    {
        let m = TextMap { entries: Vec::new() };
        assert(m.entries() =~= Seq::<(Seq<char>, V)>::empty());
        assert(m@ =~= Map::<Seq<char>, V>::empty());
        m
    }

    /// The number of entries.
    pub fn len(&self) -> (n: usize)
        ensures
            n == self.entries().len(),
    {
        self.entries.len()
    }

    /// The key of the entry at position `i`.
    pub fn key_at(&self, i: usize) -> (k: &String)
        requires
            i < self.entries().len(),
        ensures
            k@ == self.entries()[i as int].0,
    {
        &self.entries[i].0
    }

    /// The value of the entry at position `i`.
    pub fn value_at(&self, i: usize) -> (v: &V)
        requires
            i < self.entries().len(),
        ensures
            *v == self.entries()[i as int].1,
    {
        &self.entries[i].1
    }

    /// The position of the entry whose key is `key`, if there is one.
    pub fn position(&self, key: &String) -> (r: Option<usize>)
        ensures
            r matches Some(i) ==> i < self.entries().len() && self.entries()[i as int].0 == key@,
            r is None <==> !self@.contains_key(key@),
    {
        proof {
            use_type_invariant(self);
        }
        let mut i: usize = 0;
        while i < self.entries.len()
            invariant
                i <= self.entries@.len(),
                forall|j: int| 0 <= j < i ==> self.entries()[j].0 != key@,
            decreases self.entries@.len() - i,
        {
            if self.entries[i].0 == *key {
                assert(self.entries()[i as int].0 == key@);
                return Some(i);
            }
            i = i + 1;
        }
        assert(!has_key(self.entries(), key@));
        None
    }

    /// Whether some entry has the key `key`.
    pub fn contains_key(&self, key: &String) -> (b: bool)
        ensures
            b == self@.contains_key(key@),
    {
        self.position(key).is_some()
    }

    /// The value stored under `key`, if there is one.
    pub fn get(&self, key: &String) -> (r: Option<&V>)
        ensures
            r is None <==> !self@.contains_key(key@),
            r matches Some(v) ==> *v == self@[key@],
    {
        proof {
            use_type_invariant(self);
        }
        match self.position(key) {
            Some(i) => {
                proof {
                    lemma_to_map_lookup(self.entries(), i as int);
                }
                Some(&self.entries[i].1)
            },
            None => None,
        }
    }

    /// Stores `value` under `key`. An entry that has the key keeps its place and takes the
    /// new value; otherwise a new entry comes last.
    pub fn insert(&mut self, key: String, value: V)
        ensures
            final(self)@ == old(self)@.insert(key@, value),
            final(self).entries() == entries_insert(old(self).entries(), key@, value),
    {
        proof {
            use_type_invariant(&*self);
        }
        match self.position(&key) {
            Some(i) => {
                let ghost old_entries = self.entries();
                proof {
                    lemma_key_index(old_entries, i as int);
                    lemma_to_map_update(old_entries, i as int, value);
                    assert(keyed(self.entries@.update(i as int, (key, value))) =~= old_entries.update(
                        i as int,
                        (key@, value),
                    ));
                }
                let mut entries: Vec<(String, V)> = Vec::new();
                std::mem::swap(&mut entries, &mut self.entries);
                entries.set(i, (key, value));
                self.entries = entries;
            },
            None => {
                let ghost old_entries = self.entries();
                proof {
                    lemma_to_map_push(old_entries, key@, value);
                    assert(keyed(self.entries@.push((key, value))) =~= old_entries.push(
                        (key@, value),
                    ));
                }
                let mut entries: Vec<(String, V)> = Vec::new();
                std::mem::swap(&mut entries, &mut self.entries);
                entries.push((key, value));
                self.entries = entries;
            },
        }
    }

    /// Removes the entry with the key `key`, if there is one, and gives back its value. The
    /// other entries keep their order.
    pub fn remove(&mut self, key: &String) -> (r: Option<V>)
        ensures
            final(self)@ == old(self)@.remove(key@),
            r is None <==> !old(self)@.contains_key(key@),
            r matches Some(v) ==> v == old(self)@[key@],
            final(self).entries() == entries_remove(old(self).entries(), key@),
    {
        proof {
            use_type_invariant(&*self);
        }
        match self.position(key) {
            Some(i) => {
                let ghost old_entries = self.entries();
                proof {
                    lemma_key_index(old_entries, i as int);
                    lemma_to_map_remove(old_entries, i as int);
                    lemma_to_map_lookup(old_entries, i as int);
                    assert(keyed(self.entries@.remove(i as int)) =~= old_entries.remove(i as int));
                }
                let mut entries: Vec<(String, V)> = Vec::new();
                std::mem::swap(&mut entries, &mut self.entries);
                let (_k, v) = entries.remove(i);
                self.entries = entries;
                Some(v)
            },
            None => {
                assert(old(self)@.remove(key@) =~= old(self)@);
                None
            },
        }
    }
}

impl<V> TextMap<V> {
    /// The keys in the order of the entries.
    pub fn keys(&self) -> (ks: Vec<String>)
        ensures
            ks@.map_values(|s: String| s@) == self.entries().map_values(|e: (Seq<char>, V)| e.0),
    {
        let mut ks: Vec<String> = Vec::new();
        let mut i: usize = 0;
        while i < self.entries.len()
            invariant
                i <= self.entries@.len(),
                ks@.len() == i,
                ks@.map_values(|s: String| s@) == self.entries().take(i as int).map_values(
                    |e: (Seq<char>, V)| e.0,
                ),
            decreases self.entries@.len() - i,
        {
            let ghost old_ks = ks@;
            ks.push(self.entries[i].0.clone());
            proof {
                assert(self.entries()[i as int].0 == self.entries@[i as int].0@);
                assert(ks@ == old_ks.push(ks@[i as int]));
                assert(ks@.map_values(|s: String| s@) =~= old_ks.map_values(|s: String| s@).push(
                    ks@[i as int]@,
                ));
                assert(self.entries().take(i + 1) =~= self.entries().take(i as int).push(
                    self.entries()[i as int],
                ));
            }
            assert(ks@.map_values(|s: String| s@) =~= self.entries().take(i + 1).map_values(
                |e: (Seq<char>, V)| e.0,
            ));
            i = i + 1;
        }
        assert(self.entries().take(i as int) =~= self.entries());
        ks
    }
}

} // verus!
