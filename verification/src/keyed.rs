//! Maps and sets over keys that are compared by their mathematical view.
//!
//! A host identifies sessions, projects, topics and destinations by text. The
//! collections here keep one entry per key and read, in contracts, as `Map` and
//! `Set` over the keys' views.
use vstd::prelude::*;

verus! {

/// Equality of string slices is equality of their characters.
///
/// Trusted: `str::eq` compares the two slices' bytes, which are equal exactly
/// when the characters are.
pub assume_specification[ <str as PartialEq>::eq ](this: &str, that: &str) -> (res: bool)
    ensures
        res == (this@ == that@),
;

/// A value that can identify an entry.
pub trait Key: View + Sized {
    /// Whether two keys identify the same entry.
    fn same(&self, other: &Self) -> (same: bool)
        ensures
            same == (self@ == other@),
    ;
}

impl Key for String {
    fn same(&self, other: &Self) -> (same: bool) {
        *self == *other
    }
}

impl Key for u64 {
    fn same(&self, other: &Self) -> (same: bool) {
        *self == *other
    }
}

spec fn holds<K: View, T>(entries: Seq<(K, T)>, key: K::V) -> bool {
    exists|i: int| 0 <= i < entries.len() && #[trigger] entries[i].0@ == key
}

spec fn position<K: View, T>(entries: Seq<(K, T)>, key: K::V) -> int {
    choose|i: int| 0 <= i < entries.len() && #[trigger] entries[i].0@ == key
}

spec fn distinct<K: View, T>(entries: Seq<(K, T)>) -> bool {
    forall|i: int, j: int|
        0 <= i < entries.len() && 0 <= j < entries.len() && #[trigger] entries[i].0@
            == #[trigger] entries[j].0@ ==> i == j
}

spec fn as_map<K: View, T>(entries: Seq<(K, T)>) -> Map<K::V, T> {
    Map::new(|key: K::V| holds(entries, key), |key: K::V| entries[position(entries, key)].1)
}

proof fn lemma_entry<K: View, T>(entries: Seq<(K, T)>, i: int)
    requires
        distinct(entries),
        0 <= i < entries.len(),
    ensures
        position(entries, entries[i].0@) == i,
        as_map(entries).contains_key(entries[i].0@),
        as_map(entries)[entries[i].0@] == entries[i].1,
{
}

proof fn lemma_update<K: View, T>(entries: Seq<(K, T)>, i: int, entry: (K, T))
    requires
        distinct(entries),
        0 <= i < entries.len(),
        entries[i].0@ == entry.0@,
    ensures
        distinct(entries.update(i, entry)),
        as_map(entries.update(i, entry)) == as_map(entries).insert(entry.0@, entry.1),
{
    let after = entries.update(i, entry);
    assert forall|a: int, b: int|
        0 <= a < after.len() && 0 <= b < after.len() && #[trigger] after[a].0@
            == #[trigger] after[b].0@ implies a == b by {
        assert(entries[a].0@ == entries[b].0@);
    }
    assert forall|k: K::V| holds(after, k) <==> holds(entries, k) by {
        if holds(entries, k) {
            assert(after[position(entries, k)].0@ == k);
        }
        if holds(after, k) {
            assert(entries[position(after, k)].0@ == k);
        }
    }
    lemma_entry(entries, i);
    assert forall|k: K::V| holds(after, k) implies as_map(after)[k] == as_map(entries).insert(
        entry.0@,
        entry.1,
    )[k] by {
        let p = position(after, k);
        lemma_entry(after, p);
        lemma_entry(entries, p);
    }
    assert(as_map(after) =~= as_map(entries).insert(entry.0@, entry.1));
}

proof fn lemma_push<K: View, T>(entries: Seq<(K, T)>, entry: (K, T))
    requires
        distinct(entries),
        !holds(entries, entry.0@),
    ensures
        distinct(entries.push(entry)),
        as_map(entries.push(entry)) == as_map(entries).insert(entry.0@, entry.1),
{
    let after = entries.push(entry);
    let last = entries.len() as int;
    assert forall|a: int, b: int|
        0 <= a < after.len() && 0 <= b < after.len() && #[trigger] after[a].0@
            == #[trigger] after[b].0@ implies a == b by {
        if a < last {
            assert(holds(entries, entries[a].0@));
        }
        if b < last {
            assert(holds(entries, entries[b].0@));
        }
        if a < last && b < last {
            assert(entries[a].0@ == entries[b].0@);
        }
    }
    assert forall|k: K::V| holds(after, k) <==> (holds(entries, k) || k == entry.0@) by {
        if holds(entries, k) {
            assert(after[position(entries, k)].0@ == k);
        }
        if holds(after, k) {
            let p = position(after, k);
            if p < last {
                assert(entries[p].0@ == k);
            }
        }
        if k == entry.0@ {
            assert(after[last].0@ == k);
        }
    }
    assert forall|k: K::V| holds(after, k) implies as_map(after)[k] == as_map(entries).insert(
        entry.0@,
        entry.1,
    )[k] by {
        let p = position(after, k);
        lemma_entry(after, p);
        if p < last {
            lemma_entry(entries, p);
        }
    }
    assert(as_map(after) =~= as_map(entries).insert(entry.0@, entry.1));
}

proof fn lemma_remove<K: View, T>(entries: Seq<(K, T)>, at: int)
    requires
        distinct(entries),
        0 <= at < entries.len(),
    ensures
        distinct(entries.remove(at)),
        as_map(entries.remove(at)) == as_map(entries).remove(entries[at].0@),
{
    let after = entries.remove(at);
    let key = entries[at].0@;
    assert forall|p: int| 0 <= p < after.len() implies #[trigger] after[p] == entries[if p < at {
        p
    } else {
        p + 1
    }] by {
    }
    assert forall|a: int, b: int|
        0 <= a < after.len() && 0 <= b < after.len() && #[trigger] after[a].0@
            == #[trigger] after[b].0@ implies a == b by {
        let x = if a < at { a } else { a + 1 };
        let y = if b < at { b } else { b + 1 };
        assert(entries[x].0@ == entries[y].0@);
    }
    assert forall|k: K::V| holds(after, k) <==> (holds(entries, k) && k != key) by {
        if holds(entries, k) && k != key {
            let p = position(entries, k);
            let q = if p < at { p } else { p - 1 };
            assert(after[q].0@ == k);
        }
        if holds(after, k) {
            let q = position(after, k);
            let p = if q < at { q } else { q + 1 };
            assert(entries[p].0@ == k);
            if k == key {
                assert(entries[p].0@ == entries[at].0@);
            }
        }
    }
    assert forall|k: K::V| holds(after, k) implies as_map(after)[k] == as_map(entries)[k] by {
        let q = position(after, k);
        let p = if q < at { q } else { q + 1 };
        lemma_entry(after, q);
        lemma_entry(entries, p);
    }
    assert(as_map(after) =~= as_map(entries).remove(key));
}

/// The keys of the first `n` entries.
spec fn prefix<K: View, T>(entries: Seq<(K, T)>, n: int) -> Set<K::V> {
    Set::new(|k: K::V| exists|i: int| 0 <= i < n && #[trigger] entries[i].0@ == k)
}

proof fn lemma_prefix_step<K: View, T>(entries: Seq<(K, T)>, n: int)
    requires
        distinct(entries),
        0 <= n < entries.len(),
    ensures
        prefix(entries, n + 1) == prefix(entries, n).insert(entries[n].0@),
        !prefix(entries, n).contains(entries[n].0@),
{
    let key = entries[n].0@;
    assert forall|k: K::V|
        prefix(entries, n + 1).contains(k) <==> prefix(entries, n).insert(key).contains(k) by {
        if prefix(entries, n).contains(k) {
            let i = choose|i: int| 0 <= i < n && #[trigger] entries[i].0@ == k;
            assert(entries[i].0@ == k);
        }
        if k == key {
            assert(entries[n].0@ == k);
        }
    }
    assert(prefix(entries, n + 1) =~= prefix(entries, n).insert(key));
}

proof fn lemma_prefix_len<K: View, T>(entries: Seq<(K, T)>, n: int)
    requires
        distinct(entries),
        0 <= n <= entries.len(),
    ensures
        prefix(entries, n).finite(),
        prefix(entries, n).len() == n,
        n == entries.len() ==> prefix(entries, n) == as_map(entries).dom(),
    decreases n,
{
    if n == 0 {
        assert(prefix(entries, n) =~= Set::<K::V>::empty());
    } else {
        lemma_prefix_len(entries, n - 1);
        lemma_prefix_step(entries, n - 1);
    }
    if n == entries.len() {
        assert(prefix(entries, n) =~= as_map(entries).dom());
    }
}

/// The keys whose value satisfies `counted`.
pub open spec fn keys_where<A, T>(map: Map<A, T>, counted: spec_fn(T) -> bool) -> Set<A> {
    Set::new(|key: A| map.contains_key(key) && counted(map[key]))
}

/// One value per key, in insertion order.
#[verifier::reject_recursive_types(K)]
pub struct KeyedMap<K: Key, T> {
    entries: Vec<(K, T)>,
}

impl<K: Key, T> View for KeyedMap<K, T> {
    type V = Map<K::V, T>;

    closed spec fn view(&self) -> Map<K::V, T> {
        as_map(self.entries@)
    }
}

impl<K: Key, T> KeyedMap<K, T> {
    /// No two entries share a key.
    #[verifier::type_invariant]
    spec fn one_entry_per_key(self) -> bool {
        distinct(self.entries@)
    }

    pub fn new() -> (map: Self)
        ensures
            map@ == Map::<K::V, T>::empty(),
    {
        let map = KeyedMap { entries: Vec::new() };
        assert(map@ =~= Map::<K::V, T>::empty());
        map
    }

    fn find(entries: &Vec<(K, T)>, key: &K) -> (at: Option<usize>)
        ensures
            match at {
                Some(i) => i < entries@.len() && entries@[i as int].0@ == key@,
                None => !holds(entries@, key@),
            },
    {
        let mut i: usize = 0;
        while i < entries.len()
            invariant
                i <= entries@.len(),
                forall|j: int| 0 <= j < i ==> #[trigger] entries@[j].0@ != key@,
            decreases entries@.len() - i,
        {
            if entries[i].0.same(key) {
                return Some(i);
            }
            i += 1;
        }
        None
    }

    /// Store `value` under `key`, replacing what was there.
    pub fn insert(&mut self, key: K, value: T)
        ensures
            final(self)@ == old(self)@.insert(key@, value),
    {
        proof {
            use_type_invariant(&*self);
        }
        let mut entries: Vec<(K, T)> = Vec::new();
        std::mem::swap(&mut entries, &mut self.entries);
        let ghost before = entries@;
        let ghost entry = (key, value);
        match Self::find(&entries, &key) {
            Some(i) => {
                proof {
                    lemma_update(before, i as int, entry);
                }
                entries.set(i, (key, value));
            },
            None => {
                proof {
                    lemma_push(before, entry);
                }
                entries.push((key, value));
            },
        }
        self.entries = entries;
    }

    pub fn get(&self, key: &K) -> (value: Option<&T>)
        ensures
            match value {
                Some(held) => self@.contains_key(key@) && *held == self@[key@],
                None => !self@.contains_key(key@),
            },
    {
        proof {
            use_type_invariant(self);
        }
        match Self::find(&self.entries, key) {
            Some(i) => {
                proof {
                    lemma_entry(self.entries@, i as int);
                }
                Some(&self.entries[i].1)
            },
            None => None,
        }
    }

    pub fn contains_key(&self, key: &K) -> (held: bool)
        ensures
            held == self@.contains_key(key@),
    {
        self.get(key).is_some()
    }

    /// Take the value stored under `key` out of the map.
    pub fn remove(&mut self, key: &K) -> (value: Option<T>)
        ensures
            final(self)@ == old(self)@.remove(key@),
            match value {
                Some(taken) => old(self)@.contains_key(key@) && taken == old(self)@[key@],
                None => !old(self)@.contains_key(key@),
            },
    {
        proof {
            use_type_invariant(&*self);
        }
        let mut entries: Vec<(K, T)> = Vec::new();
        std::mem::swap(&mut entries, &mut self.entries);
        match Self::find(&entries, key) {
            Some(i) => {
                proof {
                    lemma_entry(entries@, i as int);
                    lemma_remove(entries@, i as int);
                }
                let entry = entries.remove(i);
                self.entries = entries;
                Some(entry.1)
            },
            None => {
                self.entries = entries;
                assert(self@ =~= old(self)@.remove(key@));
                None
            },
        }
    }

    pub fn clear(&mut self)
        ensures
            final(self)@ == Map::<K::V, T>::empty(),
    {
        self.entries = Vec::new();
        assert(self@ =~= Map::<K::V, T>::empty());
    }

    pub fn len(&self) -> (count: usize)
        ensures
            self@.dom().finite(),
            count == self@.dom().len(),
    {
        proof {
            use_type_invariant(self);
            lemma_prefix_len(self.entries@, self.entries@.len() as int);
        }
        self.entries.len()
    }

    /// Keep exactly the entries whose key satisfies `keep`, of which `kept` is
    /// the meaning.
    pub(crate) fn retain<F: Fn(&K) -> bool>(
        &mut self,
        keep: F,
        Ghost(kept): Ghost<spec_fn(K::V) -> bool>,
    )
        requires
            forall|key: K| keep.requires((&key,)),
            forall|key: K, answer: bool| keep.ensures((&key,), answer) ==> answer == kept(key@),
        ensures
            final(self)@ == old(self)@.restrict(Set::new(kept)),
    {
        proof {
            use_type_invariant(&*self);
        }
        let mut entries: Vec<(K, T)> = Vec::new();
        std::mem::swap(&mut entries, &mut self.entries);
        let ghost before = entries@;
        let mut i: usize = 0;
        while i < entries.len()
            invariant
                i <= entries@.len(),
                distinct(entries@),
                forall|key: K| keep.requires((&key,)),
                forall|key: K, answer: bool| keep.ensures((&key,), answer) ==> answer == kept(key@),
                forall|j: int| 0 <= j < i ==> kept(#[trigger] entries@[j].0@),
                forall|k: K::V| #[trigger] as_map(entries@).contains_key(k) ==> as_map(before).contains_key(k)
                    && as_map(entries@)[k] == as_map(before)[k],
                forall|k: K::V| as_map(before).contains_key(k) && kept(k)
                    ==> #[trigger] as_map(entries@).contains_key(k),
            decreases entries@.len() - i,
        {
            if keep(&entries[i].0) {
                i += 1;
            } else {
                proof {
                    lemma_remove(entries@, i as int);
                }
                entries.remove(i);
            }
        }
        proof {
            assert forall|k: K::V| #[trigger] as_map(entries@).contains_key(k) implies kept(k) by {
                assert(holds(entries@, k));
            }
            assert(as_map(entries@) =~= as_map(before).restrict(Set::new(kept)));
        }
        self.entries = entries;
    }

    /// How many stored values satisfy `counts`, of which `counted` is the
    /// meaning.
    pub(crate) fn count<F: Fn(&T) -> bool>(
        &self,
        counts: F,
        Ghost(counted): Ghost<spec_fn(T) -> bool>,
    ) -> (total: usize)
        requires
            forall|value: T| counts.requires((&value,)),
            forall|value: T, answer: bool| counts.ensures((&value,), answer) ==> answer == counted(value),
        ensures
            keys_where(self@, counted).finite(),
            total == keys_where(self@, counted).len(),
    {
        proof {
            use_type_invariant(self);
        }
        let entries = &self.entries;
        let ghost chosen = keys_where(self@, counted);
        let mut total: usize = 0;
        let mut i: usize = 0;
        assert(prefix(entries@, 0).intersect(chosen) =~= Set::<K::V>::empty());
        while i < entries.len()
            invariant
                i <= entries@.len(),
                total <= i,
                distinct(entries@),
                chosen == keys_where(as_map(entries@), counted),
                forall|value: T| counts.requires((&value,)),
                forall|value: T, answer: bool| counts.ensures((&value,), answer) ==> answer == counted(value),
                prefix(entries@, i as int).intersect(chosen).finite(),
                total == prefix(entries@, i as int).intersect(chosen).len(),
            decreases entries@.len() - i,
        {
            let ghost key = entries@[i as int].0@;
            let ghost seen = prefix(entries@, i as int).intersect(chosen);
            proof {
                lemma_entry(entries@, i as int);
                lemma_prefix_step(entries@, i as int);
            }
            if counts(&entries[i].1) {
                total += 1;
                assert(prefix(entries@, i + 1).intersect(chosen) =~= seen.insert(key));
            } else {
                assert(prefix(entries@, i + 1).intersect(chosen) =~= seen);
            }
            i += 1;
        }
        proof {
            lemma_prefix_len(entries@, i as int);
            assert(prefix(entries@, i as int).intersect(chosen) =~= chosen);
        }
        total
    }
}

impl<T> KeyedMap<String, T> {
    /// What is stored under the key that reads `key`.
    pub fn get_text(&self, key: &str) -> (value: Option<&T>)
        ensures
            match value {
                Some(held) => self@.contains_key(key@) && *held == self@[key@],
                None => !self@.contains_key(key@),
            },
    {
        self.get(&key.to_owned())
    }
}

/// A set of keys.
#[verifier::reject_recursive_types(K)]
pub struct KeyedSet<K: Key> {
    map: KeyedMap<K, ()>,
}

impl<K: Key> View for KeyedSet<K> {
    type V = Set<K::V>;

    closed spec fn view(&self) -> Set<K::V> {
        self.map@.dom()
    }
}

impl<K: Key> KeyedSet<K> {
    pub fn new() -> (set: Self)
        ensures
            set@ == Set::<K::V>::empty(),
    {
        let set = KeyedSet { map: KeyedMap::new() };
        assert(set@ =~= Set::<K::V>::empty());
        set
    }

    pub fn insert(&mut self, key: K)
        ensures
            final(self)@ == old(self)@.insert(key@),
    {
        self.map.insert(key, ());
        assert(self@ =~= old(self)@.insert(key@));
    }

    pub fn remove(&mut self, key: &K)
        ensures
            final(self)@ == old(self)@.remove(key@),
    {
        self.map.remove(key);
        assert(self@ =~= old(self)@.remove(key@));
    }

    pub fn contains(&self, key: &K) -> (held: bool)
        ensures
            held == self@.contains(key@),
    {
        self.map.contains_key(key)
    }

    pub fn clear(&mut self)
        ensures
            final(self)@ == Set::<K::V>::empty(),
    {
        self.map.clear();
        assert(self@ =~= Set::<K::V>::empty());
    }

    pub fn len(&self) -> (count: usize)
        ensures
            self@.finite(),
            count == self@.len(),
    {
        self.map.len()
    }
}

} // verus!
