use vstd::prelude::*;

verus! {

/// No station identifier occurs twice among `entries`.
pub open spec fn keys_distinct<V>(entries: Seq<(String, V)>) -> bool {
    forall|i: int, j: int|
        0 <= i < entries.len() && 0 <= j < entries.len() && i != j ==> entries[i].0@ != entries[j].0@
}

spec fn has_key_at<V>(entries: Seq<(String, V)>, k: Seq<char>, i: int) -> bool {
    0 <= i < entries.len() && entries[i].0@ == k
}

/// The stations of `entries` and the value each is paired with.
pub closed spec fn entries_contents<V>(entries: Seq<(String, V)>) -> Map<Seq<char>, V> {
    Map::new(
        |k: Seq<char>| exists|i: int| has_key_at(entries, k, i),
        |k: Seq<char>| entries[choose|i: int| has_key_at(entries, k, i)].1,
    )
}

proof fn lemma_entry<V>(entries: Seq<(String, V)>, i: int)
    requires
        keys_distinct(entries),
        0 <= i < entries.len(),
    ensures
        entries_contents(entries).dom().contains(entries[i].0@),
        entries_contents(entries)[entries[i].0@] == entries[i].1,
{
    let k = entries[i].0@;
    assert(has_key_at(entries, k, i));
    let j = choose|j: int| has_key_at(entries, k, j);
    assert(has_key_at(entries, k, j));
}

/// Replacing the value at a key's position, or appending a new key, gives
/// the map with that key updated.
proof fn lemma_update<V>(
    before: Seq<(String, V)>,
    after: Seq<(String, V)>,
    pos: int,
    k: Seq<char>,
    value: V,
)
    requires
        keys_distinct(before),
        0 <= pos <= before.len(),
        pos < before.len() ==> before[pos].0@ == k && after == before.update(pos, after[pos]),
        pos == before.len() ==> !entries_contents(before).dom().contains(k) && after.len()
            == before.len() + 1 && after.subrange(0, before.len() as int) == before,
        after[pos].0@ == k,
        after[pos].1 == value,
    ensures
        keys_distinct(after),
        entries_contents(after) == entries_contents(before).insert(k, value),
{
    let n = before.len() as int;
    assert forall|j: int| 0 <= j < after.len() && j != pos implies after[j] == before[j] by {
        if pos == n {
            assert(after.subrange(0, n)[j] == after[j]);
        }
    }
    if pos == n {
        assert forall|j: int| 0 <= j < n implies before[j].0@ != k by {
            if before[j].0@ == k {
                assert(has_key_at(before, k, j));
            }
        }
    }
    assert(keys_distinct(after));
    assert forall|kk: Seq<char>| #[trigger]
        entries_contents(after).dom().contains(kk) implies entries_contents(before).insert(
        k,
        value,
    ).dom().contains(kk) by {
        let j = choose|j: int| has_key_at(after, kk, j);
        if j != pos {
            assert(has_key_at(before, kk, j));
        }
    }
    assert forall|kk: Seq<char>| #[trigger]
        entries_contents(before).insert(k, value).dom().contains(kk) implies entries_contents(
        after,
    ).dom().contains(kk) by {
        if kk == k {
            assert(has_key_at(after, kk, pos));
        } else {
            let j = choose|j: int| has_key_at(before, kk, j);
            assert(has_key_at(after, kk, j));
        }
    }
    assert forall|kk: Seq<char>| #[trigger]
        entries_contents(after).dom().contains(kk) implies entries_contents(after)[kk]
        == entries_contents(before).insert(k, value)[kk] by {
        let j = choose|j: int| has_key_at(after, kk, j);
        lemma_entry(after, j);
        if j != pos {
            lemma_entry(before, j);
        }
    }
    assert(entries_contents(after) =~= entries_contents(before).insert(k, value));
}

/// A small map from station identifiers to values, kept as a vector of
/// pairs in which no station occurs twice.
pub struct StationMap<V> {
    entries: Vec<(String, V)>,
}

impl<V> StationMap<V> {
    #[verifier::type_invariant]
    spec fn wf(&self) -> bool {
        keys_distinct(self.entries@)
    }

    /// The stations and their values.
    pub closed spec fn contents(&self) -> Map<Seq<char>, V> {
        entries_contents(self.entries@)
    }

    /// An empty map.
    pub fn new() -> (m: Self)
        ensures
            m.contents() == Map::<Seq<char>, V>::empty(),
    {
        let m = StationMap { entries: Vec::new() };
        assert(m.contents() =~= Map::<Seq<char>, V>::empty());
        m
    }

    fn find(&self, key: &String) -> (r: Option<usize>)
        ensures
            match r {
                Some(i) => i < self.entries.len() && self.entries[i as int].0@ == key@,
                None => !self.contents().dom().contains(key@),
            },
    {
        let mut i: usize = 0;
        while i < self.entries.len()
            invariant
                i <= self.entries.len(),
                forall|j: int| 0 <= j < i ==> self.entries[j].0@ != key@,
            decreases self.entries.len() - i,
        {
            if self.entries[i].0 == *key {
                return Some(i);
            }
            i = i + 1;
        }
        None
    }

    /// The value held for `key`, if any.
    pub fn get(&self, key: &String) -> (r: Option<&V>)
        ensures
            match r {
                Some(v) => self.contents().dom().contains(key@) && self.contents()[key@] == *v,
                None => !self.contents().dom().contains(key@),
            },
    {
        proof {
            use_type_invariant(self);
        }
        match self.find(key) {
            Some(i) => {
                proof {
                    lemma_entry(self.entries@, i as int);
                }
                Some(&self.entries[i].1)
            },
            None => None,
        }
    }

    /// Holds `value` for `key`, replacing what was held for it before.
    pub fn insert(&mut self, key: String, value: V)
        ensures
            final(self).contents() == old(self).contents().insert(key@, value),
    {
        proof {
            use_type_invariant(&*self);
        }
        let ghost k = key@;
        let ghost before = self.entries@;
        let found = self.find(&key);
        let mut entries: Vec<(String, V)> = Vec::new();
        std::mem::swap(&mut entries, &mut self.entries);
        let ghost pos: int;
        match found {
            Some(i) => {
                entries.set(i, (key, value));
                proof {
                    pos = i as int;
                }
            },
            None => {
                entries.push((key, value));
                proof {
                    pos = before.len() as int;
                    assert(entries@.subrange(0, before.len() as int) =~= before);
                }
            },
        }
        proof {
            lemma_update(before, entries@, pos, k, value);
        }
        *self = StationMap { entries };
    }
}

} // verus!
