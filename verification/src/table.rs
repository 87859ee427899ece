//! A small map from keys that can be compared to values.
use vstd::prelude::*;

verus! {

/// A key that can be compared to another one.
pub trait TableKey: View + Sized {
    /// Whether two keys are the same.
    fn same(&self, other: &Self) -> (b: bool)
        ensures
            b == (self@ == other@),
    ;
}

/// A map that holds each key at most once.
pub struct Table<K: TableKey, T> {
    entries: Vec<(K, T)>,
}

/// Whether no key occurs twice.
spec fn distinct<K: TableKey, T>(entries: Seq<(K, T)>) -> bool {
    forall|i: int, j: int|
        #![trigger entries[i], entries[j]]
        0 <= i < j < entries.len() ==> entries[i].0@ != entries[j].0@
}

/// Whether a key occurs at a place.
spec fn occurs<K: TableKey, T>(entries: Seq<(K, T)>, key: K::V, i: int) -> bool {
    0 <= i < entries.len() && entries[i].0@ == key
}

/// The map that a sequence of entries stands for.
spec fn as_map<K: TableKey, T>(entries: Seq<(K, T)>) -> Map<K::V, T>
    decreases entries.len(),
{
    if entries.len() == 0 {
        Map::empty()
    } else {
        as_map(entries.drop_last()).insert(entries.last().0@, entries.last().1)
    }
}

proof fn lemma_as_map<K: TableKey, T>(entries: Seq<(K, T)>)
    requires
        distinct(entries),
    ensures
        as_map(entries).dom().finite(),
        as_map(entries).len() == entries.len(),
        forall|i: int|
            0 <= i < entries.len() ==> as_map(entries).contains_key(
                (#[trigger] entries[i]).0@,
            ) && as_map(entries)[entries[i].0@] == entries[i].1,
        forall|key: K::V|
            as_map(entries).contains_key(key) ==> exists|i: int| #[trigger]
                occurs(entries, key, i),
    decreases entries.len(),
{
    if entries.len() > 0 {
        let init = entries.drop_last();
        let key = entries.last().0@;
        assert forall|i: int, j: int|
            #![trigger init[i], init[j]]
            0 <= i < j < init.len() implies init[i].0@ != init[j].0@ by {
            assert(init[i] == entries[i] && init[j] == entries[j]);
        }
        lemma_as_map(init);
        assert(!as_map(init).contains_key(key)) by {
            if as_map(init).contains_key(key) {
                let i = choose|i: int| occurs(init, key, i);
                assert(init[i] == entries[i]);
                assert(entries[i].0@ != entries[entries.len() - 1].0@);
            }
        }
        assert forall|i: int| 0 <= i < entries.len() implies as_map(entries).contains_key(
            (#[trigger] entries[i]).0@,
        ) && as_map(entries)[entries[i].0@] == entries[i].1 by {
            if i < init.len() {
                assert(init[i] == entries[i]);
            }
        }
        assert forall|k: K::V| as_map(entries).contains_key(k) implies exists|i: int| #[trigger]
            occurs(entries, k, i) by {
            if k == key {
                assert(occurs(entries, k, entries.len() - 1));
            } else {
                assert(as_map(init).contains_key(k));
                let i = choose|i: int| occurs(init, k, i);
                assert(init[i] == entries[i]);
                assert(occurs(entries, k, i));
            }
        }
    }
}

impl<K: TableKey, T> View for Table<K, T> {
    type V = Map<K::V, T>;

    closed spec fn view(&self) -> Map<K::V, T> {
        as_map(self.entries@)
    }
}

impl<K: TableKey, T> Table<K, T> {
    #[verifier::type_invariant]
    spec fn well_formed(self) -> bool {
        distinct(self.entries@)
    }

    /// Creates an empty table.
    pub fn new() -> (table: Self)
        ensures
            table@ == Map::<K::V, T>::empty(),
    {
        Table { entries: Vec::new() }
    }

    /// The number of entries.
    pub fn len(&self) -> (n: usize)
        ensures
            n == self@.len(),
            self@.dom().finite(),
    {
        proof {
            use_type_invariant(self);
            lemma_as_map(self.entries@);
        }
        self.entries.len()
    }

    /// The place of a key.
    fn position(&self, key: &K) -> (r: Option<usize>)
        ensures
            match r {
                Some(i) => occurs(self.entries@, key@, i as int) && self@.contains_key(key@),
                None => !self@.contains_key(key@),
            },
    {
        proof {
            use_type_invariant(self);
            lemma_as_map(self.entries@);
        }
        let mut i: usize = 0;
        while i < self.entries.len()
            invariant
                i <= self.entries.len(),
                distinct(self.entries@),
                forall|j: int| 0 <= j < i ==> (#[trigger] self.entries[j]).0@ != key@,
            decreases self.entries.len() - i,
        {
            if self.entries[i].0.same(key) {
                proof {
                    lemma_as_map(self.entries@);
                    assert(self.entries@[i as int].0@ == key@);
                }
                return Some(i);
            }
            i += 1;
        }
        proof {
            if self@.contains_key(key@) {
                let j = choose|j: int| occurs(self.entries@, key@, j);
                assert(self.entries[j].0@ == key@);
            }
        }
        None
    }

    /// Whether a key is in the table.
    pub fn contains_key(&self, key: &K) -> (b: bool)
        ensures
            b == self@.contains_key(key@),
    {
        self.position(key).is_some()
    }

    /// The value of a key.
    pub fn get(&self, key: &K) -> (r: Option<&T>)
        ensures
            match r {
                Some(value) => self@.contains_key(key@) && *value == self@[key@],
                None => !self@.contains_key(key@),
            },
    {
        match self.position(key) {
            Some(i) => {
                proof {
                    use_type_invariant(self);
                    lemma_as_map(self.entries@);
                    assert(self.entries@[i as int].0@ == key@);
                }
                Some(&self.entries[i].1)
            },
            None => None,
        }
    }

    /// Takes a key and its value out of the table.
    pub fn remove(&mut self, key: &K) -> (r: Option<T>)
        ensures
            final(self)@ == old(self)@.remove(key@),
            match r {
                Some(value) => old(self)@.contains_key(key@) && value == old(self)@[key@],
                None => !old(self)@.contains_key(key@),
            },
    {
        proof {
            use_type_invariant(&*self);
            lemma_as_map(self.entries@);
        }
        match self.position(key) {
            Some(i) => {
                let ghost before = self.entries@;
                let mut entries: Vec<(K, T)> = Vec::new();
                std::mem::swap(&mut entries, &mut self.entries);
                let (_, value) = entries.remove(i);
                proof {
                    lemma_removed(before, i as int);
                }
                self.entries = entries;
                Some(value)
            },
            None => {
                proof {
                    assert(self@.remove(key@) =~= self@);
                }
                None
            },
        }
    }

    /// Puts a key with a value into the table, in place of the value it had there.
    pub fn insert(&mut self, key: K, value: T) -> (r: Option<T>)
        ensures
            final(self)@ == old(self)@.insert(key@, value),
            match r {
                Some(former) => old(self)@.contains_key(key@) && former == old(self)@[key@],
                None => !old(self)@.contains_key(key@),
            },
    {
        let former = self.remove(&key);
        proof {
            use_type_invariant(&*self);
            lemma_as_map(self.entries@);
            lemma_pushed(self.entries@, (key, value));
        }
        let mut entries: Vec<(K, T)> = Vec::new();
        std::mem::swap(&mut entries, &mut self.entries);
        entries.push((key, value));
        self.entries = entries;
        proof {
            assert(self@ =~= old(self)@.insert(key@, value));
        }
        former
    }
}

proof fn lemma_pushed<K: TableKey, T>(entries: Seq<(K, T)>, entry: (K, T))
    requires
        distinct(entries),
        !as_map(entries).contains_key(entry.0@),
    ensures
        distinct(entries.push(entry)),
        as_map(entries.push(entry)) == as_map(entries).insert(entry.0@, entry.1),
{
    lemma_as_map(entries);
    let after = entries.push(entry);
    assert(after.drop_last() =~= entries);
    assert forall|i: int, j: int|
        #![trigger after[i], after[j]]
        0 <= i < j < after.len() implies after[i].0@ != after[j].0@ by {
        assert(after[i] == entries[i]);
        if j < entries.len() {
            assert(after[j] == entries[j]);
        } else {
            assert(as_map(entries).contains_key(entries[i].0@));
        }
    }
}

proof fn lemma_removed<K: TableKey, T>(entries: Seq<(K, T)>, at: int)
    requires
        distinct(entries),
        0 <= at < entries.len(),
    ensures
        distinct(entries.remove(at)),
        as_map(entries.remove(at)) == as_map(entries).remove(entries[at].0@),
    decreases entries.len(),
{
    let after = entries.remove(at);
    let key = entries[at].0@;
    assert forall|i: int, j: int|
        #![trigger after[i], after[j]]
        0 <= i < j < after.len() implies after[i].0@ != after[j].0@ by {
        let i0 = if i < at { i } else { i + 1 };
        let j0 = if j < at { j } else { j + 1 };
        assert(after[i] == entries[i0] && after[j] == entries[j0]);
    }
    lemma_as_map(entries);
    lemma_as_map(after);
    let m = as_map(after);
    let n = as_map(entries).remove(key);
    assert forall|k: K::V| m.contains_key(k) implies n.contains_key(k) && m[k] == n[k] by {
        let i = choose|i: int| occurs(after, k, i);
        let i0 = if i < at { i } else { i + 1 };
        assert(after[i] == entries[i0]);
        if i0 < at {
            assert(entries[i0].0@ != entries[at].0@);
        } else {
            assert(entries[at].0@ != entries[i0].0@);
        }
    }
    assert forall|k: K::V| n.contains_key(k) implies m.contains_key(k) by {
        let i0 = choose|i: int| occurs(entries, k, i);
        let i = if i0 < at { i0 } else { i0 - 1 };
        assert(after[i] == entries[i0]);
    }
    assert(m =~= n);
}

} // verus!
