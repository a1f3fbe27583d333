use crate::text::same_text;
use vstd::std_specs::vec::*;
use vstd::prelude::*;

verus! {

/// A table from text keys to values, each key present at most once.
#[derive(Debug)]
pub struct Table<V> {
    entries: Vec<(String, V)>,
}

/// The map that a list of entries with distinct keys denotes.
pub open spec fn entries_map<V>(entries: Seq<(String, V)>) -> Map<Seq<char>, V>
    decreases entries.len(),
{
    if entries.len() == 0 {
        Map::empty()
    } else {
        entries_map(entries.drop_last()).insert(entries.last().0@, entries.last().1)
    }
}

/// Whether no two entries share a key.
pub open spec fn distinct_keys<V>(entries: Seq<(String, V)>) -> bool {
    forall|i: int, j: int|
        0 <= i < entries.len() && 0 <= j < entries.len() && i != j ==> #[trigger] entries[i].0@
            != #[trigger] entries[j].0@
}

proof fn lemma_entries_map_keys<V>(entries: Seq<(String, V)>)
    ensures
        forall|k: Seq<char>|
            #[trigger] entries_map(entries).contains_key(k) <==> exists|i: int|
                0 <= i < entries.len() && #[trigger] entries[i].0@ == k,
    decreases entries.len(),
{
    if entries.len() > 0 {
        lemma_entries_map_keys(entries.drop_last());
        let init = entries.drop_last();
        assert forall|k: Seq<char>|
            #[trigger] entries_map(entries).contains_key(k) <==> exists|i: int|
                0 <= i < entries.len() && #[trigger] entries[i].0@ == k by {
            assert(entries_map(entries) == entries_map(init).insert(entries.last().0@, entries.last().1));
            if entries_map(entries).contains_key(k) && k != entries.last().0@ {
                assert(entries_map(init).contains_key(k));
                let i = choose|i: int| 0 <= i < init.len() && #[trigger] init[i].0@ == k;
                assert(entries[i].0@ == k);
            }
            if exists|i: int| 0 <= i < entries.len() && #[trigger] entries[i].0@ == k {
                let i = choose|i: int| 0 <= i < entries.len() && #[trigger] entries[i].0@ == k;
                if i < entries.len() - 1 {
                    assert(init[i].0@ == k);
                    assert(entries_map(init).contains_key(k));
                }
            }
        }
    }
}

proof fn lemma_entries_map_value<V>(entries: Seq<(String, V)>, i: int)
    requires
        distinct_keys(entries),
        0 <= i < entries.len(),
    ensures
        entries_map(entries).contains_key(entries[i].0@),
        entries_map(entries)[entries[i].0@] == entries[i].1,
    decreases entries.len(),
{
    let init = entries.drop_last();
    if i < entries.len() - 1 {
        assert(distinct_keys(init)) by {
            assert forall|a: int, b: int|
                0 <= a < init.len() && 0 <= b < init.len() && a != b implies #[trigger] init[a].0@
                    != #[trigger] init[b].0@ by {
                assert(init[a] == entries[a] && init[b] == entries[b]);
            }
        }
        lemma_entries_map_value(init, i);
        assert(init[i] == entries[i]);
        assert(entries[i].0@ != entries[entries.len() - 1].0@);
    }
}

impl<V> View for Table<V> {
    type V = Map<Seq<char>, V>;

    closed spec fn view(&self) -> Map<Seq<char>, V> {
        entries_map(self.entries@)
    }
}

impl<V> Table<V> {
    #[verifier::type_invariant]
    closed spec fn keys_distinct(&self) -> bool {
        distinct_keys(self.entries@)
    }

    pub fn new() -> (r: Self)
        ensures
            r@ == Map::<Seq<char>, V>::empty(),
    {
        Table { entries: Vec::new() }
    }

    fn position(&self, key: &str) -> (r: Option<usize>)
        ensures
            r matches Some(i) ==> i < self.entries@.len() && self.entries@[i as int].0@ == key@,
            r is None ==> forall|i: int| 0 <= i < self.entries@.len() ==> #[trigger] self.entries@[i].0@ != key@,
    {
        let mut i: usize = 0;
        while i < self.entries.len()
            invariant
                i <= self.entries@.len(),
                forall|j: int| 0 <= j < i ==> #[trigger] self.entries@[j].0@ != key@,
            decreases self.entries@.len() - i,
        {
            if same_text(self.entries[i].0.as_str(), key) {
                return Some(i);
            }
            i = i + 1;
        }
        None
    }

    /// Every entry, each key once.
    pub fn entries(&self) -> (r: &[(String, V)])
        ensures
            entries_map(r@) == self@,
            distinct_keys(r@),
    {
        proof {
            use_type_invariant(self);
        }
        self.entries.as_slice()
    }

    /// Takes the entries out, each key once.
    pub fn into_entries(self) -> (r: Vec<(String, V)>)
        ensures
            entries_map(r@) == self@,
            distinct_keys(r@),
    {
        proof {
            use_type_invariant(&self);
        }
        self.entries
    }

    /// The value stored under `key`.
    pub fn get(&self, key: &str) -> (r: Option<&V>)
        ensures
            self@.contains_key(key@) ==> r == Some(&self@[key@]),
            !self@.contains_key(key@) ==> r is None,
    {
        proof {
            use_type_invariant(self);
            lemma_entries_map_keys(self.entries@);
        }
        match self.position(key) {
            Some(i) => {
                proof {
                    lemma_entries_map_value(self.entries@, i as int);
                }
                Some(&self.entries[i].1)
            },
            None => None,
        }
    }

    /// Stores `value` under `key`, replacing what was there.
    pub fn insert(&mut self, key: String, value: V)
        ensures
            final(self)@ == old(self)@.insert(key@, value),
    {
        proof {
            use_type_invariant(&*self);
        }
        let found = self.position(key.as_str());
        let ghost old_entries = self.entries@;
        let mut entries: Vec<(String, V)> = Vec::new();
        std::mem::swap(&mut entries, &mut self.entries);
        let ghost k = key@;
        match found {
            Some(i) => {
                entries.set(i, (key, value));
                proof {
                    assert forall|a: int, b: int|
                        0 <= a < entries@.len() && 0 <= b < entries@.len() && a != b implies #[trigger] entries@[a].0@
                            != #[trigger] entries@[b].0@ by {
                        assert(a != i ==> entries@[a] == old_entries[a]);
                        assert(b != i ==> entries@[b] == old_entries[b]);
                    }
                }
            },
            None => {
                entries.push((key, value));
                proof {
                    assert forall|a: int, b: int|
                        0 <= a < entries@.len() && 0 <= b < entries@.len() && a != b implies #[trigger] entries@[a].0@
                            != #[trigger] entries@[b].0@ by {
                        assert(a < old_entries.len() ==> entries@[a] == old_entries[a]);
                        assert(b < old_entries.len() ==> entries@[b] == old_entries[b]);
                    }
                }
            },
        }
        proof {
            lemma_entries_map_keys(old_entries);
            lemma_entries_map_keys(entries@);
            let m_old = entries_map(old_entries);
            let m_new = entries_map(entries@);
            let expect = m_old.insert(k, value);
            assert forall|q: Seq<char>| #[trigger] m_new.contains_key(q) == expect.contains_key(q) by {
                if m_new.contains_key(q) {
                    let j = choose|j: int| 0 <= j < entries@.len() && #[trigger] entries@[j].0@ == q;
                    if q != k {
                        assert(j < old_entries.len() && entries@[j] == old_entries[j]);
                    }
                }
                if m_old.contains_key(q) && q != k {
                    let j = choose|j: int| 0 <= j < old_entries.len() && #[trigger] old_entries[j].0@ == q;
                    assert(entries@[j] == old_entries[j]);
                }
                if q == k {
                    match found {
                        Some(i) => assert(entries@[i as int].0@ == k),
                        None => assert(entries@[old_entries.len() as int].0@ == k),
                    }
                }
            }
            assert forall|q: Seq<char>| #[trigger] m_new.contains_key(q) implies m_new[q] == expect[q] by {
                let j = choose|j: int| 0 <= j < entries@.len() && #[trigger] entries@[j].0@ == q;
                lemma_entries_map_value(entries@, j);
                if q != k {
                    assert(j < old_entries.len() && entries@[j] == old_entries[j]);
                    lemma_entries_map_value(old_entries, j);
                }
            }
            assert(m_new =~= expect);
        }
        *self = Table { entries };
    }
}

} // verus!
