//! A table of values keyed by view name, each name at most once.
use vstd::prelude::*;
use crate::engine::ViewId;

verus! {

/// The names of the entries, in order.
pub open spec fn entry_keys<T>(s: Seq<(ViewId, T)>) -> Seq<Seq<char>> {
    s.map_values(|e: (ViewId, T)| e.0@)
}

/// The entries as a map from view name to value.
pub open spec fn entry_map<T>(s: Seq<(ViewId, T)>) -> Map<Seq<char>, T> {
    Map::new(
        |k: Seq<char>| entry_keys(s).contains(k),
        |k: Seq<char>| s[entry_keys(s).index_of(k)].1,
    )
}

/// With distinct names, the entry at `i` is the one the map finds for its name.
proof fn lemma_index_of_unique<T>(s: Seq<(ViewId, T)>, i: int)
    requires
        entry_keys(s).no_duplicates(),
        0 <= i < s.len(),
    ensures
        entry_keys(s).contains(s[i].0@),
        entry_keys(s).index_of(s[i].0@) == i,
{
    let ks = entry_keys(s);
    assert(ks[i] == s[i].0@);
    let j = ks.index_of(s[i].0@);
    assert(ks[j] == ks[i]);
}

/// Appending an entry with a new name inserts it into the map.
proof fn lemma_map_push<T>(s: Seq<(ViewId, T)>, e: (ViewId, T))
    requires
        entry_keys(s).no_duplicates(),
        !entry_keys(s).contains(e.0@),
    ensures
        entry_keys(s.push(e)).no_duplicates(),
        entry_map(s.push(e)) == entry_map(s).insert(e.0@, e.1),
{
    let t = s.push(e);
    let ks = entry_keys(s);
    let kt = entry_keys(t);
    assert(kt =~= ks.push(e.0@));
    assert forall|a: int, b: int| 0 <= a < t.len() && 0 <= b < t.len() && a != b implies kt[a] != kt[b] by {
        if a < s.len() && b < s.len() {
            assert(kt[a] == ks[a]);
            assert(kt[b] == ks[b]);
        } else if a < s.len() {
            assert(kt[a] == ks[a]);
        } else {
            assert(kt[b] == ks[b]);
        }
    }
    let m = entry_map(s).insert(e.0@, e.1);
    assert forall|k: Seq<char>| #[trigger] entry_map(t).contains_key(k) == m.contains_key(k) by {
        if ks.contains(k) {
            let i = ks.index_of(k);
            assert(kt[i] == k);
        }
        if kt.contains(k) && k != e.0@ {
            let i = kt.index_of(k);
            assert(i < s.len());
            assert(ks[i] == k);
        }
        assert(kt[s.len() as int] == e.0@);
    }
    assert forall|k: Seq<char>| entry_map(t).contains_key(k) implies #[trigger] entry_map(t)[k] == m[k] by {
        if k == e.0@ {
            lemma_index_of_unique(t, s.len() as int);
        } else {
            let i = kt.index_of(k);
            assert(i < s.len());
            assert(s[i].0@ == k);
            lemma_index_of_unique(s, i);
            lemma_index_of_unique(t, i);
        }
    }
    assert(entry_map(t) =~= m);
}

/// Removing the entry at `i` removes its name from the map.
proof fn lemma_map_remove<T>(s: Seq<(ViewId, T)>, i: int)
    requires
        entry_keys(s).no_duplicates(),
        0 <= i < s.len(),
    ensures
        entry_keys(s.remove(i)).no_duplicates(),
        entry_map(s.remove(i)) == entry_map(s).remove(s[i].0@),
{
    let t = s.remove(i);
    let ks = entry_keys(s);
    let kt = entry_keys(t);
    assert(kt =~= ks.remove(i));
    assert forall|a: int, b: int| 0 <= a < t.len() && 0 <= b < t.len() && a != b implies kt[a] != kt[b] by {
        let sa = if a < i { a } else { a + 1 };
        let sb = if b < i { b } else { b + 1 };
        assert(kt[a] == ks[sa]);
        assert(kt[b] == ks[sb]);
    }
    let key = s[i].0@;
    assert forall|k: Seq<char>| #[trigger] entry_map(t).contains_key(k) == entry_map(s).remove(key).contains_key(k) by {
        if kt.contains(k) {
            let a = kt.index_of(k);
            let sa = if a < i { a } else { a + 1 };
            assert(ks[sa] == k);
            assert(ks[i] == key);
        }
        if ks.contains(k) && k != key {
            let a = ks.index_of(k);
            assert(a != i);
            let ta = if a < i { a } else { a - 1 };
            assert(kt[ta] == k);
        }
    }
    assert forall|k: Seq<char>| entry_map(t).contains_key(k) implies #[trigger] entry_map(t)[k] == entry_map(s).remove(key)[k] by {
        let a = kt.index_of(k);
        let sa = if a < i { a } else { a + 1 };
        assert(t[a] == s[sa]);
        lemma_index_of_unique(t, a);
        lemma_index_of_unique(s, sa);
    }
    assert(entry_map(t) =~= entry_map(s).remove(key));
}

/// Values keyed by view name.
pub struct ViewTable<T> {
    entries: Vec<(ViewId, T)>,
}

impl<T> ViewTable<T> {
    #[verifier::type_invariant]
    spec fn distinct_names(&self) -> bool {
        entry_keys(self.entries@).no_duplicates()
    }

    /// The values by name.
    pub closed spec fn map(&self) -> Map<Seq<char>, T> {
        entry_map(self.entries@)
    }

    /// An empty table.
    pub fn new() -> (t: Self)
        ensures
            t.map() == Map::<Seq<char>, T>::empty(),
    {
        let t = ViewTable { entries: Vec::new() };
        assert(t.map() =~= Map::<Seq<char>, T>::empty());
        t
    }

    fn find(&self, name: &String) -> (r: Option<usize>)
        ensures
            r is None <==> !self.map().contains_key(name@),
            r matches Some(i) ==> i < self.entries@.len() && self.entries@[i as int].0@ == name@
                && self.map()[name@] == self.entries@[i as int].1,
    {
        proof {
            use_type_invariant(self);
        }
        let mut i: usize = 0;
        while i < self.entries.len()
            invariant
                i <= self.entries@.len(),
                entry_keys(self.entries@).no_duplicates(),
                forall|j: int| 0 <= j < i ==> self.entries@[j].0@ != name@,
            decreases self.entries@.len() - i,
        {
            if self.entries[i].0.has_name(name) {
                proof {
                    lemma_index_of_unique(self.entries@, i as int);
                }
                return Some(i);
            }
            i = i + 1;
        }
        proof {
            if entry_keys(self.entries@).contains(name@) {
                let k = entry_keys(self.entries@).index_of(name@);
                assert(self.entries@[k].0@ == name@);
            }
        }
        None
    }

    /// Whether a value is stored under `id`.
    pub fn contains(&self, id: &str) -> (r: bool)
        ensures
            r == self.map().contains_key(id@),
    {
        self.find(&id.to_owned()).is_some()
    }

    /// The value stored under `id`, if any.
    pub fn get(&self, id: &str) -> (r: Option<&T>)
        ensures
            r is None <==> !self.map().contains_key(id@),
            r matches Some(v) ==> *v == self.map()[id@],
    {
        match self.find(&id.to_owned()) {
            None => None,
            Some(i) => Some(&self.entries[i].1),
        }
    }

    /// Takes out the value stored under `id`, if any.
    pub fn remove(&mut self, id: &str) -> (r: Option<T>)
        ensures
            r is None <==> !old(self).map().contains_key(id@),
            r matches Some(v) ==> v == old(self).map()[id@],
            final(self).map() == old(self).map().remove(id@),
    {
        match self.find(&id.to_owned()) {
            None => {
                assert(self.map().remove(id@) =~= self.map());
                None
            },
            Some(i) => {
                proof {
                    use_type_invariant(&*self);
                    lemma_map_remove(self.entries@, i as int);
                }
                let mut entries = Vec::new();
                std::mem::swap(&mut entries, &mut self.entries);
                let (_key, value) = entries.remove(i);
                self.entries = entries;
                Some(value)
            },
        }
    }

    /// Stores `value` under `id`, replacing any value stored there.
    pub fn insert(&mut self, id: &str, value: T)
        ensures
            final(self).map() == old(self).map().insert(id@, value),
    {
        let _previous = self.remove(id);
        proof {
            use_type_invariant(&*self);
            assert(!entry_keys(self.entries@).contains(id@)) by {
                assert(!self.map().contains_key(id@));
            }
        }
        let entry = (ViewId::new(id.to_owned()), value);
        proof {
            lemma_map_push(self.entries@, entry);
            assert(old(self).map().remove(id@).insert(id@, value) =~= old(self).map().insert(id@, value));
        }
        let mut entries = Vec::new();
        std::mem::swap(&mut entries, &mut self.entries);
        entries.push(entry);
        self.entries = entries;
    }

    /// The number of stored values.
    pub fn len(&self) -> (n: usize)
        ensures
            n == self.map().len(),
    {
        proof {
            use_type_invariant(self);
            entry_keys(self.entries@).unique_seq_to_set();
            assert(self.map().dom() =~= entry_keys(self.entries@).to_set());
        }
        self.entries.len()
    }

    /// The names under which values are stored, each once.
    pub fn keys(&self) -> (ids: Vec<String>)
        ensures
            ids@.len() == self.map().len(),
            forall|i: int| 0 <= i < ids@.len() ==> #[trigger] self.map().contains_key(ids@[i]@),
            forall|k: Seq<char>| #[trigger] self.map().contains_key(k) ==> exists|i: int| 0 <= i < ids@.len() && ids@[i]@ == k,
    {
        proof {
            use_type_invariant(self);
            entry_keys(self.entries@).unique_seq_to_set();
            assert(self.map().dom() =~= entry_keys(self.entries@).to_set());
        }
        let mut ids: Vec<String> = Vec::new();
        let mut i: usize = 0;
        while i < self.entries.len()
            invariant
                i <= self.entries@.len(),
                ids@.len() == i,
                forall|j: int| 0 <= j < i ==> #[trigger] ids@[j]@ == self.entries@[j].0@,
            decreases self.entries@.len() - i,
        {
            ids.push(self.entries[i].0.as_str().to_owned());
            i = i + 1;
        }
        proof {
            assert forall|j: int| 0 <= j < ids@.len() implies #[trigger] self.map().contains_key(ids@[j]@) by {
                assert(entry_keys(self.entries@)[j] == ids@[j]@);
            }
            assert forall|k: Seq<char>| #[trigger] self.map().contains_key(k) implies exists|j: int| 0 <= j < ids@.len() && ids@[j]@ == k by {
                let j = entry_keys(self.entries@).index_of(k);
                assert(ids@[j]@ == k);
            }
        }
        ids
    }
}

} // verus!
