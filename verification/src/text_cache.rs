//! A bounded cache of text layouts keyed by text and font size. When full, it
//! is emptied before the next insertion. `V` is the cached layout.
use vstd::prelude::*;

verus! {

/// What a text layout is cached under: the text and the font size in tenths.
#[derive(Debug, Clone)]
pub struct TextLayoutKey {
    pub text: String,
    pub font_size_tenths: u32,
}

/// The value of a key.
pub open spec fn key_of(k: TextLayoutKey) -> (Seq<char>, u32) {
    (k.text@, k.font_size_tenths)
}

impl TextLayoutKey {
    /// Whether two keys are equal.
    pub fn same_as(&self, other: &TextLayoutKey) -> (r: bool)
        ensures
            r == (key_of(*self) == key_of(*other)),
    {
        self.font_size_tenths == other.font_size_tenths && self.text == other.text
    }
}

/// The keys of the entries, in order.
pub open spec fn cache_keys<V>(s: Seq<(TextLayoutKey, V)>) -> Seq<(Seq<char>, u32)> {
    s.map_values(|e: (TextLayoutKey, V)| key_of(e.0))
}

/// The entries as a map.
pub open spec fn cache_map<V>(s: Seq<(TextLayoutKey, V)>) -> Map<(Seq<char>, u32), V> {
    Map::new(
        |k: (Seq<char>, u32)| cache_keys(s).contains(k),
        |k: (Seq<char>, u32)| s[cache_keys(s).index_of(k)].1,
    )
}

/// With distinct keys, the entry at `i` is the one the map finds for its key.
proof fn lemma_cache_index<V>(s: Seq<(TextLayoutKey, V)>, i: int)
    requires
        cache_keys(s).no_duplicates(),
        0 <= i < s.len(),
    ensures
        cache_keys(s).contains(key_of(s[i].0)),
        cache_keys(s).index_of(key_of(s[i].0)) == i,
{
    let ks = cache_keys(s);
    assert(ks[i] == key_of(s[i].0));
    let j = ks.index_of(key_of(s[i].0));
    assert(ks[j] == ks[i]);
}

/// Appending an entry with a new key inserts it into the map.
proof fn lemma_cache_push<V>(s: Seq<(TextLayoutKey, V)>, e: (TextLayoutKey, V))
    requires
        cache_keys(s).no_duplicates(),
        !cache_keys(s).contains(key_of(e.0)),
    ensures
        cache_keys(s.push(e)).no_duplicates(),
        cache_map(s.push(e)) == cache_map(s).insert(key_of(e.0), e.1),
{
    let t = s.push(e);
    let ks = cache_keys(s);
    let kt = cache_keys(t);
    assert(kt =~= ks.push(key_of(e.0)));
    assert forall|a: int, b: int| 0 <= a < t.len() && 0 <= b < t.len() && a != b implies kt[a] != kt[b] by {
        if a < s.len() && b < s.len() {
            assert(kt[a] == ks[a]);
            assert(kt[b] == ks[b]);
        } else if a < s.len() {
            assert(kt[a] == ks[a]);
        } else {
            assert(kt[b] == ks[b]);
        }
    }
    let m = cache_map(s).insert(key_of(e.0), e.1);
    assert forall|k: (Seq<char>, u32)| #[trigger] cache_map(t).contains_key(k) == m.contains_key(k) by {
        if ks.contains(k) {
            let i = ks.index_of(k);
            assert(kt[i] == k);
        }
        if kt.contains(k) && k != key_of(e.0) {
            let i = kt.index_of(k);
            assert(i < s.len());
            assert(ks[i] == k);
        }
        assert(kt[s.len() as int] == key_of(e.0));
    }
    assert forall|k: (Seq<char>, u32)| cache_map(t).contains_key(k) implies #[trigger] cache_map(t)[k] == m[k] by {
        if k == key_of(e.0) {
            lemma_cache_index(t, s.len() as int);
        } else {
            let i = kt.index_of(k);
            assert(i < s.len());
            assert(key_of(s[i].0) == k);
            lemma_cache_index(s, i);
            lemma_cache_index(t, i);
        }
    }
    assert(cache_map(t) =~= m);
}

/// Removing the entry at `i` removes its key from the map.
proof fn lemma_cache_remove<V>(s: Seq<(TextLayoutKey, V)>, i: int)
    requires
        cache_keys(s).no_duplicates(),
        0 <= i < s.len(),
    ensures
        cache_keys(s.remove(i)).no_duplicates(),
        cache_map(s.remove(i)) == cache_map(s).remove(key_of(s[i].0)),
{
    let t = s.remove(i);
    let ks = cache_keys(s);
    let kt = cache_keys(t);
    assert(kt =~= ks.remove(i));
    assert forall|a: int, b: int| 0 <= a < t.len() && 0 <= b < t.len() && a != b implies kt[a] != kt[b] by {
        let sa = if a < i { a } else { a + 1 };
        let sb = if b < i { b } else { b + 1 };
        assert(kt[a] == ks[sa]);
        assert(kt[b] == ks[sb]);
    }
    let key = key_of(s[i].0);
    assert forall|k: (Seq<char>, u32)| #[trigger] cache_map(t).contains_key(k) == cache_map(s).remove(key).contains_key(k) by {
        if kt.contains(k) {
            let a = kt.index_of(k);
            let sa = if a < i { a } else { a + 1 };
            assert(ks[sa] == k);
            assert(ks[i] == key);
        }
        if ks.contains(k) && k != key {
            let a = ks.index_of(k);
            assert(a != i);
            let ta = if a < i { a } else { a - 1 };
            assert(kt[ta] == k);
        }
    }
    assert forall|k: (Seq<char>, u32)| cache_map(t).contains_key(k) implies #[trigger] cache_map(t)[k] == cache_map(s).remove(key)[k] by {
        let a = kt.index_of(k);
        let sa = if a < i { a } else { a + 1 };
        assert(t[a] == s[sa]);
        lemma_cache_index(t, a);
        lemma_cache_index(s, sa);
    }
    assert(cache_map(t) =~= cache_map(s).remove(key));
}

/// The number of distinct keys equals the number of entries.
proof fn lemma_cache_len<V>(s: Seq<(TextLayoutKey, V)>)
    requires
        cache_keys(s).no_duplicates(),
    ensures
        cache_map(s).len() == s.len(),
{
    cache_keys(s).unique_seq_to_set();
    assert(cache_map(s).dom() =~= cache_keys(s).to_set());
}

/// The position of the entry under `key` in `cache`, if any.
fn locate<V>(cache: &Vec<(TextLayoutKey, V)>, key: &TextLayoutKey) -> (r: Option<usize>)
    requires
        cache_keys(cache@).no_duplicates(),
    ensures
        r is None <==> !cache_map(cache@).contains_key(key_of(*key)),
        r matches Some(i) ==> i < cache@.len() && key_of(cache@[i as int].0) == key_of(*key)
            && cache_keys(cache@).index_of(key_of(*key)) == i,
{
    let mut i: usize = 0;
    while i < cache.len()
        invariant
            i <= cache@.len(),
            cache_keys(cache@).no_duplicates(),
            forall|j: int| 0 <= j < i ==> key_of(cache@[j].0) != key_of(*key),
        decreases cache@.len() - i,
    {
        if cache[i].0.same_as(key) {
            proof {
                lemma_cache_index(cache@, i as int);
            }
            return Some(i);
        }
        i = i + 1;
    }
    proof {
        if cache_keys(cache@).contains(key_of(*key)) {
            let k = cache_keys(cache@).index_of(key_of(*key));
            assert(key_of(cache@[k].0) == key_of(*key));
        }
    }
    None
}

/// Text layouts by key, at most `max_entries` of them (at least one fits).
pub struct TextLayoutCache<V> {
    cache: Vec<(TextLayoutKey, V)>,
    max_entries: usize,
}

/// The largest number of entries a cache bounded by `max_entries` holds.
pub open spec fn capacity(max_entries: usize) -> nat {
    if max_entries == 0 { 1 } else { max_entries as nat }
}

impl<V> Default for TextLayoutCache<V> {
    /// An empty cache of 1024 entries.
    fn default() -> (c: Self)
        ensures
            c.entries() == Map::<(Seq<char>, u32), V>::empty(),
            c.limit() == 1024,
    {
        Self::new(1024)
    }
}

impl<V> TextLayoutCache<V> {
    #[verifier::type_invariant]
    spec fn well_formed(&self) -> bool {
        &&& cache_keys(self.cache@).no_duplicates()
        &&& self.cache@.len() <= capacity(self.max_entries)
    }

    /// The cached layouts.
    pub closed spec fn entries(&self) -> Map<(Seq<char>, u32), V> {
        cache_map(self.cache@)
    }

    /// The bound on the number of entries.
    pub closed spec fn limit(&self) -> usize {
        self.max_entries
    }

    /// An empty cache bounded by `max_entries`.
    pub fn new(max_entries: usize) -> (c: Self)
        ensures
            c.entries() == Map::<(Seq<char>, u32), V>::empty(),
            c.limit() == max_entries,
    {
        let c = TextLayoutCache { cache: Vec::new(), max_entries };
        assert(c.entries() =~= Map::<(Seq<char>, u32), V>::empty());
        c
    }

    fn find(&self, key: &TextLayoutKey) -> (r: Option<usize>)
        ensures
            r is None <==> !self.entries().contains_key(key_of(*key)),
            r matches Some(i) ==> i < self.cache@.len() && key_of(self.cache@[i as int].0) == key_of(*key)
                && cache_keys(self.cache@).index_of(key_of(*key)) == i,
    {
        proof {
            use_type_invariant(self);
        }
        locate(&self.cache, key)
    }

    /// The layout cached under `key`, if any.
    pub fn get(&self, key: &TextLayoutKey) -> (r: Option<&V>)
        ensures
            r is None <==> !self.entries().contains_key(key_of(*key)),
            r matches Some(v) ==> *v == self.entries()[key_of(*key)],
    {
        match self.find(key) {
            None => None,
            Some(i) => Some(&self.cache[i].1),
        }
    }

    /// Caches `value` under `key`. A full cache is emptied first; an entry
    /// already under `key` is replaced.
    pub fn insert(&mut self, key: TextLayoutKey, value: V)
        ensures
            final(self).limit() == old(self).limit(),
            final(self).entries() == (if old(self).entries().len() >= old(self).limit() {
                Map::<(Seq<char>, u32), V>::empty().insert(key_of(key), value)
            } else {
                old(self).entries().insert(key_of(key), value)
            }),
    {
        proof {
            use_type_invariant(&*self);
            lemma_cache_len(self.cache@);
        }
        let mut cache = Vec::new();
        std::mem::swap(&mut cache, &mut self.cache);
        if cache.len() >= self.max_entries {
            cache.clear();
            proof {
                assert(cache_map(cache@) =~= Map::<(Seq<char>, u32), V>::empty());
            }
        }
        let ghost mid = cache@;
        proof {
            lemma_cache_len(mid);
        }
        let found = locate(&cache, &key);
        let ghost kk = key_of(key);
        match found {
            Some(j) => {
                proof {
                    lemma_cache_remove(mid, j as int);
                    lemma_cache_index(mid, j as int);
                }
                let _old = cache.remove(j);
                let ghost removed = cache@;
                proof {
                    assert(!cache_keys(removed).contains(kk)) by {
                        assert(cache_map(removed) == cache_map(mid).remove(kk));
                        assert(!cache_map(removed).contains_key(kk));
                    }
                    lemma_cache_push(removed, (key, value));
                    assert(cache_map(mid).remove(kk).insert(kk, value) =~= cache_map(mid).insert(kk, value));
                    lemma_cache_len(removed);
                }
                cache.push((key, value));
            },
            None => {
                proof {
                    lemma_cache_push(mid, (key, value));
                }
                cache.push((key, value));
            },
        }
        self.cache = cache;
    }

    /// Drops the layout cached under `key`, if any.
    pub fn invalidate(&mut self, key: &TextLayoutKey)
        ensures
            final(self).limit() == old(self).limit(),
            final(self).entries() == old(self).entries().remove(key_of(*key)),
    {
        match self.find(key) {
            None => {
                assert(self.entries().remove(key_of(*key)) =~= self.entries());
            },
            Some(i) => {
                proof {
                    use_type_invariant(&*self);
                    lemma_cache_remove(self.cache@, i as int);
                }
                let mut cache = Vec::new();
                std::mem::swap(&mut cache, &mut self.cache);
                let _gone = cache.remove(i);
                self.cache = cache;
            },
        }
    }

    /// Drops every cached layout.
    pub fn clear(&mut self)
        ensures
            final(self).limit() == old(self).limit(),
            final(self).entries() == Map::<(Seq<char>, u32), V>::empty(),
    {
        let mut cache = Vec::new();
        std::mem::swap(&mut cache, &mut self.cache);
        cache.clear();
        self.cache = cache;
        assert(self.entries() =~= Map::<(Seq<char>, u32), V>::empty());
    }

    /// The number of cached layouts.
    pub fn len(&self) -> (n: usize)
        ensures
            n == self.entries().len(),
            n <= capacity(self.limit()),
    {
        proof {
            use_type_invariant(self);
            lemma_cache_len(self.cache@);
        }
        self.cache.len()
    }

    /// Whether nothing is cached.
    pub fn is_empty(&self) -> (r: bool)
        ensures
            r == (self.entries().len() == 0),
    {
        self.len() == 0
    }
}

/// A layout is found right after it was cached, whether or not the cache had
/// to be emptied first; an emptied cache then holds that layout alone.
pub proof fn lemma_insert_then_get<V>(entries: Map<(Seq<char>, u32), V>, limit: usize, key: (Seq<char>, u32), value: V)
    ensures
        ({
            let after = if entries.len() >= limit {
                Map::<(Seq<char>, u32), V>::empty().insert(key, value)
            } else {
                entries.insert(key, value)
            };
            &&& after.contains_key(key)
            &&& after[key] == value
            &&& entries.len() >= limit ==> after.dom() == set![key]
        }),
{
    if entries.len() >= limit {
        assert(Map::<(Seq<char>, u32), V>::empty().insert(key, value).dom() =~= set![key]);
    }
}

} // verus!
