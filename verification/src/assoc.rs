//! A small association map with a `Map` view, keyed by strings or label
//! pairs: the backing for the immutable metadata tables and the metrics
//! label maps, whose keys a hash map specification does not cover.

use vstd::prelude::*;

verus! {

/// Keys of an [`AssocMap`]: comparable and copyable at the view level.
pub trait AssocKey: View + Sized {
    /// Whether two keys have equal views.
    fn key_eq(&self, other: &Self) -> (r: bool)
        ensures
            r == (self@ == other@),
    ;
}

impl AssocKey for String {
    fn key_eq(&self, other: &Self) -> (r: bool) {
        *self == *other
    }
}

impl AssocKey for (String, String) {
    fn key_eq(&self, other: &Self) -> (r: bool) {
        self.0 == other.0 && self.1 == other.1
    }
}

/// The map that an entry sequence denotes: later entries win.
pub open spec fn assoc_view<K: AssocKey, V>(s: Seq<(K, V)>) -> Map<K::V, V>
    decreases s.len(),
{
    if s.len() == 0 {
        Map::empty()
    } else {
        assoc_view(s.drop_last()).insert(s.last().0@, s.last().1)
    }
}

/// No two entries share a key view.
pub open spec fn distinct_keys<K: AssocKey, V>(s: Seq<(K, V)>) -> bool {
    forall|i: int, j: int| 0 <= i < j < s.len()
        ==> (#[trigger] s[i]).0@ != (#[trigger] s[j]).0@
}

proof fn lemma_assoc_contains<K: AssocKey, V>(s: Seq<(K, V)>, k: K::V)
    ensures
        assoc_view(s).contains_key(k)
            <==> exists|i: int| 0 <= i < s.len() && (#[trigger] s[i]).0@ == k,
    decreases s.len(),
{
    if s.len() > 0 {
        lemma_assoc_contains(s.drop_last(), k);
        if assoc_view(s).contains_key(k) {
            if s.last().0@ == k {
                assert(s[s.len() - 1].0@ == k);
            } else {
                let i = choose|i: int| 0 <= i < s.drop_last().len()
                    && (#[trigger] s.drop_last()[i]).0@ == k;
                assert(s[i].0@ == k);
            }
        }
        if exists|i: int| 0 <= i < s.len() && (#[trigger] s[i]).0@ == k {
            let i = choose|i: int| 0 <= i < s.len() && (#[trigger] s[i]).0@ == k;
            if i < s.len() - 1 {
                assert(s.drop_last()[i].0@ == k);
            }
        }
    }
}

proof fn lemma_assoc_at<K: AssocKey, V>(s: Seq<(K, V)>, i: int)
    requires
        distinct_keys(s),
        0 <= i < s.len(),
    ensures
        assoc_view(s).contains_key(s[i].0@),
        assoc_view(s)[s[i].0@] == s[i].1,
    decreases s.len(),
{
    if i < s.len() - 1 {
        lemma_assoc_at(s.drop_last(), i);
        assert(s.drop_last()[i] == s[i]);
        assert(s.last().0@ != s[i].0@);
    }
}

proof fn lemma_assoc_update<K: AssocKey, V>(s: Seq<(K, V)>, i: int, e: (K, V))
    requires
        distinct_keys(s),
        0 <= i < s.len(),
        e.0@ == s[i].0@,
    ensures
        assoc_view(s.update(i, e)) == assoc_view(s).insert(e.0@, e.1),
    decreases s.len(),
{
    let t = s.update(i, e);
    if i == s.len() - 1 {
        assert(t.drop_last() =~= s.drop_last());
        assert(t.last() == e);
        assert(assoc_view(s.drop_last()).insert(e.0@, e.1)
            =~= assoc_view(s.drop_last()).insert(s.last().0@, s.last().1).insert(e.0@, e.1));
    } else {
        assert(t.drop_last() =~= s.drop_last().update(i, e));
        assert(t.last() == s.last());
        lemma_assoc_update(s.drop_last(), i, e);
        assert(s.drop_last()[i] == s[i]);
        assert(e.0@ != s.last().0@);
        assert(assoc_view(s.drop_last()).insert(e.0@, e.1).insert(s.last().0@, s.last().1)
            =~= assoc_view(s.drop_last()).insert(s.last().0@, s.last().1).insert(e.0@, e.1));
    }
}

/// An association map from keys to values, with a `Map` view. Lookups and
/// updates scan linearly; entries hold pairwise distinct keys.
pub struct AssocMap<K: AssocKey, V> {
    entries: Vec<(K, V)>,
}

impl<K: AssocKey, V> View for AssocMap<K, V> {
    type V = Map<K::V, V>;

    closed spec fn view(&self) -> Map<K::V, V> {
        assoc_view(self.entries@)
    }
}

impl<K: AssocKey, V> AssocMap<K, V> {
    #[verifier::type_invariant]
    closed spec fn wf(&self) -> bool {
        distinct_keys(self.entries@)
    }

    /// The empty map, at the view level.
    pub open spec fn spec_empty() -> Map<K::V, V> {
        Map::empty()
    }

    /// An empty map.
    pub fn new() -> (m: Self)
        ensures
            m@ == Self::spec_empty(),
    {
        AssocMap { entries: Vec::new() }
    }

    /// The number of keys mapped.
    pub fn len(&self) -> (n: usize)
        ensures
            n == self@.dom().len(),
    {
        proof {
            use_type_invariant(&*self);
            lemma_assoc_len(self.entries@);
        }
        self.entries.len()
    }

    /// The value mapped to `key`, if any.
    pub fn get<'a>(&'a self, key: &K) -> (r: Option<&'a V>)
        ensures
            match r {
                Some(v) => self@.contains_key(key@) && *v == self@[key@],
                None => !self@.contains_key(key@),
            },
    {
        proof {
            use_type_invariant(&*self);
        }
        let n = self.entries.len();
        let mut i: usize = 0;
        while i < n
            invariant
                n == self.entries@.len(),
                i <= n,
                distinct_keys(self.entries@),
                forall|j: int| 0 <= j < i ==> (#[trigger] self.entries@[j]).0@ != key@,
            decreases n - i,
        {
            if self.entries[i].0.key_eq(key) {
                proof {
                    lemma_assoc_at(self.entries@, i as int);
                }
                return Some(&self.entries[i].1);
            }
            i += 1;
        }
        proof {
            lemma_assoc_contains(self.entries@, key@);
        }
        None
    }

    /// Whether `key` is mapped.
    pub fn contains_key(&self, key: &K) -> (r: bool)
        ensures
            r == self@.contains_key(key@),
    {
        match self.get(key) {
            Some(_) => true,
            None => false,
        }
    }

    /// Map `key` to `value`, replacing any previous value.
    pub fn set(&mut self, key: K, value: V)
        ensures
            final(self)@ == old(self)@.insert(key@, value),
    {
        proof {
            use_type_invariant(&*self);
        }
        let mut entries: Vec<(K, V)> = Vec::new();
        core::mem::swap(&mut self.entries, &mut entries);
        let ghost s0 = entries@;
        let n = entries.len();
        let mut i: usize = 0;
        while i < n
            invariant
                n == entries@.len(),
                entries@ == s0,
                old(self)@ == assoc_view(s0),
                i <= n,
                distinct_keys(s0),
                forall|j: int| 0 <= j < i ==> (#[trigger] s0[j]).0@ != key@,
            decreases n - i,
        {
            if entries[i].0.key_eq(&key) {
                let ghost kv = key@;
                entries[i] = (key, value);
                proof {
                    assert(entries@ =~= s0.update(i as int, entries@[i as int]));
                    lemma_assoc_update(s0, i as int, entries@[i as int]);
                    assert(distinct_keys(entries@)) by {
                        assert forall|a: int, b: int| 0 <= a < b < entries@.len()
                            implies (#[trigger] entries@[a]).0@ != (#[trigger] entries@[b]).0@ by {
                            assert(entries@[a].0@ == s0[a].0@);
                            assert(entries@[b].0@ == s0[b].0@);
                        }
                    }
                }
                self.entries = entries;
                return;
            }
            i += 1;
        }
        entries.push((key, value));
        proof {
            assert(entries@.drop_last() =~= s0);
            assert(distinct_keys(entries@)) by {
                assert forall|a: int, b: int| 0 <= a < b < entries@.len()
                    implies (#[trigger] entries@[a]).0@ != (#[trigger] entries@[b]).0@ by {
                    if b < entries@.len() - 1 {
                        assert(entries@[a].0@ == s0[a].0@);
                        assert(entries@[b].0@ == s0[b].0@);
                    } else {
                        assert(entries@[a].0@ == s0[a].0@);
                    }
                }
            }
        }
        self.entries = entries;
    }
}

proof fn lemma_assoc_len<K: AssocKey, V>(s: Seq<(K, V)>)
    requires
        distinct_keys(s),
    ensures
        assoc_view(s).dom().len() == s.len(),
        assoc_view(s).dom().finite(),
    decreases s.len(),
{
    if s.len() > 0 {
        lemma_assoc_len(s.drop_last());
        lemma_assoc_contains(s.drop_last(), s.last().0@);
        assert(!assoc_view(s.drop_last()).contains_key(s.last().0@)) by {
            if exists|i: int| 0 <= i < s.drop_last().len()
                && (#[trigger] s.drop_last()[i]).0@ == s.last().0@ {
                let i = choose|i: int| 0 <= i < s.drop_last().len()
                    && (#[trigger] s.drop_last()[i]).0@ == s.last().0@;
                assert(s[i].0@ == s[s.len() - 1].0@);
            }
        }
        assert(assoc_view(s).dom() =~= assoc_view(s.drop_last()).dom().insert(s.last().0@));
        vstd::set::axiom_set_insert_finite(assoc_view(s.drop_last()).dom(), s.last().0@);
        vstd::set::axiom_set_insert_len(assoc_view(s.drop_last()).dom(), s.last().0@);
    }
}

} // verus!
