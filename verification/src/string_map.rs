//! Maps of strings kept in the order of their keys, as a `BTreeMap` of
//! strings keeps them: query parameters, labels, event properties.
use vstd::prelude::*;
use crate::entries::{entries_get, entries_remove, keys_unique, lemma_entries_at};
use crate::text::{
    lemma_str_lt_asymmetric, lemma_str_lt_irreflexive, lemma_str_lt_total, lemma_str_lt_transitive,
    str_eq, str_less, str_lt,
};

verus! {

/// Entries whose keys are strictly increasing in the order of `str`.
pub open spec fn sorted_keys<V>(s: Seq<(Seq<char>, V)>) -> bool {
    forall|i: int, j: int| 0 <= i < j < s.len() ==> str_lt(#[trigger] s[i].0, #[trigger] s[j].0)
}

/// Insertion into an ordered map: the value of an existing key is replaced, a
/// new key goes to its place in the order.
pub open spec fn sorted_insert<V>(s: Seq<(Seq<char>, V)>, k: Seq<char>, v: V) -> Seq<
    (Seq<char>, V),
>
    decreases s.len(),
{
    if s.len() == 0 {
        seq![(k, v)]
    } else if s[0].0 == k {
        s.update(0, (k, v))
    } else if str_lt(k, s[0].0) {
        seq![(k, v)] + s
    } else {
        seq![s[0]] + sorted_insert(s.drop_first(), k, v)
    }
}

/// The views of a vector of keyed values.
pub open spec fn pairs_view<V: View>(v: Seq<(String, V)>) -> Seq<(Seq<char>, V::V)> {
    v.map_values(|e: (String, V)| (e.0@, e.1@))
}

pub proof fn lemma_sorted_insert_at<V>(s: Seq<(Seq<char>, V)>, k: Seq<char>, v: V, p: int)
    requires
        sorted_keys(s),
        0 <= p <= s.len(),
        forall|i: int| 0 <= i < p ==> str_lt(#[trigger] s[i].0, k),
        p < s.len() ==> !str_lt(s[p].0, k),
    ensures
        p < s.len() && s[p].0 == k ==> sorted_insert(s, k, v) == s.update(p, (k, v)),
        !(p < s.len() && s[p].0 == k) ==> sorted_insert(s, k, v) == s.insert(p, (k, v)),
        sorted_keys(sorted_insert(s, k, v)),
    decreases p,
{
    if p > 0 {
        let t = s.drop_first();
        assert(str_lt(s[0].0, k));
        lemma_str_lt_irreflexive(k);
        lemma_str_lt_asymmetric(s[0].0, k);
        assert forall|i: int| 0 <= i < p - 1 implies str_lt(#[trigger] t[i].0, k) by {
            assert(t[i] == s[i + 1]);
        }
        assert(sorted_keys(t)) by {
            assert forall|i: int, j: int| 0 <= i < j < t.len() implies str_lt(
                #[trigger] t[i].0,
                #[trigger] t[j].0,
            ) by {
                assert(t[i] == s[i + 1] && t[j] == s[j + 1]);
            }
        }
        lemma_sorted_insert_at(t, k, v, p - 1);
        if p < s.len() && s[p].0 == k {
            assert(s.update(p, (k, v)) =~= seq![s[0]] + t.update(p - 1, (k, v)));
        } else {
            assert(s.insert(p, (k, v)) =~= seq![s[0]] + t.insert(p - 1, (k, v)));
        }
    } else {
        if s.len() > 0 && s[0].0 != k {
            lemma_str_lt_total(s[0].0, k);
            assert(seq![(k, v)] + s =~= s.insert(0, (k, v)));
        }
        if s.len() == 0 {
            assert(seq![(k, v)] =~= s.insert(0, (k, v)));
        }
    }
    let r = sorted_insert(s, k, v);
    if p < s.len() && s[p].0 == k {
        assert forall|i: int, j: int| 0 <= i < j < r.len() implies str_lt(
            #[trigger] r[i].0,
            #[trigger] r[j].0,
        ) by {
            assert(r[i].0 == s[i].0 && r[j].0 == s[j].0);
        }
    } else {
        if p < s.len() {
            lemma_str_lt_total(s[p].0, k);
        }
        assert forall|i: int, j: int| 0 <= i < j < r.len() implies str_lt(
            #[trigger] r[i].0,
            #[trigger] r[j].0,
        ) by {
            if j < p {
                assert(r[i] == s[i] && r[j] == s[j]);
            } else if j == p {
                assert(r[i] == s[i]);
            } else if i == p {
                assert(r[j] == s[j - 1]);
                if j - 1 > p {
                    lemma_str_lt_transitive(k, s[p].0, s[j - 1].0);
                }
            } else if i < p {
                assert(r[i] == s[i] && r[j] == s[j - 1]);
            } else {
                assert(r[i] == s[i - 1] && r[j] == s[j - 1]);
            }
        }
    }
}

proof fn lemma_sorted_unique<V>(s: Seq<(Seq<char>, V)>)
    requires
        sorted_keys(s),
    ensures
        keys_unique(s),
{
    assert forall|i: int, j: int| 0 <= i < j < s.len() implies #[trigger] s[i].0
        != #[trigger] s[j].0 by {
        assert(str_lt(s[i].0, s[j].0));
        lemma_str_lt_irreflexive(s[i].0);
    }
}

proof fn lemma_remove_sorted<V>(s: Seq<(Seq<char>, V)>, k: Seq<char>, p: int)
    requires
        sorted_keys(s),
        0 <= p <= s.len(),
        forall|i: int| 0 <= i < p ==> #[trigger] s[i].0 != k,
        p < s.len() ==> s[p].0 == k,
    ensures
        sorted_keys(entries_remove(s, k)),
{
    lemma_entries_at(s, k, arbitrary::<V>(), p);
    let r = entries_remove(s, k);
    if p < s.len() {
        assert forall|i: int, j: int| 0 <= i < j < r.len() implies str_lt(
            #[trigger] r[i].0,
            #[trigger] r[j].0,
        ) by {
            let a = if i < p { i } else { i + 1 };
            let b = if j < p { j } else { j + 1 };
            assert(r[i] == s[a] && r[j] == s[b]);
        }
    }
}

/// A map keyed by strings: each key once, in increasing order, as a
/// `BTreeMap` with string keys holds them.
pub struct KeyedMap<V: View> {
    entries: Vec<(String, V)>,
}

/// A map of strings to strings.
pub type StringMap = KeyedMap<String>;

impl<V: View> View for KeyedMap<V> {
    type V = Seq<(Seq<char>, V::V)>;

    closed spec fn view(&self) -> Seq<(Seq<char>, V::V)> {
        pairs_view(self.entries@)
    }
}

impl<V: View> KeyedMap<V> {
    #[verifier::type_invariant]
    closed spec fn inv(&self) -> bool {
        sorted_keys(self@)
    }

    /// No parameters.
    pub fn new() -> (r: KeyedMap<V>)
        ensures
            r@ == Seq::<(Seq<char>, V::V)>::empty(),
    {
        let r = KeyedMap { entries: Vec::new() };
        assert(r@ =~= Seq::<(Seq<char>, V::V)>::empty());
        r
    }

    pub fn len(&self) -> (r: usize)
        ensures
            r == self@.len(),
    {
        self.entries.len()
    }

    pub fn is_empty(&self) -> (r: bool)
        ensures
            r == (self@.len() == 0),
    {
        self.entries.len() == 0
    }

    /// The entry at position `i` in key order.
    pub fn entry(&self, i: usize) -> (r: &(String, V))
        requires
            i < self@.len(),
        ensures
            (r.0@, r.1@) == self@[i as int],
    {
        &self.entries[i]
    }

    /// The first position whose key is not below `key`.
    fn position(&self, key: &str) -> (p: usize)
        ensures
            p <= self@.len(),
            forall|i: int| 0 <= i < p ==> str_lt(#[trigger] self@[i].0, key@),
            p < self@.len() ==> !str_lt(self@[p as int].0, key@),
    {
        let n = self.entries.len();
        let mut p: usize = 0;
        while p < n && str_less(self.entries[p].0.as_str(), key)
            invariant
                n == self@.len(),
                p <= n,
                forall|i: int| 0 <= i < p ==> str_lt(#[trigger] self@[i].0, key@),
            decreases n - p,
        {
            p = p + 1;
        }
        p
    }

    /// Sets `key` to `value`, as `BTreeMap::insert` does.
    pub fn insert(&mut self, key: String, value: V)
        ensures
            final(self)@ == sorted_insert(old(self)@, key@, value@),
    {
        proof {
            use_type_invariant(&*self);
        }
        let p = self.position(key.as_str());
        let ghost s = self@;
        proof {
            lemma_sorted_insert_at(s, key@, value@, p as int);
        }
        if p < self.entries.len() && str_eq(self.entries[p].0.as_str(), key.as_str()) {
            let ghost k = key@;
            let ghost v = value@;
            let mut entries: Vec<(String, V)> = Vec::new();
            std::mem::swap(&mut entries, &mut self.entries);
            entries.set(p, (key, value));
            assert(pairs_view(entries@) =~= s.update(p as int, (k, v)));
            self.entries = entries;
        } else {
            let ghost k = key@;
            let ghost v = value@;
            let mut entries: Vec<(String, V)> = Vec::new();
            std::mem::swap(&mut entries, &mut self.entries);
            entries.insert(p, (key, value));
            assert(pairs_view(entries@) =~= s.insert(p as int, (k, v)));
            self.entries = entries;
        }
    }

    /// The position of `key`, when it is in the map.
    fn lookup(&self, key: &str) -> (r: Option<usize>)
        ensures
            match r {
                Some(p) => p < self@.len() && self@[p as int].0 == key@ && forall|i: int|
                    0 <= i < p ==> #[trigger] self@[i].0 != key@,
                None => forall|i: int| 0 <= i < self@.len() ==> #[trigger] self@[i].0 != key@,
            },
    {
        proof {
            use_type_invariant(self);
        }
        let p = self.position(key);
        let ghost s = self@;
        let n = self.entries.len();
        proof {
            lemma_str_lt_irreflexive(key@);
        }
        if p < n && str_eq(self.entries[p].0.as_str(), key) {
            assert forall|i: int| 0 <= i < p implies #[trigger] s[i].0 != key@ by {}
            Some(p)
        } else {
            proof {
                assert forall|i: int| 0 <= i < n implies #[trigger] s[i].0 != key@ by {
                    if i >= p {
                        if p < n {
                            lemma_str_lt_total(s[p as int].0, key@);
                            if i > p {
                                lemma_str_lt_transitive(key@, s[p as int].0, s[i].0);
                            }
                        }
                    }
                }
            }
            None
        }
    }

    /// The value of `key`, as `BTreeMap::get` gives it.
    pub fn get(&self, key: &str) -> (r: Option<&V>)
        ensures
            match r {
                Some(v) => entries_get(self@, key@) == Some(v@),
                None => entries_get(self@, key@) is None,
            },
    {
        let ghost s = self@;
        match self.lookup(key) {
            Some(p) => {
                proof {
                    lemma_entries_at(s, key@, arbitrary::<V::V>(), p as int);
                }
                Some(&self.entries[p].1)
            },
            None => {
                proof {
                    lemma_entries_at(s, key@, arbitrary::<V::V>(), s.len() as int);
                }
                None
            },
        }
    }

    /// Takes `key` out, as `BTreeMap::remove` does, and gives its value back.
    pub fn remove(&mut self, key: &str) -> (r: Option<V>)
        ensures
            final(self)@ == entries_remove(old(self)@, key@),
            r matches Some(v) ==> entries_get(old(self)@, key@) == Some(v@),
            r is None ==> entries_get(old(self)@, key@) is None,
    {
        proof {
            use_type_invariant(&*self);
        }
        let p = self.position(key);
        let ghost s = self@;
        let n = self.entries.len();
        if p < n && str_eq(self.entries[p].0.as_str(), key) {
            proof {
                lemma_str_lt_irreflexive(key@);
                assert forall|i: int| 0 <= i < p implies #[trigger] s[i].0 != key@ by {}
                lemma_entries_at(s, key@, arbitrary::<V::V>(), p as int);
                lemma_remove_sorted(s, key@, p as int);
            }
            let mut entries: Vec<(String, V)> = Vec::new();
            std::mem::swap(&mut entries, &mut self.entries);
            let e = entries.remove(p);
            assert(pairs_view(entries@) =~= s.remove(p as int));
            self.entries = entries;
            Some(e.1)
        } else {
            proof {
                assert forall|i: int| 0 <= i < n implies #[trigger] s[i].0 != key@ by {
                    if i >= p {
                        if p < n {
                            lemma_str_lt_total(s[p as int].0, key@);
                            if i > p {
                                lemma_str_lt_transitive(key@, s[p as int].0, s[i].0);
                            }
                            lemma_str_lt_irreflexive(key@);
                        }
                    } else {
                        lemma_str_lt_irreflexive(key@);
                    }
                }
                lemma_entries_at(s, key@, arbitrary::<V::V>(), n as int);
            }
            None
        }
    }
}

} // verus!

verus! {

/// Values that can be copied, the copy having the same view.
pub trait Duplicate: View + Sized {
    fn duplicate(&self) -> (r: Self)
        ensures
            r@ == self@,
    ;
}

impl Duplicate for String {
    fn duplicate(&self) -> (r: String) {
        self.clone()
    }
}

impl<V: Duplicate> KeyedMap<V> {
    /// A copy of the map.
    pub fn duplicate(&self) -> (r: KeyedMap<V>)
        ensures
            r@ == self@,
    {
        proof {
            use_type_invariant(self);
        }
        let mut out: Vec<(String, V)> = Vec::new();
        let mut i: usize = 0;
        while i < self.entries.len()
            invariant
                i <= self.entries.len(),
                pairs_view(out@) == pairs_view(self.entries@.take(i as int)),
            decreases self.entries.len() - i,
        {
            let e = &self.entries[i];
            let ghost old_out = out@;
            out.push((e.0.clone(), e.1.duplicate()));
            assert(pairs_view(out@) =~= pairs_view(old_out).push((e.0@, e.1@)));
            assert(self.entries@.take(i + 1) =~= self.entries@.take(i as int).push(
                self.entries@[i as int],
            ));
            assert(pairs_view(self.entries@.take(i + 1)) =~= pairs_view(
                self.entries@.take(i as int),
            ).push((e.0@, e.1@)));
            i = i + 1;
        }
        assert(self.entries@.take(self.entries.len() as int) =~= self.entries@);
        KeyedMap { entries: out }
    }
}

} // verus!

verus! {

/// A map reads back what was written: after inserting `v` under `k`, reading
/// `k` gives `v` and every other key keeps its value.
pub proof fn law_insert_then_get<V>(s: Seq<(Seq<char>, V)>, k: Seq<char>, v: V, j: Seq<char>)
    ensures
        entries_get(sorted_insert(s, k, v), j) == if j == k {
            Some(v)
        } else {
            entries_get(s, j)
        },
    decreases s.len(),
{
    let r = sorted_insert(s, k, v);
    if s.len() == 0 {
        assert(r.drop_first().len() == 0);
        assert(entries_get(r.drop_first(), j) is None);
        assert(r[0] == (k, v));
    } else if s[0].0 == k {
        assert(r.drop_first() =~= s.drop_first());
        assert(r[0] == (k, v));
    } else if str_lt(k, s[0].0) {
        assert(r.drop_first() =~= s);
        assert(r[0] == (k, v));
    } else {
        law_insert_then_get(s.drop_first(), k, v, j);
        assert(r.drop_first() =~= sorted_insert(s.drop_first(), k, v));
        assert(r[0] == s[0]);
    }
}

/// After removing `k` from a map, reading `k` gives nothing and every other
/// key keeps its value.
pub proof fn law_remove_then_get<V>(s: Seq<(Seq<char>, V)>, k: Seq<char>, j: Seq<char>)
    requires
        sorted_keys(s),
    ensures
        entries_get(entries_remove(s, k), j) == if j == k {
            None
        } else {
            entries_get(s, j)
        },
{
    lemma_sorted_unique(s);
    crate::entries::lemma_get_remove(s, k, j);
}

} // verus!
