//! Ordered key/value entries: the model shared by the query parameters and the
//! filter document.
use vstd::prelude::*;

verus! {

/// No key occurs twice.
pub open spec fn keys_unique<V>(s: Seq<(Seq<char>, V)>) -> bool {
    forall|i: int, j: int| 0 <= i < j < s.len() ==> #[trigger] s[i].0 != #[trigger] s[j].0
}

/// Whether some entry has key `k`.
pub open spec fn has_key<V>(s: Seq<(Seq<char>, V)>, k: Seq<char>) -> bool {
    exists|i: int| 0 <= i < s.len() && #[trigger] s[i].0 == k
}

/// The value of the first entry with key `k`.
pub open spec fn entries_get<V>(s: Seq<(Seq<char>, V)>, k: Seq<char>) -> Option<V>
    decreases s.len(),
{
    if s.len() == 0 {
        None
    } else if s[0].0 == k {
        Some(s[0].1)
    } else {
        entries_get(s.drop_first(), k)
    }
}

/// Insertion that keeps the order of the entries: the value of an existing
/// key is replaced where it stands, a new key goes to the end.
pub open spec fn entries_upsert<V>(s: Seq<(Seq<char>, V)>, k: Seq<char>, v: V) -> Seq<
    (Seq<char>, V),
>
    decreases s.len(),
{
    if s.len() == 0 {
        seq![(k, v)]
    } else if s[0].0 == k {
        s.update(0, (k, v))
    } else {
        seq![s[0]] + entries_upsert(s.drop_first(), k, v)
    }
}

/// Removal of the first entry with key `k`, keeping the order of the others.
pub open spec fn entries_remove<V>(s: Seq<(Seq<char>, V)>, k: Seq<char>) -> Seq<(Seq<char>, V)>
    decreases s.len(),
{
    if s.len() == 0 {
        s
    } else if s[0].0 == k {
        s.drop_first()
    } else {
        seq![s[0]] + entries_remove(s.drop_first(), k)
    }
}

/// With `p` the first index of key `k` (or the length when there is none), the
/// recursive definitions above are the usual edits at `p`.
pub proof fn lemma_entries_at<V>(s: Seq<(Seq<char>, V)>, k: Seq<char>, v: V, p: int)
    requires
        0 <= p <= s.len(),
        forall|i: int| 0 <= i < p ==> #[trigger] s[i].0 != k,
        p < s.len() ==> s[p].0 == k,
    ensures
        p < s.len() ==> entries_get(s, k) == Some(s[p].1),
        p < s.len() ==> entries_upsert(s, k, v) == s.update(p, (k, v)),
        p < s.len() ==> entries_remove(s, k) == s.remove(p),
        p == s.len() ==> entries_get(s, k) == None::<V>,
        p == s.len() ==> entries_upsert(s, k, v) == s.push((k, v)),
        p == s.len() ==> entries_remove(s, k) == s,
        has_key(s, k) <==> p < s.len(),
    decreases s.len(),
{
    if s.len() > 0 {
        if p > 0 {
            let t = s.drop_first();
            assert forall|i: int| 0 <= i < p - 1 implies #[trigger] t[i].0 != k by {
                assert(t[i] == s[i + 1]);
            }
            lemma_entries_at(t, k, v, p - 1);
            if p < s.len() {
                assert(s.update(p, (k, v)) =~= seq![s[0]] + t.update(p - 1, (k, v)));
                assert(s.remove(p) =~= seq![s[0]] + t.remove(p - 1));
            } else {
                assert(s.push((k, v)) =~= seq![s[0]] + t.push((k, v)));
                assert(s =~= seq![s[0]] + t);
                if has_key(s, k) {
                    let i = choose|i: int| 0 <= i < s.len() && #[trigger] s[i].0 == k;
                    assert(false);
                }
            }
        } else {
            assert(s.remove(0) =~= s.drop_first());
        }
    }
}

/// Upserting keeps the keys unique.
pub proof fn lemma_upsert_unique<V>(s: Seq<(Seq<char>, V)>, k: Seq<char>, v: V, p: int)
    requires
        keys_unique(s),
        0 <= p <= s.len(),
        forall|i: int| 0 <= i < p ==> #[trigger] s[i].0 != k,
        p < s.len() ==> s[p].0 == k,
    ensures
        keys_unique(entries_upsert(s, k, v)),
{
    lemma_entries_at(s, k, v, p);
    let r = entries_upsert(s, k, v);
    if p == s.len() {
        assert forall|i: int, j: int| 0 <= i < j < r.len() implies #[trigger] r[i].0
            != #[trigger] r[j].0 by {
            if j == s.len() {
                assert(r[i] == s[i]);
            } else {
                assert(r[i] == s[i] && r[j] == s[j]);
            }
        }
    } else {
        assert forall|i: int, j: int| 0 <= i < j < r.len() implies #[trigger] r[i].0
            != #[trigger] r[j].0 by {
            assert(r[i].0 == s[i].0);
            assert(r[j].0 == s[j].0);
        }
    }
}

/// Removing keeps the keys unique.
pub proof fn lemma_remove_unique<V>(s: Seq<(Seq<char>, V)>, k: Seq<char>, p: int)
    requires
        keys_unique(s),
        0 <= p <= s.len(),
        forall|i: int| 0 <= i < p ==> #[trigger] s[i].0 != k,
        p < s.len() ==> s[p].0 == k,
    ensures
        keys_unique(entries_remove(s, k)),
        !has_key(entries_remove(s, k), k),
{
    let v = arbitrary::<V>();
    lemma_entries_at(s, k, v, p);
    let r = entries_remove(s, k);
    if p < s.len() {
        assert forall|i: int, j: int| 0 <= i < j < r.len() implies #[trigger] r[i].0
            != #[trigger] r[j].0 by {
            let a = if i < p { i } else { i + 1 };
            let b = if j < p { j } else { j + 1 };
            assert(r[i] == s[a] && r[j] == s[b]);
        }
        if has_key(r, k) {
            let i = choose|i: int| 0 <= i < r.len() && #[trigger] r[i].0 == k;
            if i >= p {
                assert(r[i] == s[i + 1]);
            }
        }
    }
}

} // verus!

verus! {

/// After setting `k`, reading `k` gives the new value and other keys are untouched.
pub proof fn lemma_get_upsert<V>(s: Seq<(Seq<char>, V)>, k: Seq<char>, v: V, j: Seq<char>)
    ensures
        entries_get(entries_upsert(s, k, v), j) == if j == k {
            Some(v)
        } else {
            entries_get(s, j)
        },
    decreases s.len(),
{
    let r = entries_upsert(s, k, v);
    if s.len() == 0 {
        assert(r.drop_first().len() == 0);
        assert(entries_get(r.drop_first(), j) is None);
    } else {
        if s[0].0 == k {
            assert(r.drop_first() =~= s.drop_first());
            assert(r[0] == (k, v));
        } else {
            lemma_get_upsert(s.drop_first(), k, v, j);
            assert((seq![s[0]] + entries_upsert(s.drop_first(), k, v)).drop_first()
                =~= entries_upsert(s.drop_first(), k, v));
        }
    }
}

/// After removing `k`, reading `k` gives nothing and other keys are untouched,
/// provided that `k` occurred at most once.
pub proof fn lemma_get_remove<V>(s: Seq<(Seq<char>, V)>, k: Seq<char>, j: Seq<char>)
    requires
        keys_unique(s),
    ensures
        entries_get(entries_remove(s, k), j) == if j == k {
            None
        } else {
            entries_get(s, j)
        },
    decreases s.len(),
{
    if s.len() > 0 {
        let t = s.drop_first();
        assert(keys_unique(t)) by {
            assert forall|a: int, b: int| 0 <= a < b < t.len() implies #[trigger] t[a].0
                != #[trigger] t[b].0 by {
                assert(t[a] == s[a + 1] && t[b] == s[b + 1]);
            }
        }
        if s[0].0 == k {
            if j == k {
                lemma_get_absent(t, k);
            }
        } else {
            lemma_get_remove(t, k, j);
            assert((seq![s[0]] + entries_remove(t, k)).drop_first() =~= entries_remove(t, k));
        }
    }
}

/// Reading a key that no entry has gives nothing.
pub proof fn lemma_get_absent<V>(s: Seq<(Seq<char>, V)>, k: Seq<char>)
    requires
        forall|i: int| 0 <= i < s.len() ==> #[trigger] s[i].0 != k,
    ensures
        entries_get(s, k) is None,
    decreases s.len(),
{
    if s.len() > 0 {
        let t = s.drop_first();
        assert forall|i: int| 0 <= i < t.len() implies #[trigger] t[i].0 != k by {
            assert(t[i] == s[i + 1]);
        }
        lemma_get_absent(t, k);
    }
}

/// Keys stay unique under upserts, whatever the position of the key.
pub proof fn lemma_upsert_keeps_unique<V>(s: Seq<(Seq<char>, V)>, k: Seq<char>, v: V)
    requires
        keys_unique(s),
    ensures
        keys_unique(entries_upsert(s, k, v)),
{
    let p = first_index(s, k);
    lemma_first_index(s, k);
    lemma_upsert_unique(s, k, v, p);
}

/// The first index with key `k`, or the length when there is none.
pub open spec fn first_index<V>(s: Seq<(Seq<char>, V)>, k: Seq<char>) -> int
    decreases s.len(),
{
    if s.len() == 0 {
        0
    } else if s[0].0 == k {
        0
    } else {
        1 + first_index(s.drop_first(), k)
    }
}

pub proof fn lemma_first_index<V>(s: Seq<(Seq<char>, V)>, k: Seq<char>)
    ensures
        0 <= first_index(s, k) <= s.len(),
        forall|i: int| 0 <= i < first_index(s, k) ==> #[trigger] s[i].0 != k,
        first_index(s, k) < s.len() ==> s[first_index(s, k)].0 == k,
    decreases s.len(),
{
    if s.len() > 0 && s[0].0 != k {
        let t = s.drop_first();
        lemma_first_index(t, k);
        assert forall|i: int| 0 <= i < first_index(s, k) implies #[trigger] s[i].0 != k by {
            if i > 0 {
                assert(s[i] == t[i - 1]);
            }
        }
    }
}

} // verus!
