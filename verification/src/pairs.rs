//! Lists of pairs of a text key and a value in which no key occurs twice, read as maps
//! from key to value.

use vstd::prelude::*;
use crate::text::text_eq;

verus! {

/// Whether no key occurs twice.
pub open spec fn unique_keys<V: DeepView>(v: Seq<(String, V)>) -> bool {
    forall|i: int, j: int| 0 <= i < v.len() && 0 <= j < v.len() && i != j ==> v[i].0@ != v[j].0@
}

/// Whether `k` is the key of some pair.
pub open spec fn has_key<V: DeepView>(v: Seq<(String, V)>, k: Seq<char>) -> bool {
    exists|i: int| 0 <= i < v.len() && v[i].0@ == k
}

/// The pairs as a map from key to value.
pub open spec fn pairs_map<V: DeepView>(v: Seq<(String, V)>) -> Map<Seq<char>, V::V> {
    Map::new(
        |k: Seq<char>| has_key(v, k),
        |k: Seq<char>| v[choose|i: int| 0 <= i < v.len() && v[i].0@ == k].1.deep_view(),
    )
}

/// In a list without repeated keys, the pair at `i` is what the map holds
/// for its key.
pub proof fn lemma_pairs_map_at<V: DeepView>(v: Seq<(String, V)>, i: int)
    requires
        unique_keys(v),
        0 <= i < v.len(),
    ensures
        pairs_map(v).contains_key(v[i].0@),
        pairs_map(v)[v[i].0@] == v[i].1.deep_view(),
{
    let k = v[i].0@;
    assert(has_key(v, k));
    let w = choose|w: int| 0 <= w < v.len() && v[w].0@ == k;
    assert(w == i);
}

/// A key that no pair carries is not in the map.
pub proof fn lemma_pairs_map_absent<V: DeepView>(v: Seq<(String, V)>, k: Seq<char>)
    requires
        forall|i: int| 0 <= i < v.len() ==> v[i].0@ != k,
    ensures
        !pairs_map(v).contains_key(k),
{
}

/// Two lists without repeated keys that hold the same pairs at the same
/// keys give the same map.
proof fn lemma_pairs_map_ext<V: DeepView>(a: Seq<(String, V)>, b: Seq<(String, V)>, m: Map<Seq<char>, V::V>)
    requires
        unique_keys(b),
        forall|k: Seq<char>| #[trigger] has_key(b, k) <==> m.contains_key(k),
        forall|i: int| 0 <= i < b.len() ==> m[#[trigger] b[i].0@] == b[i].1.deep_view(),
    ensures
        pairs_map(b) == m,
{
    assert forall|k: Seq<char>| #[trigger] pairs_map(b).contains_key(k) implies pairs_map(b)[k] == m[k] by {
        let w = choose|w: int| 0 <= w < b.len() && b[w].0@ == k;
        lemma_pairs_map_at(b, w);
    }
    assert(pairs_map(b) =~= m);
}

/// Removing a pair from a list without repeated keys removes its key from
/// the map.
pub proof fn lemma_pairs_map_remove<V: DeepView>(s: Seq<(String, V)>, i: int)
    requires
        unique_keys(s),
        0 <= i < s.len(),
    ensures
        unique_keys(s.remove(i)),
        pairs_map(s.remove(i)) == pairs_map(s).remove(s[i].0@),
{
    let t = s.remove(i);
    let k = s[i].0@;
    let m = pairs_map(s).remove(k);
    assert forall|a: int, b: int| 0 <= a < t.len() && 0 <= b < t.len() && a != b implies t[a].0@ != t[b].0@ by {
        let a2 = if a < i { a } else { a + 1 };
        let b2 = if b < i { b } else { b + 1 };
        assert(t[a] == s[a2]);
        assert(t[b] == s[b2]);
    }
    assert forall|q: Seq<char>| #[trigger] has_key(t, q) <==> m.contains_key(q) by {
        if has_key(t, q) {
            let w = choose|w: int| 0 <= w < t.len() && t[w].0@ == q;
            let w2 = if w < i { w } else { w + 1 };
            assert(t[w] == s[w2]);
            lemma_pairs_map_at(s, w2);
        }
        if m.contains_key(q) {
            let w = choose|w: int| 0 <= w < s.len() && s[w].0@ == q;
            assert(w != i);
            let w2 = if w < i { w } else { w - 1 };
            assert(t[w2] == s[w]);
        }
    }
    assert forall|j: int| 0 <= j < t.len() implies m[#[trigger] t[j].0@] == t[j].1.deep_view() by {
        let j2 = if j < i { j } else { j + 1 };
        assert(t[j] == s[j2]);
        lemma_pairs_map_at(s, j2);
    }
    lemma_pairs_map_ext(s, t, m);
}

/// Appending a pair with a new key adds that key to the map.
pub proof fn lemma_pairs_map_push<V: DeepView>(s: Seq<(String, V)>, e: (String, V))
    requires
        unique_keys(s.push(e)),
    ensures
        pairs_map(s.push(e)) == pairs_map(s).insert(e.0@, e.1.deep_view()),
{
    let t = s.push(e);
    let n = s.len() as int;
    let m = pairs_map(s).insert(e.0@, e.1.deep_view());
    assert(unique_keys(s)) by {
        assert forall|i: int, j: int| 0 <= i < s.len() && 0 <= j < s.len() && i != j implies s[i].0@ != s[j].0@ by {
            assert(t[i] == s[i]);
            assert(t[j] == s[j]);
        }
    }
    assert forall|q: Seq<char>| #[trigger] has_key(t, q) <==> m.contains_key(q) by {
        if has_key(s, q) {
            let w = choose|w: int| 0 <= w < s.len() && s[w].0@ == q;
            assert(t[w] == s[w]);
        }
        if has_key(t, q) && q != e.0@ {
            let w = choose|w: int| 0 <= w < t.len() && t[w].0@ == q;
            assert(w != n);
            assert(t[w] == s[w]);
        }
        if q == e.0@ {
            assert(t[n] == e);
        }
    }
    assert forall|j: int| 0 <= j < t.len() implies m[#[trigger] t[j].0@] == t[j].1.deep_view() by {
        if j != n {
            assert(t[j] == s[j]);
            assert(t[j].0@ != t[n].0@);
            lemma_pairs_map_at(s, j);
        }
    }
    lemma_pairs_map_ext(s, t, m);
}

/// Index of the pair with the given key, if any.
pub fn find_key<V: DeepView>(v: &Vec<(String, V)>, key: &str) -> (r: Option<usize>)
    ensures
        r matches Some(i) ==> i < v@.len() && v@[i as int].0@ == key@,
        r is None ==> forall|i: int| 0 <= i < v@.len() ==> v@[i].0@ != key@,
{
    let mut i: usize = 0;
    while i < v.len()
        invariant
            i <= v@.len(),
            forall|j: int| 0 <= j < i ==> v@[j].0@ != key@,
        decreases v@.len() - i,
    {
        if text_eq(v[i].0.as_str(), key) {
            return Some(i);
        }
        i = i + 1;
    }
    None
}

/// The value stored under `key`, if any.
pub fn get_pair<'a, V: DeepView>(v: &'a Vec<(String, V)>, key: &str) -> (r: Option<&'a V>)
    requires
        unique_keys(v@),
    ensures
        r is Some <==> pairs_map(v@).contains_key(key@),
        r matches Some(s) ==> s.deep_view() == pairs_map(v@)[key@],
{
    match find_key(v, key) {
        Some(i) => {
            proof { lemma_pairs_map_at(v@, i as int); }
            Some(&v[i].1)
        },
        None => {
            proof { lemma_pairs_map_absent(v@, key@); }
            None
        },
    }
}

/// Stores `value` under `key`: the pair with that key is replaced in place,
/// or a new pair is appended.
pub fn insert_pair<V: DeepView>(v: &mut Vec<(String, V)>, key: String, value: V)
    requires
        unique_keys(old(v)@),
    ensures
        unique_keys(final(v)@),
        pairs_map(final(v)@) == pairs_map(old(v)@).insert(key@, value.deep_view()),
        final(v)@.len() == old(v)@.len() + (if pairs_map(old(v)@).contains_key(key@) { 0int } else { 1int }),
        !pairs_map(old(v)@).contains_key(key@) ==> final(v)@ == old(v)@.push((key, value)),
{
    let ghost old_v = v@;
    let ghost k = key@;
    let ghost val = value.deep_view();
    match find_key(v, key.as_str()) {
        Some(i) => {
            proof { lemma_pairs_map_at(old_v, i as int); }
            v.set(i, (key, value));
            proof {
                let nv = v@;
                let m = pairs_map(old_v).insert(k, val);
                assert(nv =~= old_v.update(i as int, nv[i as int]));
                assert(unique_keys(nv));
                assert forall|q: Seq<char>| #[trigger] has_key(nv, q) <==> m.contains_key(q) by {
                    if q != k {
                        if has_key(old_v, q) {
                            let w = choose|w: int| 0 <= w < old_v.len() && old_v[w].0@ == q;
                            assert(nv[w].0@ == q);
                        }
                        if has_key(nv, q) {
                            let w = choose|w: int| 0 <= w < nv.len() && nv[w].0@ == q;
                            assert(old_v[w].0@ == q);
                        }
                    } else {
                        assert(nv[i as int].0@ == q);
                    }
                }
                assert forall|j: int| 0 <= j < nv.len() implies m[#[trigger] nv[j].0@] == nv[j].1.deep_view() by {
                    if j != i {
                        lemma_pairs_map_at(old_v, j);
                    }
                }
                lemma_pairs_map_ext(old_v, nv, m);
            }
        },
        None => {
            proof { lemma_pairs_map_absent(old_v, k); }
            v.push((key, value));
            proof {
                let nv = v@;
                let n = old_v.len() as int;
                let m = pairs_map(old_v).insert(k, val);
                assert(nv =~= old_v.push(nv[n]));
                assert(unique_keys(nv));
                assert forall|q: Seq<char>| #[trigger] has_key(nv, q) <==> m.contains_key(q) by {
                    if q != k {
                        if has_key(old_v, q) {
                            let w = choose|w: int| 0 <= w < old_v.len() && old_v[w].0@ == q;
                            assert(nv[w].0@ == q);
                        }
                        if has_key(nv, q) {
                            let w = choose|w: int| 0 <= w < nv.len() && nv[w].0@ == q;
                            assert(old_v[w].0@ == q);
                        }
                    } else {
                        assert(nv[n].0@ == q);
                    }
                }
                assert forall|j: int| 0 <= j < nv.len() implies m[#[trigger] nv[j].0@] == nv[j].1.deep_view() by {
                    if j != n {
                        lemma_pairs_map_at(old_v, j);
                    }
                }
                lemma_pairs_map_ext(old_v, nv, m);
            }
        },
    }
}

/// Removes the pair with the given key, if there is one.
pub fn remove_pair<V: DeepView>(v: &mut Vec<(String, V)>, key: &str)
    requires
        unique_keys(old(v)@),
    ensures
        unique_keys(final(v)@),
        pairs_map(final(v)@) == pairs_map(old(v)@).remove(key@),
{
    let ghost old_v = v@;
    let ghost k = key@;
    match find_key(v, key) {
        Some(i) => {
            v.remove(i);
            proof {
                let nv = v@;
                let m = pairs_map(old_v).remove(k);
                assert(nv =~= old_v.remove(i as int));
                assert(unique_keys(nv)) by {
                    assert forall|a: int, b: int| 0 <= a < nv.len() && 0 <= b < nv.len() && a != b
                        implies nv[a].0@ != nv[b].0@ by {
                        let a2 = if a < i { a } else { a + 1 };
                        let b2 = if b < i { b } else { b + 1 };
                        assert(nv[a] == old_v[a2]);
                        assert(nv[b] == old_v[b2]);
                    }
                }
                assert forall|q: Seq<char>| #[trigger] has_key(nv, q) <==> m.contains_key(q) by {
                    if has_key(old_v, q) && q != k {
                        let w = choose|w: int| 0 <= w < old_v.len() && old_v[w].0@ == q;
                        assert(w != i);
                        let w2 = if w < i { w } else { w - 1 };
                        assert(nv[w2] == old_v[w]);
                    }
                    if has_key(nv, q) {
                        let w = choose|w: int| 0 <= w < nv.len() && nv[w].0@ == q;
                        let w2 = if w < i { w } else { w + 1 };
                        assert(old_v[w2] == nv[w]);
                        assert(w2 != i);
                    }
                }
                assert forall|j: int| 0 <= j < nv.len() implies m[#[trigger] nv[j].0@] == nv[j].1.deep_view() by {
                    let j2 = if j < i { j } else { j + 1 };
                    assert(old_v[j2] == nv[j]);
                    assert(j2 != i);
                    lemma_pairs_map_at(old_v, j2);
                }
                lemma_pairs_map_ext(old_v, nv, m);
            }
        },
        None => {
            proof {
                lemma_pairs_map_absent(old_v, k);
                assert(pairs_map(old_v).remove(k) =~= pairs_map(old_v));
            }
        },
    }
}

} // verus!
