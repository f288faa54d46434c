//! Selecting the elements of a list that satisfy a predicate.

use vstd::prelude::*;

verus! {

/// The elements of `s` that satisfy `p`, in order.
pub open spec fn select<T>(s: Seq<T>, p: spec_fn(T) -> bool) -> Seq<T>
    decreases s.len(),
{
    if s.len() == 0 {
        Seq::empty()
    } else if p(s.last()) {
        select(s.drop_last(), p).push(s.last())
    } else {
        select(s.drop_last(), p)
    }
}

/// The values behind a list of references.
pub open spec fn derefs<'a, T>(s: Seq<&'a T>) -> Seq<T> {
    s.map_values(|x: &'a T| *x)
}

/// References to the elements of `v` that `f` accepts, in order; `f`
/// decides `p`.
pub fn select_refs<'a, T, F: Fn(&T) -> bool>(v: &'a Vec<T>, f: F, Ghost(p): Ghost<spec_fn(T) -> bool>) -> (r: Vec<&'a T>)
    requires
        forall|x: &T| #[trigger] f.requires((x,)),
        forall|x: &T, b: bool| f.ensures((x,), b) ==> b == p(*x),
    ensures
        derefs(r@) == select(v@, p),
{
    let mut r: Vec<&'a T> = Vec::new();
    let mut i: usize = 0;
    while i < v.len()
        invariant
            0 <= i <= v@.len(),
            forall|x: &T| #[trigger] f.requires((x,)),
            forall|x: &T, b: bool| f.ensures((x,), b) ==> b == p(*x),
            derefs(r@) == select(v@.take(i as int), p),
        decreases v.len() - i,
    {
        proof {
            assert(v@.take(i + 1).drop_last() =~= v@.take(i as int));
        }
        let x = &v[i];
        let ghost before = r@;
        if f(x) {
            r.push(x);
            assert(derefs(r@) =~= derefs(before).push(*x));
        }
        i = i + 1;
    }
    proof {
        assert(v@.take(v@.len() as int) =~= v@);
    }
    r
}

/// Every selected element satisfies the predicate and comes from the list.
pub proof fn law_select_sound<T>(s: Seq<T>, p: spec_fn(T) -> bool, i: int)
    requires
        0 <= i < select(s, p).len(),
    ensures
        p(select(s, p)[i]),
        s.contains(select(s, p)[i]),
    decreases s.len(),
{
    if s.len() > 0 {
        let r = select(s.drop_last(), p);
        if p(s.last()) && i == r.len() {
            assert(s[s.len() - 1] == s.last());
        } else {
            law_select_sound(s.drop_last(), p, i);
            let j = choose|j: int| 0 <= j < s.drop_last().len() && s.drop_last()[j] == select(s, p)[i];
            assert(s[j] == select(s, p)[i]);
        }
    }
}


/// `s[i]` is the last element of `s` with its key.
pub open spec fn last_of_key<T>(s: Seq<T>, k: spec_fn(T) -> Seq<char>, i: int) -> bool {
    forall|j: int| i < j < s.len() ==> k(#[trigger] s[j]) != k(s[i])
}

/// The elements of `s` that are the last of their key, in order: what a
/// map filled from `s` in order holds, one entry per key.
pub open spec fn last_per_key<T>(s: Seq<T>, k: spec_fn(T) -> Seq<char>) -> Seq<T> {
    select(
        Seq::new(s.len(), |i: int| (i, s[i])),
        |e: (int, T)| last_of_key(s, k, e.0),
    ).map_values(|e: (int, T)| e.1)
}

/// References to the elements of `v` that are the last with their key, in
/// order; `same` decides whether two elements have the same key under `k`.
pub fn last_per_key_refs<'a, T, F: Fn(&T, &T) -> bool>(
    v: &'a Vec<T>,
    same: F,
    Ghost(k): Ghost<spec_fn(T) -> Seq<char>>,
) -> (r: Vec<&'a T>)
    requires
        forall|x: &T, y: &T| #[trigger] same.requires((x, y)),
        forall|x: &T, y: &T, b: bool| same.ensures((x, y), b) ==> b == (k(*x) == k(*y)),
    ensures
        derefs(r@) == last_per_key(v@, k),
{
    let ghost idx = Seq::new(v@.len(), |i: int| (i, v@[i]));
    let ghost p = |e: (int, T)| last_of_key(v@, k, e.0);
    let mut r: Vec<&'a T> = Vec::new();
    let mut i: usize = 0;
    while i < v.len()
        invariant
            0 <= i <= v@.len(),
            idx == Seq::new(v@.len(), |i: int| (i, v@[i])),
            p == (|e: (int, T)| last_of_key(v@, k, e.0)),
            forall|x: &T, y: &T| #[trigger] same.requires((x, y)),
            forall|x: &T, y: &T, b: bool| same.ensures((x, y), b) ==> b == (k(*x) == k(*y)),
            derefs(r@) == select(idx.take(i as int), p).map_values(|e: (int, T)| e.1),
        decreases v.len() - i,
    {
        let mut last = true;
        let mut j: usize = i + 1;
        while j < v.len()
            invariant
                i < v@.len(),
                i + 1 <= j <= v@.len(),
                forall|x: &T, y: &T| #[trigger] same.requires((x, y)),
                forall|x: &T, y: &T, b: bool| same.ensures((x, y), b) ==> b == (k(*x) == k(*y)),
                last == (forall|m: int| i < m < j ==> k(#[trigger] v@[m]) != k(v@[i as int])),
            decreases v.len() - j,
        {
            if same(&v[j], &v[i]) {
                last = false;
            }
            j = j + 1;
        }
        proof {
            assert(idx.take(i + 1).drop_last() =~= idx.take(i as int));
            assert(idx.take(i + 1).last() == (i as int, v@[i as int]));
            assert(last == p((i as int, v@[i as int])));
        }
        let ghost before = r@;
        if last {
            r.push(&v[i]);
            assert(derefs(r@) =~= derefs(before).push(v@[i as int]));
            assert(select(idx.take(i + 1), p).map_values(|e: (int, T)| e.1) =~= select(
                idx.take(i as int),
                p,
            ).map_values(|e: (int, T)| e.1).push(v@[i as int]));
        }
        i = i + 1;
    }
    proof {
        assert(idx.take(v@.len() as int) =~= idx);
    }
    r
}


/// Two selected elements come from positions in the same order.
pub proof fn lemma_select_order<T>(t: Seq<T>, p: spec_fn(T) -> bool, a: int, b: int)
    requires
        0 <= a < b < select(t, p).len(),
    ensures
        exists|ja: int, jb: int|
            0 <= ja < jb < t.len() && t[ja] == select(t, p)[a] && t[jb] == select(t, p)[b] && p(
                t[ja],
            ) && p(t[jb]),
    decreases t.len(),
{
    let r = select(t.drop_last(), p);
    if p(t.last()) && b == r.len() {
        law_select_sound(t.drop_last(), p, a);
        let ja = choose|j: int| 0 <= j < t.drop_last().len() && t.drop_last()[j] == r[a];
        assert(t[ja] == select(t, p)[a]);
        assert(t[t.len() - 1] == select(t, p)[b]);
        assert(p(t[ja])) by {
            law_select_sound(t.drop_last(), p, a);
        }
    } else {
        lemma_select_order(t.drop_last(), p, a, b);
        let (ja, jb) = choose|ja: int, jb: int|
            0 <= ja < jb < t.drop_last().len() && t.drop_last()[ja] == r[a] && t.drop_last()[jb]
                == r[b] && p(t.drop_last()[ja]) && p(t.drop_last()[jb]);
        assert(t[ja] == select(t, p)[a] && t[jb] == select(t, p)[b]);
    }
}

/// Every element that satisfies the predicate is selected.
pub proof fn lemma_select_complete<T>(t: Seq<T>, p: spec_fn(T) -> bool, j: int)
    requires
        0 <= j < t.len(),
        p(t[j]),
    ensures
        exists|a: int| 0 <= a < select(t, p).len() && select(t, p)[a] == t[j],
    decreases t.len(),
{
    if j == t.len() - 1 {
        let r = select(t.drop_last(), p);
        assert(select(t, p)[r.len() as int] == t[j]);
    } else {
        lemma_select_complete(t.drop_last(), p, j);
        let a = choose|a: int| 0 <= a < select(t.drop_last(), p).len() && select(t.drop_last(), p)[a] == t.drop_last()[j];
        assert(select(t, p)[a] == t[j]);
    }
}

/// Among the positions from `i` on, one holds the last element with the
/// key of `s[i]`.
proof fn lemma_last_occurrence<T>(s: Seq<T>, k: spec_fn(T) -> Seq<char>, i: int)
    requires
        0 <= i < s.len(),
    ensures
        exists|j: int| i <= j < s.len() && k(s[j]) == k(s[i]) && last_of_key(s, k, j),
    decreases s.len() - i,
{
    if last_of_key(s, k, i) {
    } else {
        let j = choose|j: int| i < j < s.len() && k(#[trigger] s[j]) == k(s[i]);
        lemma_last_occurrence(s, k, j);
    }
}

/// What a map filled in order holds, one entry per key: no key occurs
/// twice, every key of the list occurs, and each entry is the last element
/// of the list with its key.
pub proof fn law_last_per_key<T>(s: Seq<T>, k: spec_fn(T) -> Seq<char>)
    ensures
        forall|a: int, b: int|
            0 <= a < b < last_per_key(s, k).len() ==> k(last_per_key(s, k)[a]) != k(
                last_per_key(s, k)[b],
            ),
        forall|i: int|
            0 <= i < s.len() ==> exists|a: int|
                0 <= a < last_per_key(s, k).len() && k(#[trigger] last_per_key(s, k)[a]) == k(
                    #[trigger] s[i],
                ),
        forall|a: int|
            0 <= a < last_per_key(s, k).len() ==> exists|j: int|
                0 <= j < s.len() && #[trigger] s[j] == #[trigger] last_per_key(s, k)[a] && last_of_key(
                    s,
                    k,
                    j,
                ),
{
    let idx = Seq::new(s.len(), |i: int| (i, s[i]));
    let p = |e: (int, T)| last_of_key(s, k, e.0);
    let sel = select(idx, p);
    let r = last_per_key(s, k);
    assert(r == sel.map_values(|e: (int, T)| e.1));
    assert forall|a: int, b: int| 0 <= a < b < r.len() implies k(r[a]) != k(r[b]) by {
        lemma_select_order(idx, p, a, b);
        let (ja, jb) = choose|ja: int, jb: int|
            0 <= ja < jb < idx.len() && idx[ja] == sel[a] && idx[jb] == sel[b] && p(idx[ja]) && p(
                idx[jb],
            );
        assert(last_of_key(s, k, ja));
        assert(s[jb] == r[b] && s[ja] == r[a]);
        assert(k(s[jb]) != k(s[ja]));
    }
    assert forall|i: int| 0 <= i < s.len() implies exists|a: int|
        0 <= a < r.len() && k(#[trigger] r[a]) == k(#[trigger] s[i]) by {
        lemma_last_occurrence(s, k, i);
        let j = choose|j: int| i <= j < s.len() && k(s[j]) == k(s[i]) && last_of_key(s, k, j);
        assert(p(idx[j]));
        lemma_select_complete(idx, p, j);
        let a = choose|a: int| 0 <= a < sel.len() && sel[a] == idx[j];
        assert(r[a] == s[j]);
    }
    assert forall|a: int| 0 <= a < r.len() implies exists|j: int|
        0 <= j < s.len() && #[trigger] s[j] == #[trigger] r[a] && last_of_key(s, k, j) by {
        law_select_sound(idx, p, a);
        let j = choose|j: int| 0 <= j < idx.len() && idx[j] == sel[a];
        assert(s[j] == r[a]);
    }
}

} // verus!
