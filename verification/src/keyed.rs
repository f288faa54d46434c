//! Lists of (string key, value) pairs that stand for maps.

use vstd::prelude::*;
use crate::text::str_eq;

verus! {

/// The map that a list of (key, value) pairs stands for: later entries
/// override earlier ones.
pub open spec fn entry_map<V>(v: Seq<(String, V)>) -> Map<Seq<char>, V>
    decreases v.len(),
{
    if v.len() == 0 {
        Map::empty()
    } else {
        entry_map(v.drop_last()).insert(v.last().0@, v.last().1)
    }
}

/// No key occurs twice.
pub open spec fn distinct_keys<V>(v: Seq<(String, V)>) -> bool {
    forall|i: int, j: int| 0 <= i < j < v.len() ==> v[i].0@ != v[j].0@
}

/// The entries whose key is not `key`, in order.
pub open spec fn without_key<V>(v: Seq<(String, V)>, key: Seq<char>) -> Seq<
    (String, V),
>
    decreases v.len(),
{
    if v.len() == 0 {
        Seq::empty()
    } else if v.last().0@ == key {
        without_key(v.drop_last(), key)
    } else {
        without_key(v.drop_last(), key).push(v.last())
    }
}

pub proof fn lemma_map_keys<V>(v: Seq<(String, V)>, k: Seq<char>)
    requires
        entry_map(v).contains_key(k),
    ensures
        exists|j: int| 0 <= j < v.len() && #[trigger] v[j].0@ == k,
    decreases v.len(),
{
    if v.last().0@ != k {
        lemma_map_keys(v.drop_last(), k);
        let j = choose|j: int| 0 <= j < v.drop_last().len() && #[trigger] v.drop_last()[j].0@ == k;
        assert(v[j].0@ == k);
    } else {
        assert(v[v.len() - 1].0@ == k);
    }
}

proof fn lemma_without_key<V>(v: Seq<(String, V)>, key: Seq<char>)
    ensures
        entry_map(without_key(v, key)) == entry_map(v).remove(key),
        distinct_keys(v) ==> distinct_keys(without_key(v, key)),
        forall|i: int|
            0 <= i < without_key(v, key).len() ==> #[trigger] without_key(v, key)[i].0@
                != key,
    decreases v.len(),
{
    if v.len() > 0 {
        lemma_without_key(v.drop_last(), key);
        let w = without_key(v.drop_last(), key);
        if v.last().0@ == key {
            assert(entry_map(v).remove(key) =~= entry_map(v.drop_last()).remove(key));
        } else {
            let ww = w.push(v.last());
            assert(ww.drop_last() =~= w);
            assert(entry_map(ww) =~= entry_map(v).remove(key));
            if distinct_keys(v) {
                assert forall|a: int, b: int| 0 <= a < b < ww.len() implies ww[a].0@ != ww[b].0@ by {
                    if b == w.len() && ww[a].0@ == ww[b].0@ {
                        lemma_map_has_entries(w, a);
                        assert(entry_map(v.drop_last()).contains_key(w[a].0@));
                        lemma_map_keys(v.drop_last(), w[a].0@);
                        let j = choose|j: int| 0 <= j < v.drop_last().len() && #[trigger] v.drop_last()[j].0@ == w[a].0@;
                        assert(v[j].0@ == v[v.len() - 1].0@);
                    }
                }
            }
        }
    }
}

pub proof fn lemma_map_has_entries<V>(v: Seq<(String, V)>, i: int)
    requires
        0 <= i < v.len(),
    ensures
        entry_map(v).contains_key(v[i].0@),
    decreases v.len(),
{
    if i < v.len() - 1 {
        lemma_map_has_entries(v.drop_last(), i);
    }
}

/// Set the value of `feature`, dropping earlier entries for it.
pub fn set_entry<V>(v: &mut Vec<(String, V)>, feature: String, val: V)
    ensures
        distinct_keys(old(v)@) ==> distinct_keys(final(v)@),
        entry_map(final(v)@) == entry_map(old(v)@).insert(feature@, val),
{
    let ghost key = feature@;
    let mut kept: Vec<(String, V)> = Vec::new();
    let ghost orig = v@;
    let ghost mut seen: Seq<(String, V)> = Seq::empty();
    while v.len() > 0
        invariant
            orig == seen + v@,
            key == feature@,
            kept@ == without_key(seen, key),
        decreases v@.len(),
    {
        let e = v.remove(0);
        proof {
            assert((seen.push(e)).drop_last() =~= seen);
            assert(orig == seen.push(e) + v@) by {
                assert(orig =~= seen.push(e) + v@);
            }
            seen = seen.push(e);
        }
        if !str_eq(e.0.as_str(), feature.as_str()) {
            kept.push(e);
        }
    }
    proof {
        assert(seen =~= orig);
    }
    proof {
        lemma_without_key(orig, key);
    }
    let ghost k0 = kept@;
    kept.push((feature, val));
    proof {
        assert(kept@.drop_last() =~= k0);
        assert(entry_map(kept@) =~= entry_map(orig).insert(key, val));
        if distinct_keys(orig) {
            assert forall|a: int, b: int| 0 <= a < b < kept@.len() implies kept@[a].0@ != kept@[b].0@ by {
                if b == k0.len() {
                    assert(k0[a].0@ != key);
                }
            }
        }
    }
    *v = kept;
}



/// The last entry with a key gives the map's value there.
pub proof fn lemma_last_entry<V>(v: Seq<(String, V)>, i: int)
    requires
        0 <= i < v.len(),
        forall|j: int| i < j < v.len() ==> #[trigger] v[j].0@ != v[i].0@,
    ensures
        entry_map(v).contains_key(v[i].0@),
        entry_map(v)[v[i].0@] == v[i].1,
    decreases v.len(),
{
    if i < v.len() - 1 {
        assert(v.last().0@ != v[i].0@) by {
            assert(v[v.len() - 1] == v.last());
        }
        lemma_last_entry(v.drop_last(), i);
    }
}

/// The value of `key`: that of its last entry.
pub fn get_entry<'a, V>(v: &'a Vec<(String, V)>, key: &str) -> (r: Option<&'a V>)
    ensures
        match r {
            Some(x) => entry_map(v@).contains_key(key@) && *x == entry_map(v@)[key@],
            None => !entry_map(v@).contains_key(key@),
        },
{
    let mut i: usize = v.len();
    while i > 0
        invariant
            0 <= i <= v@.len(),
            forall|j: int| i <= j < v@.len() ==> #[trigger] v@[j].0@ != key@,
        decreases i,
    {
        i = i - 1;
        if str_eq(v[i].0.as_str(), key) {
            proof {
                lemma_last_entry(v@, i as int);
            }
            return Some(&v[i].1);
        }
    }
    proof {
        if entry_map(v@).contains_key(key@) {
            lemma_map_keys(v@, key@);
        }
    }
    None
}

} // verus!
