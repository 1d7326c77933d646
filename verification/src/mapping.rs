//! Label-to-target mappings held as lists of pairs; later pairs override
//! earlier ones, so a list denotes one finite map.

use vstd::prelude::*;

use crate::text::str_eq;

verus! {

/// The map a list of pairs denotes.
pub open spec fn targets_map(v: Seq<(String, String)>) -> Map<Seq<char>, Seq<char>>
    decreases v.len(),
{
    if v.len() == 0 {
        Map::empty()
    } else {
        targets_map(v.drop_last()).insert(v.last().0@, v.last().1@)
    }
}

/// A key is mapped exactly when some pair has it.
pub proof fn lemma_targets_map_dom(v: Seq<(String, String)>, k: Seq<char>)
    ensures
        targets_map(v).dom().contains(k) <==> exists|i: int| 0 <= i < v.len() && (#[trigger] v[i]).0@ == k,
    decreases v.len(),
{
    if v.len() > 0 {
        lemma_targets_map_dom(v.drop_last(), k);
        if exists|i: int| 0 <= i < v.drop_last().len() && (#[trigger] v.drop_last()[i]).0@ == k {
            let i = choose|i: int| 0 <= i < v.drop_last().len() && (#[trigger] v.drop_last()[i]).0@ == k;
            assert(v[i] == v.drop_last()[i]);
        }
        if exists|i: int| 0 <= i < v.len() && (#[trigger] v[i]).0@ == k {
            let i = choose|i: int| 0 <= i < v.len() && (#[trigger] v[i]).0@ == k;
            if i < v.len() - 1 {
                assert(v.drop_last()[i] == v[i]);
            }
        }
    }
}

/// The value of `key` in the map a list of pairs denotes.
pub fn map_get<'a>(v: &'a Vec<(String, String)>, key: &str) -> (r: Option<&'a String>)
    ensures
        r is Some == targets_map(v@).dom().contains(key@),
        r matches Some(x) ==> x@ == targets_map(v@)[key@],
{
    let mut k = v.len();
    assert(v@.take(k as int) =~= v@);
    while k > 0
        invariant
            k <= v@.len(),
            targets_map(v@).dom().contains(key@) == targets_map(v@.take(k as int)).dom().contains(key@),
            targets_map(v@).dom().contains(key@) ==> targets_map(v@)[key@] == targets_map(
                v@.take(k as int),
            )[key@],
        decreases k,
    {
        let ghost pre = v@.take(k as int);
        assert(pre.drop_last() =~= v@.take(k - 1));
        assert(pre.last() == v@[k - 1]);
        if str_eq(v[k - 1].0.as_str(), key) {
            return Some(&v[k - 1].1);
        }
        k = k - 1;
    }
    assert(v@.take(0) =~= Seq::<(String, String)>::empty());
    None
}

/// Whether two lists of pairs denote the same map.
pub fn same_targets(a: &Vec<(String, String)>, b: &Vec<(String, String)>) -> (r: bool)
    ensures
        r == (targets_map(a@) == targets_map(b@)),
{
    let n = a.len();
    for i in 0..n
        invariant
            n == a@.len(),
            forall|j: int|
                0 <= j < i ==> targets_map(b@).dom().contains((#[trigger] a@[j]).0@)
                    && targets_map(b@)[a@[j].0@] == targets_map(a@)[a@[j].0@],
    {
        proof {
            lemma_targets_map_dom(a@, a@[i as int].0@);
        }
        let x = map_get(a, a[i].0.as_str());
        match map_get(b, a[i].0.as_str()) {
            None => {
                return false;
            },
            Some(y) => {
                if !str_eq(x.unwrap().as_str(), y.as_str()) {
                    return false;
                }
            },
        }
    }
    let m = b.len();
    for j in 0..m
        invariant
            m == b@.len(),
            forall|i: int| 0 <= i < j ==> targets_map(a@).dom().contains((#[trigger] b@[i]).0@),
    {
        if map_get(a, b[j].0.as_str()).is_none() {
            proof {
                lemma_targets_map_dom(b@, b@[j as int].0@);
            }
            return false;
        }
    }
    assert(targets_map(a@) =~= targets_map(b@)) by {
        assert forall|k: Seq<char>| #[trigger] targets_map(a@).dom().contains(k) implies targets_map(
            b@,
        ).dom().contains(k) && targets_map(b@)[k] == targets_map(a@)[k] by {
            lemma_targets_map_dom(a@, k);
            let i = choose|i: int| 0 <= i < a@.len() && (#[trigger] a@[i]).0@ == k;
        }
        assert forall|k: Seq<char>| #[trigger] targets_map(b@).dom().contains(k) implies targets_map(
            a@,
        ).dom().contains(k) by {
            lemma_targets_map_dom(b@, k);
            let i = choose|i: int| 0 <= i < b@.len() && (#[trigger] b@[i]).0@ == k;
        }
    }
    true
}

} // verus!
