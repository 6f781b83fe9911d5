//! An insertion sort of values by a text key, in lexicographic order.

use vstd::prelude::*;
use vstd::multiset::Multiset;
use crate::text::{seq_le, str_le, lemma_seq_le_total, lemma_seq_le_trans};

verus! {

/// A value ordered by a text key.
pub trait Keyed {
    spec fn key(&self) -> Seq<char>;

    fn key_str(&self) -> (r: &str)
        ensures
            r@ == self.key();
}

/// The keys of `s` are in lexicographic order.
pub open spec fn sorted_by_key<T: Keyed>(s: Seq<T>) -> bool {
    forall|i: int, j: int| 0 <= i < j < s.len() ==> seq_le(#[trigger] s[i].key(), #[trigger] s[j].key())
}

proof fn lemma_multiset_insert<T>(s: Seq<T>, p: int, x: T)
    requires
        0 <= p <= s.len(),
    ensures
        s.insert(p, x).to_multiset() =~= s.to_multiset().insert(x),
{
    broadcast use vstd::seq_lib::group_to_multiset_ensures;
    let t = s.insert(p, x);
    assert(t.remove(p) =~= s);
    assert(t.to_multiset().count(x) > 0) by {
        assert(t[p] == x);
        assert(t.contains(x));
    }
    assert(t.to_multiset().remove(x).insert(x) =~= t.to_multiset());
}

/// Sorts by key; the result holds the same values.
pub fn sort_by_key<T: Keyed>(v: Vec<T>) -> (r: Vec<T>)
    ensures
        sorted_by_key(r@),
        r@.to_multiset() == v@.to_multiset(),
        r@.len() == v@.len(),
{
    broadcast use vstd::seq_lib::group_to_multiset_ensures;
    let ghost original = v@;
    let n = v.len();
    let mut rest = v;
    let mut out: Vec<T> = Vec::new();
    let mut i: usize = 0;
    assert(rest@ =~= original.subrange(0, n as int));
    assert(original.subrange(0, 0) =~= Seq::<T>::empty());
    while i < n
        invariant
            n == original.len(),
            i <= n,
            rest@ == original.subrange(i as int, n as int),
            out@.len() == i,
            sorted_by_key(out@),
            out@.to_multiset() == original.subrange(0, i as int).to_multiset(),
        decreases n - i,
    {
        let x = rest.remove(0);
        assert(rest@ =~= original.subrange(i + 1, n as int));
        assert(x == original[i as int]);
        let mut p: usize = 0;
        while p < out.len() && str_le(out[p].key_str(), x.key_str())
            invariant
                p <= out@.len(),
                forall|k: int| 0 <= k < p ==> seq_le(#[trigger] out@[k].key(), x.key()),
            decreases out@.len() - p,
        {
            p = p + 1;
        }
        let ghost before = out@;
        proof {
            if p < out@.len() {
                lemma_seq_le_total(out@[p as int].key(), x.key());
            }
        }
        out.insert(p, x);
        proof {
            assert(out@ == before.insert(p as int, x));
            assert forall|a: int, b: int| 0 <= a < b < out@.len() implies seq_le(
                #[trigger] out@[a].key(),
                #[trigger] out@[b].key(),
            ) by {
                if a < p && b == p {
                } else if a < p && b > p {
                    assert(out@[b] == before[b - 1]);
                    if p < before.len() {
                        lemma_seq_le_trans(out@[a].key(), x.key(), before[p as int].key());
                        if b - 1 > p {
                            lemma_seq_le_trans(out@[a].key(), before[p as int].key(), before[b - 1].key());
                        }
                    }
                } else if a == p {
                    assert(out@[b] == before[b - 1]);
                    if b - 1 > p {
                        lemma_seq_le_trans(x.key(), before[p as int].key(), before[b - 1].key());
                    }
                } else if a < p {
                } else {
                    assert(out@[a] == before[a - 1]);
                    assert(out@[b] == before[b - 1]);
                }
            }
            lemma_multiset_insert(before, p as int, x);
            assert(original.subrange(0, i + 1) =~= original.subrange(0, i as int).push(x));
            vstd::seq_lib::to_multiset_build(original.subrange(0, i as int), x);
            assert(out@.to_multiset() =~= before.to_multiset().insert(x));
        }
        i = i + 1;
    }
    assert(original.subrange(0, n as int) =~= original);
    out
}

} // verus!
