//! Stable ordering of items by a text key, the way `slice::sort_by` orders
//! them when it compares the keys: equal keys keep their original order.

use vstd::prelude::*;
use crate::text::{seq_less, str_less, to_lowercase, lowercase_of};

verus! {

/// `seq_less` never holds between a string and itself.
pub proof fn lemma_less_irreflexive(a: Seq<char>)
    ensures
        !seq_less(a, a),
    decreases a.len(),
{
    if a.len() > 0 {
        lemma_less_irreflexive(a.drop_first());
    }
}

/// `seq_less` is transitive.
pub proof fn lemma_less_transitive(a: Seq<char>, b: Seq<char>, c: Seq<char>)
    requires
        seq_less(a, b),
        seq_less(b, c),
    ensures
        seq_less(a, c),
    decreases a.len(),
{
    if a.len() > 0 && b.len() > 0 && c.len() > 0 {
        if a[0] == b[0] && b[0] == c[0] {
            lemma_less_transitive(a.drop_first(), b.drop_first(), c.drop_first());
        }
    }
}

/// Of two different strings one comes first.
pub proof fn lemma_less_total(a: Seq<char>, b: Seq<char>)
    ensures
        a == b || seq_less(a, b) || seq_less(b, a),
    decreases a.len(),
{
    if a.len() > 0 && b.len() > 0 && a[0] == b[0] {
        lemma_less_total(a.drop_first(), b.drop_first());
        if a.drop_first() == b.drop_first() {
            assert(a =~= seq![a[0]] + a.drop_first());
            assert(b =~= seq![b[0]] + b.drop_first());
        }
    } else if a.len() == 0 && b.len() == 0 {
        assert(a =~= b);
    }
}

/// Whether item `i` goes before item `j`: its key is smaller, or the keys
/// are equal and it came first.
pub open spec fn key_before(keys: Seq<Seq<char>>, i: int, j: int) -> bool {
    seq_less(keys[i], keys[j]) || (keys[i] == keys[j] && i < j)
}

/// `order` lists every index of `keys` once, in stable order of the keys.
pub open spec fn stable_order(keys: Seq<Seq<char>>, order: Seq<usize>) -> bool {
    &&& order.len() == keys.len()
    &&& forall|a: int| 0 <= a < order.len() ==> (order[a] as int) < keys.len()
    &&& forall|a: int, b: int| 0 <= a < b < order.len() ==> order[a] != order[b]
    &&& forall|a: int, b: int|
        0 <= a < b < order.len() ==> key_before(keys, order[a] as int, order[b] as int)
}

/// The keys of items: their names in lower case.
pub open spec fn lowercase_keys(names: Seq<Seq<char>>) -> Seq<Seq<char>> {
    names.map_values(|n: Seq<char>| lowercase_of(n))
}

/// Lower-cases every name.
pub fn to_lowercase_all(names: &Vec<String>) -> (res: Vec<String>)
    ensures
        res.deep_view() == lowercase_keys(names.deep_view()),
{
    let mut res: Vec<String> = Vec::new();
    let mut i: usize = 0;
    while i < names.len()
        invariant
            i <= names@.len(),
            res.deep_view() =~= lowercase_keys(names.deep_view()).take(i as int),
        decreases names@.len() - i,
    {
        let k = to_lowercase(names[i].as_str());
        let ghost before = res.deep_view();
        res.push(k);
        assert(res.deep_view() =~= before.push(k@));
        i = i + 1;
    }
    assert(lowercase_keys(names.deep_view()).take(i as int) =~= lowercase_keys(names.deep_view()));
    res
}

/// The indices of `keys` in stable order of the keys (insertion sort).
pub fn stable_sort_order(keys: &Vec<String>) -> (res: Vec<usize>)
    ensures
        stable_order(keys.deep_view(), res@),
{
    let ghost k = keys.deep_view();
    let n = keys.len();
    let mut order: Vec<usize> = Vec::new();
    let mut i: usize = 0;
    while i < n
        invariant
            n == k.len(),
            k == keys.deep_view(),
            i <= n,
            order@.len() == i,
            forall|a: int| 0 <= a < order@.len() ==> (order@[a] as int) < i,
            forall|a: int, b: int| 0 <= a < b < order@.len() ==> order@[a] != order@[b],
            forall|a: int, b: int|
                0 <= a < b < order@.len() ==> key_before(k, order@[a] as int, order@[b] as int),
        decreases n - i,
    {
        // First position whose key is strictly greater than the new key.
        let mut p: usize = 0;
        while p < order.len() && !str_less(keys[i].as_str(), keys[order[p]].as_str())
            invariant
                n == k.len(),
                k == keys.deep_view(),
                i < n,
                p <= order@.len(),
                forall|a: int| 0 <= a < order@.len() ==> (order@[a] as int) < i,
                forall|q: int| 0 <= q < p ==> !seq_less(k[i as int], k[order@[q] as int]),
            decreases order@.len() - p,
        {
            p = p + 1;
        }
        let ghost old_order = order@;
        proof {
            assert forall|q: int| p <= q < old_order.len() implies seq_less(
                k[i as int],
                k[old_order[q] as int],
            ) by {
                assert(seq_less(k[i as int], k[old_order[p as int] as int]));
                if q > p {
                    assert(key_before(k, old_order[p as int] as int, old_order[q] as int));
                    if seq_less(k[old_order[p as int] as int], k[old_order[q] as int]) {
                        lemma_less_transitive(
                            k[i as int],
                            k[old_order[p as int] as int],
                            k[old_order[q] as int],
                        );
                    }
                }
            }
            assert forall|q: int| 0 <= q < p implies key_before(
                k,
                old_order[q] as int,
                i as int,
            ) by {
                lemma_less_total(k[i as int], k[old_order[q] as int]);
            }
        }
        order.insert(p, i);
        proof {
            let o = order@;
            assert(o == old_order.insert(p as int, i));
            assert forall|a: int| 0 <= a < o.len() implies (o[a] as int) < i + 1 by {
                if a < p {
                    assert(o[a] == old_order[a]);
                } else if a > p {
                    assert(o[a] == old_order[a - 1]);
                }
            }
            assert forall|a: int, b: int| 0 <= a < b < o.len() implies o[a] != o[b] by {
                if a < p {
                    assert(o[a] == old_order[a]);
                } else if a > p {
                    assert(o[a] == old_order[a - 1]);
                }
                if b < p {
                    assert(o[b] == old_order[b]);
                } else if b > p {
                    assert(o[b] == old_order[b - 1]);
                }
            }
            assert forall|a: int, b: int| 0 <= a < b < o.len() implies key_before(
                k,
                o[a] as int,
                o[b] as int,
            ) by {
                if a < p {
                    assert(o[a] == old_order[a]);
                } else if a > p {
                    assert(o[a] == old_order[a - 1]);
                }
                if b < p {
                    assert(o[b] == old_order[b]);
                } else if b > p {
                    assert(o[b] == old_order[b - 1]);
                }
            }
        }
        i = i + 1;
    }
    order
}

} // verus!
