//! Sequences that hold the same elements in another order.

use vstd::prelude::*;
use vstd::seq_lib::{to_multiset_build, to_multiset_insert, to_multiset_len, to_multiset_remove};

verus! {

/// Two sequences that hold the same elements, each as often as the other,
/// still do so after the same function is applied to every element.
pub proof fn lemma_map_keeps_multiset<A, B>(a: Seq<A>, b: Seq<A>, f: spec_fn(A) -> B)
    requires
        a.to_multiset() == b.to_multiset(),
    ensures
        a.map_values(f).to_multiset() == b.map_values(f).to_multiset(),
    decreases a.len(),
{
    to_multiset_len(a);
    to_multiset_len(b);
    if a.len() == 0 {
        assert(a.map_values(f) =~= b.map_values(f));
    } else {
        let x = a.last();
        let shorter = a.drop_last();
        assert(a =~= shorter.push(x));
        to_multiset_build(shorter, x);
        assert(b.to_multiset().count(x) > 0);
        b.to_multiset_ensures();
        let j = b.index_of(x);
        let rest = b.remove(j);
        to_multiset_remove(b, j);
        assert(shorter.to_multiset() =~= rest.to_multiset());
        lemma_map_keeps_multiset(shorter, rest, f);
        assert(a.map_values(f) =~= shorter.map_values(f).push(f(x)));
        to_multiset_build(shorter.map_values(f), f(x));
        assert(b.map_values(f) =~= rest.map_values(f).insert(j, f(x)));
        to_multiset_insert(rest.map_values(f), j, f(x));
    }
}

} // verus!
