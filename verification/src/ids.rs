//! Sets of identifiers.

use std::collections::HashSet;

use vstd::prelude::*;
use vstd::std_specs::iter::IteratorSpec;

verus! {

broadcast use vstd::std_specs::hash::group_hash_axioms;

/// The identifiers of `set`, each once, in the order the set yields them.
pub(crate) fn ids_of(set: &HashSet<u64>) -> (r: Vec<u64>)
    ensures
        r@.no_duplicates(),
        r@.to_set() == set@,
{
    let mut out: Vec<u64> = Vec::new();
    let ghost whole: Seq<&u64> = vstd::std_specs::hash::spec_hash_keys_iter(set).remaining();
    for id in it: set.iter()
        invariant
            it.seq() == whole,
            whole.unref().to_set() == set@,
            whole.no_duplicates(),
            out@ == it.seq().take(it.index() as int).map_values(|x: &u64| *x),
    {
        out.push(*id);
    }
    assert(out@ =~= whole.map_values(|x: &u64| *x));
    assert(whole.map_values(|x: &u64| *x) =~= whole.unref());
    out
}

/// A set holding the same identifiers as `set`.
pub(crate) fn copy_of(set: &HashSet<u64>) -> (r: HashSet<u64>)
    ensures
        r@ == set@,
{
    let ids = ids_of(set);
    let mut out: HashSet<u64> = HashSet::new();
    let mut i: usize = 0;
    while i < ids.len()
        invariant
            i <= ids.len(),
            ids@.to_set() == set@,
            out@ == ids@.take(i as int).to_set(),
        decreases ids.len() - i,
    {
        proof {
            ids@.lemma_take_succ_push(i as int);
            ids@.take(i as int).lemma_push_to_set_commute(ids@[i as int]);
        }
        out.insert(ids[i]);
        i = i + 1;
    }
    proof {
        assert(ids@.take(i as int) =~= ids@);
    }
    out
}

} // verus!
