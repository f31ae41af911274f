//! Maps from the numbers of tests, walked in the order of the numbers.

use std::collections::BTreeMap;
use vstd::prelude::*;
use vstd::std_specs::btree::*;
use vstd::std_specs::iter::IteratorSpec;

verus! {

/// Whoever has met the key of every entry that a walk of `map` yields has
/// met every key of `map`.
pub proof fn lemma_walk_meets_all<V>(map: &BTreeMap<usize, V>, met: Set<usize>)
    requires
        forall|i: int|
            0 <= i < spec_btree_map_iter(map).remaining().len() ==> met.contains(
                *(#[trigger] spec_btree_map_iter(map).remaining()[i]).0,
            ),
    ensures
        map@.dom().subset_of(met),
{
    let walked = spec_btree_map_iter(map).remaining();
    assert forall|id: usize| map@.contains_key(id) implies met.contains(id) by {
        assert(walked.contains((&id, &map@[id])));
        let i = choose|i: int| 0 <= i < walked.len() && walked[i] == (&id, &map@[id]);
        assert(met.contains(*walked[i].0));
    }
}

} // verus!
