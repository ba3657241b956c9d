//! The order in which an ordered map hands out integer keys.

use vstd::prelude::*;
use vstd::std_specs::btree::increasing_seq;
use vstd::std_specs::cmp::OrdSpec;

verus! {

/// Keys that an ordered map yields in increasing order ascend as numbers.
pub proof fn lemma_increasing_keys_ascend(keys: Seq<u64>, i: int, j: int)
    requires
        increasing_seq(keys),
        0 <= i < j < keys.len(),
    ensures
        keys[i] < keys[j],
{
    broadcast use vstd::laws_cmp::group_laws_cmp;

    vstd::std_specs::btree::axiom_increasing_seq_meaning(keys);
    assert(keys[i].cmp_spec(&keys[j]) is Less);
}

} // verus!
