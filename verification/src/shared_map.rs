//! The data set of the shared-map benchmarks.

use std::collections::BTreeSet;
use vstd::prelude::*;

verus! {

broadcast use {vstd::std_specs::btree::group_btree_axioms, vstd::laws_cmp::group_laws_cmp};

/// The set of addresses `0..size`, standing in for a list of malware IPs.
pub fn generate_malware_ip_list(size: u32) -> (ret: BTreeSet<u32>)
    ensures
        ret@ == Set::new(|ip: u32| ip < size),
{
    let mut ret: BTreeSet<u32> = BTreeSet::new();
    for i in 0..size
        invariant
            ret@ == Set::new(|ip: u32| ip < i),
    {
        ret.insert(i);
        assert(ret@ =~= Set::new(|ip: u32| ip < i + 1));
    }
    ret
}

} // verus!
