//! How much disk space a node takes, and how many nodes that allows.

use vstd::prelude::*;

verus! {

/// GB of disk space that one node takes.
pub const GB_PER_NODE: usize = 5;

/// How many different numbers of nodes can be asked for.
pub const NODE_COUNT_MODULUS: usize = 65536;

/// How many nodes fit into `gb` GB of disk space.
pub open spec fn nodes_fitting(gb: nat) -> nat {
    gb / (GB_PER_NODE as nat)
}

/// The number of nodes to ask for: what fits into `allocated_disk_space` GB, in 16 bits.
pub fn node_count(allocated_disk_space: usize) -> (res: u16)
    ensures
        res == nodes_fitting(allocated_disk_space as nat) % (NODE_COUNT_MODULUS as nat),
{
    let count: usize = allocated_disk_space / GB_PER_NODE;
    assert(#[verifier::truncate] (count as u16) == count % 65536) by (bit_vector);
    #[verifier::truncate]
    (count as u16)
}

} // verus!
