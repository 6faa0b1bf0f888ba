//! The numbers under which the graph knows its edges.
//!
//! Nothing in this file is proved: the one function states what `petgraph`
//! does when it takes a position as an edge index.

use petgraph::graph::EdgeIndex;
use vstd::prelude::*;

verus! {

/// The number under which the graph knows the edge at `index`: graphs count
/// their edges in 32 bits, so it is what of `index` fits there.
pub open spec fn edge_number(index: usize) -> usize {
    (index as int % 0x1_0000_0000) as usize
}

/// `EdgeIndex::new` of petgraph, with the 32-bit index that its graphs have
/// unless told otherwise, read back by `EdgeIndex::index`: the index is cut
/// to 32 bits.
#[verifier::external_body]
pub(crate) fn to_edge_number(index: usize) -> (number: usize)
    ensures
        number == edge_number(index),
{
    EdgeIndex::<u32>::new(index).index()
}

} // verus!
