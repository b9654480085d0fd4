use vstd::prelude::*;
use crate::broadcast::{broadcast_row_ok, BroadcastOp};
use crate::pairwise::{pair_row_ok, PairOp};

verus! {

/// Broadcasting one fixed geometry against a column promises of every row
/// exactly what the pairwise operation promises when that geometry stands,
/// present, in every row of the second column: for any input cell `ac`,
/// any present reference cell `bc` and any output cell `oc`, the per-row
/// guarantee of the broadcast intersection and that of the pairwise
/// intersection coincide.
pub proof fn lemma_broadcast_intersection_matches_pairwise(
    ac: Option<Seq<u8>>,
    bc: Option<Seq<u8>>,
    oc: Option<Seq<u8>>,
)
    requires
        bc is Some,
    ensures
        pair_row_ok(PairOp::Intersection, ac, bc, oc) == broadcast_row_ok(
            BroadcastOp::Intersection,
            ac,
            oc,
        ),
{
}

/// The same agreement for the difference: with a present reference cell on
/// every row, the pairwise difference's per-row guarantee reduces to the
/// broadcast difference's.
pub proof fn lemma_broadcast_difference_matches_pairwise(
    ac: Option<Seq<u8>>,
    bc: Option<Seq<u8>>,
    oc: Option<Seq<u8>>,
)
    requires
        bc is Some,
    ensures
        pair_row_ok(PairOp::Difference, ac, bc, oc) == broadcast_row_ok(
            BroadcastOp::Difference,
            ac,
            oc,
        ),
{
}

} // verus!
