//! Columnar geometry operations over nullable columns of binary-encoded
//! geometries.
//!
//! The geometric primitives themselves (decoding, validity, buffering,
//! intersection, difference, union) belong to an outside geometry library
//! that this crate never links against directly.  Each operation is instead
//! an interactive run: the crate makes every columnar decision — which rows
//! to touch and in what order, how absence propagates, when the prepared
//! reference's quick test spares the full computation, which failure aborts
//! the call — and hands the caller's driver one primitive at a time to
//! execute, as a [`request::Req`], taking its [`request::Reply`] back
//! through `step` until the run is [`request::Step::Done`].

use vstd::prelude::*;

mod broadcast;
mod column;
mod error;
mod laws;
mod mapped;
mod pairwise;
mod request;
mod unions;
mod valid;

pub use broadcast::{broadcast_req, broadcast_row_ok, broadcast_rows_ok, BroadcastOp, BroadcastPhase, BroadcastRun};
pub use column::{all_null, all_null_between, copy_bytes, nulls_match, BooleanColumn, GeometryColumn};
pub use error::PolarsGeosError;
pub use laws::{lemma_broadcast_difference_matches_pairwise, lemma_broadcast_intersection_matches_pairwise};
pub use mapped::{map_req, MapOp, MapPhase, MapRun};
pub use pairwise::{both_null_between, pair_req, pair_row_ok, pair_rows_ok, PairOp, PairPhase, PairRun};
pub use request::{Reply, Req, Step};
pub use unions::{UnionPhase, UnionRun};
pub use valid::{IsValidRun, ValidPhase};
