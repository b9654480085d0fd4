use vstd::prelude::*;
use crate::column::{all_null_between, nulls_match, GeometryColumn};
use crate::error::PolarsGeosError;
use crate::request::{Reply, Req, Step};

verus! {

/// The single-geometry primitive a [`MapRun`] applies to every present row.
#[derive(Debug, Clone, Copy, PartialEq, Eq, Structural)]
pub enum MapOp {
    /// Repair each geometry.
    MakeValid,
    /// Buffer each geometry by a width (the bits of a binary64 number) with
    /// the given number of quadrant segments.
    Buffer(u64, i32),
}

/// The request that applies `op` to the geometry behind `h`.
pub open spec fn map_req(op: MapOp, h: u64) -> Req {
    match op {
        MapOp::MakeValid => Req::MakeValid(h),
        MapOp::Buffer(width_bits, quadsegs) => Req::Buffer(h, width_bits, quadsegs),
    }
}

/// Where a mapping run stands inside its current row.
#[derive(Debug, PartialEq, Eq)]
pub enum MapPhase {
    /// Waiting for the decode of the current row's bytes.
    Decoding,
    /// Waiting for the primitive's result on the decoded geometry.
    Applying,
    /// Waiting for the serialized bytes of the primitive's result.
    Encoding,
    /// The run has ended and its result was handed out.
    Finished,
}

/// `make_valid` and `buffer` over a column, run as an interactive exchange:
/// each present row is decoded, put through the primitive, and the result
/// re-encoded into the output cell; absent rows pass through as absent.
/// The output is a geometry column of the same length, named `geometry`.
pub struct MapRun {
    /// The primitive applied to every present row.
    pub op: MapOp,
    /// The input cells, owned for the duration of the run.
    pub cells: Vec<Option<Vec<u8>>>,
    /// The row being processed (or the next one to process).
    pub row: usize,
    /// The output rows emitted so far.
    pub out: Vec<Option<Vec<u8>>>,
    /// Where the run stands.
    pub phase: MapPhase,
}

impl MapRun {
    /// The run's internal consistency: the output covers exactly the rows
    /// before `row`, is absent exactly where the input is, and while the
    /// run is live it stands on a present row.
    pub open spec fn inv(&self) -> bool {
        &&& self.row as int <= self.cells@.len()
        &&& nulls_match(self.cells.deep_view(), self.out.deep_view())
        &&& !(self.phase is Finished) ==> {
            &&& self.out@.len() == self.row as int
            &&& (self.row as int) < self.cells@.len()
            &&& self.cells.deep_view()[self.row as int] is Some
        }
    }

    /// Which reply shapes the run is prepared to take next.
    pub open spec fn expects(&self, r: Reply) -> bool {
        match self.phase {
            MapPhase::Decoding => r is Geom || r is Failed,
            MapPhase::Applying => r is Geom || r is Failed,
            MapPhase::Encoding => r is Bytes || r is Failed,
            MapPhase::Finished => false,
        }
    }

    /// After handling rows before `start`, the run has skipped the absent
    /// rows from `start` on and either asks for the decode of the next
    /// present row, or is finished with the completed geometry column.
    pub open spec fn at_next_row(&self, start: int, act: Step<GeometryColumn>) -> bool {
        &&& start <= self.row as int <= self.cells@.len()
        &&& all_null_between(self.cells.deep_view(), start, self.row as int)
        &&& if (self.row as int) < self.cells@.len() {
            &&& self.cells.deep_view()[self.row as int] is Some
            &&& self.phase is Decoding
            &&& self.out@.len() == self.row as int
            &&& act == Step::<GeometryColumn>::Ask(Req::Decode(self.row))
        } else {
            &&& self.phase is Finished
            &&& act matches Step::Done(Ok(col))
                && col.name@ == "geometry"@
                && col.cells@.len() == self.cells@.len()
                && nulls_match(self.cells.deep_view(), col.cells.deep_view())
        }
    }

    /// Start a mapping run over a column.  The run immediately skips
    /// leading absent rows; on an all-absent (or empty) column it finishes
    /// at once with an all-absent geometry column.
    pub fn new(col: GeometryColumn, op: MapOp) -> (r: (MapRun, Step<GeometryColumn>))
        ensures
            r.0.inv(),
            r.0.cells == col.cells,
            r.0.op == op,
            r.0.at_next_row(0, r.1),
            r.1 matches Step::Done(res) ==> res is Ok,
    {
        let mut run = MapRun {
            op,
            cells: col.cells,
            row: 0,
            out: Vec::new(),
            phase: MapPhase::Decoding,
        };
        let act = run.advance();
        (run, act)
    }

    /// Skip absent rows (emitting absent outputs) until the next present
    /// row or the end of the column.
    fn advance(&mut self) -> (act: Step<GeometryColumn>)
        requires
            old(self).row as int <= old(self).cells@.len(),
            old(self).out@.len() == old(self).row as int,
            nulls_match(old(self).cells.deep_view(), old(self).out.deep_view()),
        ensures
            final(self).inv(),
            final(self).cells == old(self).cells,
            final(self).op == old(self).op,
            final(self).at_next_row(old(self).row as int, act),
            act is Ask ==> old(self).out@.is_prefix_of(final(self).out@),
            act matches Step::Done(res) ==> res matches Ok(col)
                && old(self).out@.is_prefix_of(col.cells@),
            act is Ask ==> forall|j: int|
                0 <= j < old(self).out@.len() ==> final(self).out@[j] == old(self).out@[j],
            act matches Step::Done(res) ==> res matches Ok(col) && (forall|j: int|
                0 <= j < old(self).out@.len() ==> col.cells@[j] == old(self).out@[j]),
    {
        while self.row < self.cells.len() && self.cells[self.row].is_none()
            invariant
                old(self).row as int <= self.row as int <= self.cells@.len(),
                self.out@.len() == self.row as int,
                self.cells == old(self).cells,
                self.op == old(self).op,
                nulls_match(self.cells.deep_view(), self.out.deep_view()),
                all_null_between(self.cells.deep_view(), old(self).row as int, self.row as int),
                old(self).out@.is_prefix_of(self.out@),
                forall|j: int|
                    0 <= j < old(self).out@.len() ==> self.out@[j] == old(self).out@[j],
            decreases self.cells@.len() - self.row as int,
        {
            self.out.push(None);
            self.row = self.row + 1;
        }
        if self.row == self.cells.len() {
            self.phase = MapPhase::Finished;
            let mut cells: Vec<Option<Vec<u8>>> = Vec::new();
            core::mem::swap(&mut cells, &mut self.out);
            Step::Done(Ok(GeometryColumn { name: String::from_str("geometry"), cells }))
        } else {
            self.phase = MapPhase::Decoding;
            Step::Ask(Req::Decode(self.row))
        }
    }

    /// Feed the driver's answer to the pending request and get the next
    /// request or the final result.
    ///
    /// A failed decode aborts the run with `DecodeError`, a failed
    /// primitive with `GeometricOperationError`, a failed serialization
    /// with `EncodeError`; otherwise the row's result lands in the output
    /// cell and the run moves on.
    pub fn step(&mut self, r: Reply) -> (act: Step<GeometryColumn>)
        requires
            old(self).inv(),
            !(old(self).phase is Finished),
            old(self).expects(r),
        ensures
            final(self).inv(),
            final(self).cells == old(self).cells,
            final(self).op == old(self).op,
            old(self).phase is Decoding && r is Failed ==> {
                &&& act == Step::<GeometryColumn>::Done(Err(PolarsGeosError::DecodeError))
                &&& final(self).phase is Finished
            },
            old(self).phase is Applying && r is Failed ==> {
                &&& act == Step::<GeometryColumn>::Done(
                    Err(PolarsGeosError::GeometricOperationError),
                )
                &&& final(self).phase is Finished
            },
            old(self).phase is Encoding && r is Failed ==> {
                &&& act == Step::<GeometryColumn>::Done(Err(PolarsGeosError::EncodeError))
                &&& final(self).phase is Finished
            },
            old(self).phase is Decoding ==> (r matches Reply::Geom(h) ==> {
                &&& act == Step::<GeometryColumn>::Ask(map_req(old(self).op, h))
                &&& final(self).phase is Applying
                &&& final(self).row == old(self).row
                &&& final(self).out == old(self).out
            }),
            old(self).phase is Applying ==> (r matches Reply::Geom(h) ==> {
                &&& act == Step::<GeometryColumn>::Ask(Req::Encode(h))
                &&& final(self).phase is Encoding
                &&& final(self).row == old(self).row
                &&& final(self).out == old(self).out
            }),
            old(self).phase is Encoding ==> (r matches Reply::Bytes(w) ==> {
                &&& final(self).at_next_row(old(self).row as int + 1, act)
                &&& act is Ask ==> old(self).out@.push(Some(w)).is_prefix_of(final(self).out@)
                &&& act matches Step::Done(res) ==> res matches Ok(col)
                    && old(self).out@.push(Some(w)).is_prefix_of(col.cells@)
                &&& act is Ask ==> final(self).out@[old(self).row as int] == Some(w)
                &&& act matches Step::Done(res) ==> res matches Ok(col)
                    && col.cells@[old(self).row as int] == Some(w)
            }),
    {
        match self.phase {
            MapPhase::Decoding => {
                match r {
                    Reply::Geom(h) => {
                        self.phase = MapPhase::Applying;
                        let q = match self.op {
                            MapOp::MakeValid => Req::MakeValid(h),
                            MapOp::Buffer(width_bits, quadsegs) => Req::Buffer(
                                h,
                                width_bits,
                                quadsegs,
                            ),
                        };
                        Step::Ask(q)
                    }
                    Reply::Failed => {
                        self.phase = MapPhase::Finished;
                        Step::Done(Err(PolarsGeosError::DecodeError))
                    }
                    _ => unreached(),
                }
            }
            MapPhase::Applying => {
                match r {
                    Reply::Geom(h) => {
                        self.phase = MapPhase::Encoding;
                        Step::Ask(Req::Encode(h))
                    }
                    Reply::Failed => {
                        self.phase = MapPhase::Finished;
                        Step::Done(Err(PolarsGeosError::GeometricOperationError))
                    }
                    _ => unreached(),
                }
            }
            MapPhase::Encoding => {
                match r {
                    Reply::Bytes(w) => {
                        let n = self.cells.len();
                        assert(self.row < n);
                        self.out.push(Some(w));
                        self.row = self.row + 1;
                        self.advance()
                    }
                    Reply::Failed => {
                        self.phase = MapPhase::Finished;
                        Step::Done(Err(PolarsGeosError::EncodeError))
                    }
                    _ => unreached(),
                }
            }
            MapPhase::Finished => unreached(),
        }
    }
}

} // verus!
