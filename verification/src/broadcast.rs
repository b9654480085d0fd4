use vstd::prelude::*;
use crate::column::{all_null_between, copy_bytes, GeometryColumn};
use crate::error::PolarsGeosError;
use crate::request::{Reply, Req, Step};

verus! {

/// The primitive a [`BroadcastRun`] applies between each present row and
/// the fixed reference geometry the driver prepared up front.
#[derive(Debug, Clone, Copy, PartialEq, Eq, Structural)]
pub enum BroadcastOp {
    /// Row ∩ reference; a row that does not intersect the reference, or
    /// whose intersection is geometrically empty, gives an absent cell.
    Intersection,
    /// Row minus reference; a row that does not intersect the reference
    /// keeps its cell unchanged (there is nothing to subtract).
    Difference,
}

/// The request that applies `op` between the geometry behind `h` and the
/// reference geometry.
pub open spec fn broadcast_req(op: BroadcastOp, h: u64) -> Req {
    match op {
        BroadcastOp::Intersection => Req::IntersectionRef(h),
        BroadcastOp::Difference => Req::DifferenceRef(h),
    }
}

/// Where a broadcast run stands inside its current row.
#[derive(Debug, PartialEq, Eq)]
pub enum BroadcastPhase {
    /// Waiting for the decode of the current row's bytes.
    Decoding,
    /// Waiting for the prepared reference's quick intersection test
    /// against the handle carried here.
    Testing(u64),
    /// Waiting for the full primitive's result.
    Computing,
    /// Waiting for the emptiness answer about the handle carried here
    /// (intersection only).
    CheckingEmpty(u64),
    /// Waiting for the serialized bytes of the row's result.
    Encoding,
    /// The run has ended and its result was handed out.
    Finished,
}

/// What one output cell may be, given the row it came from.
pub open spec fn broadcast_row_ok(
    op: BroadcastOp,
    ac: Option<Seq<u8>>,
    oc: Option<Seq<u8>>,
) -> bool {
    match op {
        BroadcastOp::Intersection => ac is None ==> oc is None,
        BroadcastOp::Difference => oc is None <==> ac is None,
    }
}

/// Every emitted output cell respects its input row.
pub open spec fn broadcast_rows_ok(
    op: BroadcastOp,
    a: Seq<Option<Seq<u8>>>,
    out: Seq<Option<Seq<u8>>>,
) -> bool {
    forall|j: int| 0 <= j < out.len() ==> broadcast_row_ok(op, a[j], out[j])
}

/// `geom_intersection` and `geom_difference`: one fixed geometry broadcast
/// against every row of a column, run as an interactive exchange.  The
/// driver builds one prepared geometry from the reference up front; each
/// present row is decoded and first put through the prepared reference's
/// cheap intersection test, and only a row that may intersect pays for the
/// full primitive.  A row rejected by the test is emitted at once: absent
/// for an intersection, the unchanged cell for a difference.
pub struct BroadcastRun {
    /// The primitive applied between each present row and the reference.
    pub op: BroadcastOp,
    /// The input cells, owned for the duration of the run.
    pub cells: Vec<Option<Vec<u8>>>,
    /// The row being processed (or the next one to process).
    pub row: usize,
    /// The output rows emitted so far.
    pub out: Vec<Option<Vec<u8>>>,
    /// Where the run stands.
    pub phase: BroadcastPhase,
}

impl BroadcastRun {
    /// The run's internal consistency.
    pub open spec fn inv(&self) -> bool {
        &&& self.row as int <= self.cells@.len()
        &&& broadcast_rows_ok(self.op, self.cells.deep_view(), self.out.deep_view())
        &&& !(self.phase is Finished) ==> {
            &&& self.out@.len() == self.row as int
            &&& (self.row as int) < self.cells@.len()
            &&& self.cells.deep_view()[self.row as int] is Some
            &&& (self.phase is CheckingEmpty ==> self.op is Intersection)
        }
    }

    /// Which reply shapes the run is prepared to take next.
    pub open spec fn expects(&self, r: Reply) -> bool {
        match self.phase {
            BroadcastPhase::Decoding => r is Geom || r is Failed,
            BroadcastPhase::Testing(_) => r is Truth || r is Failed,
            BroadcastPhase::Computing => r is Geom || r is Failed,
            BroadcastPhase::CheckingEmpty(_) => r is Truth || r is Failed,
            BroadcastPhase::Encoding => r is Bytes || r is Failed,
            BroadcastPhase::Finished => false,
        }
    }

    /// After handling rows before `start`, the run has skipped the absent
    /// rows from `start` on and either asks for the decode of the next
    /// present row, or is finished with the completed geometry column.
    pub open spec fn at_next_row(&self, start: int, act: Step<GeometryColumn>) -> bool {
        &&& start <= self.row as int <= self.cells@.len()
        &&& all_null_between(self.cells.deep_view(), start, self.row as int)
        &&& if (self.row as int) < self.cells@.len() {
            &&& self.cells.deep_view()[self.row as int] is Some
            &&& self.phase is Decoding
            &&& self.out@.len() == self.row as int
            &&& act == Step::<GeometryColumn>::Ask(Req::Decode(self.row))
        } else {
            &&& self.phase is Finished
            &&& act matches Step::Done(Ok(col))
                && col.name@ == "geometry"@
                && col.cells@.len() == self.cells@.len()
                && broadcast_rows_ok(self.op, self.cells.deep_view(), col.cells.deep_view())
        }
    }

    /// Start a broadcast run over a column.  The run immediately skips
    /// leading absent rows; on an all-absent (or empty) column it finishes
    /// at once with an all-absent geometry column, without ever consulting
    /// the reference.
    pub fn new(col: GeometryColumn, op: BroadcastOp) -> (r: (BroadcastRun, Step<GeometryColumn>))
        ensures
            r.0.inv(),
            r.0.cells == col.cells,
            r.0.op == op,
            r.0.at_next_row(0, r.1),
            r.1 matches Step::Done(res) ==> res is Ok,
    {
        let mut run = BroadcastRun {
            op,
            cells: col.cells,
            row: 0,
            out: Vec::new(),
            phase: BroadcastPhase::Decoding,
        };
        let act = run.advance();
        (run, act)
    }

    /// Skip absent rows (emitting absent outputs) until the next present
    /// row or the end of the column.
    fn advance(&mut self) -> (act: Step<GeometryColumn>)
        requires
            old(self).row as int <= old(self).cells@.len(),
            old(self).out@.len() == old(self).row as int,
            broadcast_rows_ok(old(self).op, old(self).cells.deep_view(), old(self).out.deep_view()),
        ensures
            final(self).inv(),
            final(self).cells == old(self).cells,
            final(self).op == old(self).op,
            final(self).at_next_row(old(self).row as int, act),
            act is Ask ==> old(self).out@.is_prefix_of(final(self).out@),
            act matches Step::Done(res) ==> res matches Ok(col)
                && old(self).out@.is_prefix_of(col.cells@),
            act is Ask ==> forall|j: int|
                0 <= j < old(self).out@.len() ==> final(self).out@[j] == old(self).out@[j],
            act matches Step::Done(res) ==> res matches Ok(col) && (forall|j: int|
                0 <= j < old(self).out@.len() ==> col.cells@[j] == old(self).out@[j]),
    {
        while self.row < self.cells.len() && self.cells[self.row].is_none()
            invariant
                old(self).row as int <= self.row as int <= self.cells@.len(),
                self.out@.len() == self.row as int,
                self.cells == old(self).cells,
                self.op == old(self).op,
                broadcast_rows_ok(self.op, self.cells.deep_view(), self.out.deep_view()),
                all_null_between(self.cells.deep_view(), old(self).row as int, self.row as int),
                old(self).out@.is_prefix_of(self.out@),
                forall|j: int|
                    0 <= j < old(self).out@.len() ==> self.out@[j] == old(self).out@[j],
            decreases self.cells@.len() - self.row as int,
        {
            self.out.push(None);
            self.row = self.row + 1;
        }
        if self.row == self.cells.len() {
            self.phase = BroadcastPhase::Finished;
            let mut cells: Vec<Option<Vec<u8>>> = Vec::new();
            core::mem::swap(&mut cells, &mut self.out);
            Step::Done(Ok(GeometryColumn { name: String::from_str("geometry"), cells }))
        } else {
            self.phase = BroadcastPhase::Decoding;
            Step::Ask(Req::Decode(self.row))
        }
    }

    /// Emit one output cell for the current row and move to the next.
    fn emit(&mut self, oc: Option<Vec<u8>>) -> (act: Step<GeometryColumn>)
        requires
            old(self).inv(),
            !(old(self).phase is Finished),
            broadcast_row_ok(
                old(self).op,
                old(self).cells.deep_view()[old(self).row as int],
                oc.deep_view(),
            ),
        ensures
            final(self).inv(),
            final(self).cells == old(self).cells,
            final(self).op == old(self).op,
            final(self).at_next_row(old(self).row as int + 1, act),
            act is Ask ==> old(self).out@.push(oc).is_prefix_of(final(self).out@),
            act matches Step::Done(res) ==> res matches Ok(col)
                && old(self).out@.push(oc).is_prefix_of(col.cells@),
            act is Ask ==> final(self).out.deep_view()[old(self).row as int] == oc.deep_view(),
            act matches Step::Done(res) ==> res matches Ok(col)
                && col.cells.deep_view()[old(self).row as int] == oc.deep_view(),
            act is Ask ==> old(self).out.deep_view().push(oc.deep_view()).is_prefix_of(
                final(self).out.deep_view(),
            ),
            act matches Step::Done(res) ==> res matches Ok(col)
                && old(self).out.deep_view().push(oc.deep_view()).is_prefix_of(
                    col.cells.deep_view(),
                ),
    {
        let n = self.cells.len();
        assert(self.row < n);
        let ghost r0 = self.row as int;
        let ghost ocs = oc.deep_view();
        let ghost pre = self.out.deep_view();
        self.out.push(oc);
        proof {
            assert(self.out.deep_view() =~= pre.push(ocs));
        }
        self.row = self.row + 1;
        let act = self.advance();
        match &act {
            Step::Ask(_) => {
                proof {
                    assert(self.out@[r0].deep_view() == ocs);
                    assert(pre.push(ocs) =~= self.out.deep_view().take(r0 + 1));
                }
            }
            Step::Done(res) => {
                match res {
                    Ok(col) => {
                        proof {
                            assert(pre.push(ocs) =~= col.cells.deep_view().take(r0 + 1));
                        }
                    }
                    Err(_) => {}
                }
            }
        }
        act
    }

    /// Feed the driver's answer to the pending request and get the next
    /// request or the final result.
    ///
    /// A failed decode aborts the run with `DecodeError`; a failure of the
    /// quick test, the full primitive or the emptiness test aborts it with
    /// `GeometricOperationError`; a failed serialization with
    /// `EncodeError`.  A row whose quick test answers `false` never pays
    /// for the full primitive: the intersection is emitted absent, the
    /// difference as the row's bytes unchanged.
    pub fn step(&mut self, r: Reply) -> (act: Step<GeometryColumn>)
        requires
            old(self).inv(),
            !(old(self).phase is Finished),
            old(self).expects(r),
        ensures
            final(self).inv(),
            final(self).cells == old(self).cells,
            final(self).op == old(self).op,
            old(self).phase is Decoding && r is Failed ==> {
                &&& act == Step::<GeometryColumn>::Done(Err(PolarsGeosError::DecodeError))
                &&& final(self).phase is Finished
            },
            (old(self).phase is Testing || old(self).phase is Computing || old(
                self,
            ).phase is CheckingEmpty) && r is Failed ==> {
                &&& act == Step::<GeometryColumn>::Done(
                    Err(PolarsGeosError::GeometricOperationError),
                )
                &&& final(self).phase is Finished
            },
            old(self).phase is Encoding && r is Failed ==> {
                &&& act == Step::<GeometryColumn>::Done(Err(PolarsGeosError::EncodeError))
                &&& final(self).phase is Finished
            },
            old(self).phase is Decoding ==> (r matches Reply::Geom(h) ==> {
                &&& act == Step::<GeometryColumn>::Ask(Req::IntersectsRef(h))
                &&& final(self).phase == BroadcastPhase::Testing(h)
                &&& final(self).row == old(self).row
                &&& final(self).out == old(self).out
            }),
            old(self).phase matches BroadcastPhase::Testing(h) ==> (r matches Reply::Truth(hit)
                ==> {
                &&& hit ==> {
                    &&& act == Step::<GeometryColumn>::Ask(broadcast_req(old(self).op, h))
                    &&& final(self).phase is Computing
                    &&& final(self).row == old(self).row
                    &&& final(self).out == old(self).out
                }
                &&& !hit ==> {
                    &&& final(self).at_next_row(old(self).row as int + 1, act)
                    &&& old(self).op is Intersection ==> {
                        &&& (act is Ask ==> old(self).out.deep_view().push(
                            None::<Seq<u8>>,
                        ).is_prefix_of(final(self).out.deep_view()))
                        &&& (act matches Step::Done(res) ==> res matches Ok(col)
                            && old(self).out.deep_view().push(None::<Seq<u8>>).is_prefix_of(
                                col.cells.deep_view(),
                            ))
                        &&& (act is Ask ==> final(self).out.deep_view()[old(self).row as int]
                            is None)
                        &&& (act matches Step::Done(res) ==> res matches Ok(col)
                            && col.cells.deep_view()[old(self).row as int] is None)
                    }
                    &&& old(self).op is Difference ==> {
                        &&& (act is Ask ==> old(self).out.deep_view().push(
                            old(self).cells.deep_view()[old(self).row as int],
                        ).is_prefix_of(final(self).out.deep_view()))
                        &&& (act matches Step::Done(res) ==> res matches Ok(col)
                            && old(self).out.deep_view().push(
                                old(self).cells.deep_view()[old(self).row as int],
                            ).is_prefix_of(col.cells.deep_view()))
                        &&& (act is Ask ==> final(self).out.deep_view()[old(self).row as int]
                            == old(self).cells.deep_view()[old(self).row as int])
                        &&& (act matches Step::Done(res) ==> res matches Ok(col)
                            && col.cells.deep_view()[old(self).row as int] == old(
                            self,
                        ).cells.deep_view()[old(self).row as int])
                    }
                }
            }),
            old(self).phase is Computing ==> (r matches Reply::Geom(h) ==> {
                &&& old(self).op is Intersection ==> {
                    &&& act == Step::<GeometryColumn>::Ask(Req::IsEmpty(h))
                    &&& final(self).phase == BroadcastPhase::CheckingEmpty(h)
                }
                &&& old(self).op is Difference ==> {
                    &&& act == Step::<GeometryColumn>::Ask(Req::Encode(h))
                    &&& final(self).phase is Encoding
                }
                &&& final(self).row == old(self).row
                &&& final(self).out == old(self).out
            }),
            old(self).phase matches BroadcastPhase::CheckingEmpty(h) ==> (r matches Reply::Truth(
                empty,
            ) ==> {
                &&& empty ==> {
                    &&& final(self).at_next_row(old(self).row as int + 1, act)
                    &&& (act is Ask ==> old(self).out.deep_view().push(
                        None::<Seq<u8>>,
                    ).is_prefix_of(final(self).out.deep_view()))
                    &&& (act matches Step::Done(res) ==> res matches Ok(col)
                        && old(self).out.deep_view().push(None::<Seq<u8>>).is_prefix_of(
                            col.cells.deep_view(),
                        ))
                    &&& (act is Ask ==> final(self).out.deep_view()[old(self).row as int]
                        is None)
                    &&& (act matches Step::Done(res) ==> res matches Ok(col)
                        && col.cells.deep_view()[old(self).row as int] is None)
                }
                &&& !empty ==> {
                    &&& act == Step::<GeometryColumn>::Ask(Req::Encode(h))
                    &&& final(self).phase is Encoding
                    &&& final(self).row == old(self).row
                    &&& final(self).out == old(self).out
                }
            }),
            old(self).phase is Encoding ==> (r matches Reply::Bytes(w) ==> {
                &&& final(self).at_next_row(old(self).row as int + 1, act)
                &&& act is Ask ==> old(self).out@.push(Some(w)).is_prefix_of(final(self).out@)
                &&& act matches Step::Done(res) ==> res matches Ok(col)
                    && old(self).out@.push(Some(w)).is_prefix_of(col.cells@)
                &&& act is Ask ==> final(self).out.deep_view()[old(self).row as int] == Some(
                    w.deep_view(),
                )
                &&& act matches Step::Done(res) ==> res matches Ok(col)
                    && col.cells.deep_view()[old(self).row as int] == Some(w.deep_view())
            }),
    {
        match self.phase {
            BroadcastPhase::Decoding => {
                match r {
                    Reply::Geom(h) => {
                        self.phase = BroadcastPhase::Testing(h);
                        Step::Ask(Req::IntersectsRef(h))
                    }
                    Reply::Failed => {
                        self.phase = BroadcastPhase::Finished;
                        Step::Done(Err(PolarsGeosError::DecodeError))
                    }
                    _ => unreached(),
                }
            }
            BroadcastPhase::Testing(h) => {
                match r {
                    Reply::Truth(hit) => {
                        if hit {
                            self.phase = BroadcastPhase::Computing;
                            let q = match self.op {
                                BroadcastOp::Intersection => Req::IntersectionRef(h),
                                BroadcastOp::Difference => Req::DifferenceRef(h),
                            };
                            Step::Ask(q)
                        } else {
                            let n = self.cells.len();
                            assert(self.row < n);
                            let oc = match (&self.op, &self.cells[self.row]) {
                                (BroadcastOp::Difference, Some(bytes)) => {
                                    let copied = copy_bytes(bytes);
                                    proof {
                                        assert(copied.deep_view() =~= bytes.deep_view());
                                    }
                                    Some(copied)
                                }
                                (BroadcastOp::Intersection, _) => None,
                                (BroadcastOp::Difference, None) => unreached(),
                            };
                            self.emit(oc)
                        }
                    }
                    Reply::Failed => {
                        self.phase = BroadcastPhase::Finished;
                        Step::Done(Err(PolarsGeosError::GeometricOperationError))
                    }
                    _ => unreached(),
                }
            }
            BroadcastPhase::Computing => {
                match r {
                    Reply::Geom(h) => {
                        match self.op {
                            BroadcastOp::Intersection => {
                                self.phase = BroadcastPhase::CheckingEmpty(h);
                                Step::Ask(Req::IsEmpty(h))
                            }
                            BroadcastOp::Difference => {
                                self.phase = BroadcastPhase::Encoding;
                                Step::Ask(Req::Encode(h))
                            }
                        }
                    }
                    Reply::Failed => {
                        self.phase = BroadcastPhase::Finished;
                        Step::Done(Err(PolarsGeosError::GeometricOperationError))
                    }
                    _ => unreached(),
                }
            }
            BroadcastPhase::CheckingEmpty(h) => {
                match r {
                    Reply::Truth(empty) => {
                        if empty {
                            self.emit(None)
                        } else {
                            self.phase = BroadcastPhase::Encoding;
                            Step::Ask(Req::Encode(h))
                        }
                    }
                    Reply::Failed => {
                        self.phase = BroadcastPhase::Finished;
                        Step::Done(Err(PolarsGeosError::GeometricOperationError))
                    }
                    _ => unreached(),
                }
            }
            BroadcastPhase::Encoding => {
                match r {
                    Reply::Bytes(w) => self.emit(Some(w)),
                    Reply::Failed => {
                        self.phase = BroadcastPhase::Finished;
                        Step::Done(Err(PolarsGeosError::EncodeError))
                    }
                    _ => unreached(),
                }
            }
            BroadcastPhase::Finished => unreached(),
        }
    }
}

} // verus!
