use vstd::prelude::*;
use crate::column::{copy_bytes, GeometryColumn};
use crate::error::PolarsGeosError;
use crate::request::{Reply, Req, Step};

verus! {

/// The pairwise primitive a [`PairRun`] applies to every aligned row pair.
#[derive(Debug, Clone, Copy, PartialEq, Eq, Structural)]
pub enum PairOp {
    /// Row-wise intersection; a geometrically empty result is emitted as an
    /// absent cell, and a pair with any absent side is absent.
    Intersection,
    /// Row-wise difference (left minus right); a pair whose right side is
    /// absent keeps the left cell unchanged, and an absent left side gives
    /// an absent cell.
    Difference,
}

/// The request that applies `op` to the geometries behind `ha` and `hb`.
pub open spec fn pair_req(op: PairOp, ha: u64, hb: u64) -> Req {
    match op {
        PairOp::Intersection => Req::Intersection(ha, hb),
        PairOp::Difference => Req::Difference(ha, hb),
    }
}

/// Where a pairwise run stands inside its current row pair.
#[derive(Debug, PartialEq, Eq)]
pub enum PairPhase {
    /// Waiting for the decode of the left column's current cell.
    DecodingLeft,
    /// Waiting for the decode of the right column's current cell; carries
    /// the decoded left geometry's handle if the left cell was present.
    DecodingRight(Option<u64>),
    /// Waiting for the pairwise primitive's result.
    Computing,
    /// Waiting for the emptiness answer about the handle carried here
    /// (intersection only).
    CheckingEmpty(u64),
    /// Waiting for the serialized bytes of the row's result.
    Encoding,
    /// The run has ended and its result was handed out.
    Finished,
}

/// What one output cell may be, given the row pair it came from.
pub open spec fn pair_row_ok(
    op: PairOp,
    ac: Option<Seq<u8>>,
    bc: Option<Seq<u8>>,
    oc: Option<Seq<u8>>,
) -> bool {
    match op {
        PairOp::Intersection => (ac is None || bc is None) ==> oc is None,
        PairOp::Difference => {
            &&& (oc is None <==> ac is None)
            &&& (ac is Some && bc is None ==> oc == ac)
        },
    }
}

/// Every emitted output cell respects its row pair.
pub open spec fn pair_rows_ok(
    op: PairOp,
    a: Seq<Option<Seq<u8>>>,
    b: Seq<Option<Seq<u8>>>,
    out: Seq<Option<Seq<u8>>>,
) -> bool {
    forall|j: int| 0 <= j < out.len() ==> pair_row_ok(op, a[j], b[j], out[j])
}

/// Both columns are absent on every row of `[lo, hi)`.
pub open spec fn both_null_between(
    a: Seq<Option<Seq<u8>>>,
    b: Seq<Option<Seq<u8>>>,
    lo: int,
    hi: int,
) -> bool {
    forall|j: int| lo <= j < hi ==> a[j] is None && b[j] is None
}

/// `intersection` and `difference` over two equal-length columns, run as an
/// interactive exchange.  Both present cells of a row pair are decoded (in
/// left-then-right order) before the primitive runs; rows with both sides
/// absent pass through without touching the driver.
pub struct PairRun {
    /// The primitive applied to every row pair.
    pub op: PairOp,
    /// The left column's cells.
    pub a: Vec<Option<Vec<u8>>>,
    /// The right column's cells.
    pub b: Vec<Option<Vec<u8>>>,
    /// The row pair being processed (or the next one to process).
    pub row: usize,
    /// The output rows emitted so far.
    pub out: Vec<Option<Vec<u8>>>,
    /// Where the run stands.
    pub phase: PairPhase,
}

impl PairRun {
    /// The run's internal consistency.
    pub open spec fn inv(&self) -> bool {
        &&& self.row as int <= self.a@.len()
        &&& pair_rows_ok(self.op, self.a.deep_view(), self.b.deep_view(), self.out.deep_view())
        &&& !(self.phase is Finished) ==> {
            &&& self.a@.len() == self.b@.len()
            &&& self.out@.len() == self.row as int
            &&& (self.row as int) < self.a@.len()
            &&& match self.phase {
                PairPhase::DecodingLeft => self.a.deep_view()[self.row as int] is Some,
                PairPhase::DecodingRight(la) => {
                    &&& self.b.deep_view()[self.row as int] is Some
                    &&& (la is Some <==> self.a.deep_view()[self.row as int] is Some)
                },
                PairPhase::CheckingEmpty(_) => {
                    &&& self.a.deep_view()[self.row as int] is Some
                    &&& self.b.deep_view()[self.row as int] is Some
                    &&& self.op is Intersection
                },
                PairPhase::Finished => true,
                _ => {
                    &&& self.a.deep_view()[self.row as int] is Some
                    &&& self.b.deep_view()[self.row as int] is Some
                },
            }
        }
    }

    /// Which reply shapes the run is prepared to take next.
    pub open spec fn expects(&self, r: Reply) -> bool {
        match self.phase {
            PairPhase::DecodingLeft => r is Geom || r is Failed,
            PairPhase::DecodingRight(_) => r is Geom || r is Failed,
            PairPhase::Computing => r is Geom || r is Failed,
            PairPhase::CheckingEmpty(_) => r is Truth || r is Failed,
            PairPhase::Encoding => r is Bytes || r is Failed,
            PairPhase::Finished => false,
        }
    }

    /// After handling row pairs before `start`, the run has skipped the
    /// pairs absent on both sides and either asks for the decode of the
    /// next pair's first present cell, or is finished with the completed
    /// geometry column.
    pub open spec fn at_next_row(&self, start: int, act: Step<GeometryColumn>) -> bool {
        &&& start <= self.row as int <= self.a@.len()
        &&& both_null_between(self.a.deep_view(), self.b.deep_view(), start, self.row as int)
        &&& if (self.row as int) < self.a@.len() {
            &&& self.out@.len() == self.row as int
            &&& if self.a.deep_view()[self.row as int] is Some {
                &&& self.phase is DecodingLeft
                &&& act == Step::<GeometryColumn>::Ask(Req::Decode(self.row))
            } else {
                &&& self.b.deep_view()[self.row as int] is Some
                &&& self.phase == PairPhase::DecodingRight(None::<u64>)
                &&& act == Step::<GeometryColumn>::Ask(Req::DecodeOther(self.row))
            }
        } else {
            &&& self.phase is Finished
            &&& act matches Step::Done(Ok(col))
                && col.name@ == "geometry"@
                && col.cells@.len() == self.a@.len()
                && pair_rows_ok(self.op, self.a.deep_view(), self.b.deep_view(),
                    col.cells.deep_view())
        }
    }

    /// Start a pairwise run over two columns.  Columns of unequal length
    /// are rejected at once with `UnequalLengths` — pairwise alignment is
    /// undefined otherwise — and that is the only way this constructor
    /// fails.
    pub fn new(a_col: GeometryColumn, b_col: GeometryColumn, op: PairOp) -> (r: (
        PairRun,
        Step<GeometryColumn>,
    ))
        ensures
            r.0.inv(),
            r.0.a == a_col.cells,
            r.0.b == b_col.cells,
            r.0.op == op,
            (a_col.cells@.len() != b_col.cells@.len()) <==> (r.1 == Step::<GeometryColumn>::Done(
                Err(PolarsGeosError::UnequalLengths),
            )),
            a_col.cells@.len() == b_col.cells@.len() ==> r.0.at_next_row(0, r.1),
            r.1 matches Step::Done(Err(e)) ==> e == PolarsGeosError::UnequalLengths,
    {
        let mut run = PairRun {
            op,
            a: a_col.cells,
            b: b_col.cells,
            row: 0,
            out: Vec::new(),
            phase: PairPhase::Finished,
        };
        if run.a.len() != run.b.len() {
            return (run, Step::Done(Err(PolarsGeosError::UnequalLengths)));
        }
        let act = run.advance();
        (run, act)
    }

    /// Skip row pairs absent on both sides (emitting absent outputs) until
    /// the next pair with a present cell or the end of the columns.
    fn advance(&mut self) -> (act: Step<GeometryColumn>)
        requires
            old(self).a@.len() == old(self).b@.len(),
            old(self).row as int <= old(self).a@.len(),
            old(self).out@.len() == old(self).row as int,
            pair_rows_ok(
                old(self).op,
                old(self).a.deep_view(),
                old(self).b.deep_view(),
                old(self).out.deep_view(),
            ),
        ensures
            final(self).inv(),
            final(self).a == old(self).a,
            final(self).b == old(self).b,
            final(self).op == old(self).op,
            final(self).at_next_row(old(self).row as int, act),
            act is Ask ==> old(self).out@.is_prefix_of(final(self).out@),
            act matches Step::Done(res) ==> res matches Ok(col)
                && old(self).out@.is_prefix_of(col.cells@),
            act is Ask ==> forall|j: int|
                0 <= j < old(self).out@.len() ==> final(self).out@[j] == old(self).out@[j],
            act matches Step::Done(res) ==> res matches Ok(col) && (forall|j: int|
                0 <= j < old(self).out@.len() ==> col.cells@[j] == old(self).out@[j]),
    {
        while self.row < self.a.len() && self.a[self.row].is_none() && self.b[self.row].is_none()
            invariant
                self.a@.len() == self.b@.len(),
                old(self).row as int <= self.row as int <= self.a@.len(),
                self.out@.len() == self.row as int,
                self.a == old(self).a,
                self.b == old(self).b,
                self.op == old(self).op,
                pair_rows_ok(self.op, self.a.deep_view(), self.b.deep_view(),
                    self.out.deep_view()),
                both_null_between(self.a.deep_view(), self.b.deep_view(), old(self).row as int,
                    self.row as int),
                old(self).out@.is_prefix_of(self.out@),
                forall|j: int|
                    0 <= j < old(self).out@.len() ==> self.out@[j] == old(self).out@[j],
            decreases self.a@.len() - self.row as int,
        {
            self.out.push(None);
            self.row = self.row + 1;
        }
        if self.row == self.a.len() {
            self.phase = PairPhase::Finished;
            let mut cells: Vec<Option<Vec<u8>>> = Vec::new();
            core::mem::swap(&mut cells, &mut self.out);
            Step::Done(Ok(GeometryColumn { name: String::from_str("geometry"), cells }))
        } else if self.a[self.row].is_some() {
            self.phase = PairPhase::DecodingLeft;
            Step::Ask(Req::Decode(self.row))
        } else {
            self.phase = PairPhase::DecodingRight(None);
            Step::Ask(Req::DecodeOther(self.row))
        }
    }

    /// Emit one output cell for the current row pair and move to the next.
    fn emit(&mut self, oc: Option<Vec<u8>>) -> (act: Step<GeometryColumn>)
        requires
            old(self).inv(),
            !(old(self).phase is Finished),
            pair_row_ok(
                old(self).op,
                old(self).a.deep_view()[old(self).row as int],
                old(self).b.deep_view()[old(self).row as int],
                oc.deep_view(),
            ),
        ensures
            final(self).inv(),
            final(self).a == old(self).a,
            final(self).b == old(self).b,
            final(self).op == old(self).op,
            final(self).at_next_row(old(self).row as int + 1, act),
            act is Ask ==> old(self).out@.push(oc).is_prefix_of(final(self).out@),
            act matches Step::Done(res) ==> res matches Ok(col)
                && old(self).out@.push(oc).is_prefix_of(col.cells@),
            act is Ask ==> final(self).out.deep_view()[old(self).row as int] == oc.deep_view(),
            act matches Step::Done(res) ==> res matches Ok(col)
                && col.cells.deep_view()[old(self).row as int] == oc.deep_view(),
            act is Ask ==> old(self).out.deep_view().push(oc.deep_view()).is_prefix_of(
                final(self).out.deep_view(),
            ),
            act matches Step::Done(res) ==> res matches Ok(col)
                && old(self).out.deep_view().push(oc.deep_view()).is_prefix_of(
                    col.cells.deep_view(),
                ),
    {
        let n = self.a.len();
        assert(self.row < n);
        let ghost r0 = self.row as int;
        let ghost ocs = oc.deep_view();
        let ghost pre = self.out.deep_view();
        self.out.push(oc);
        proof {
            assert(self.out.deep_view() =~= pre.push(ocs));
        }
        self.row = self.row + 1;
        let act = self.advance();
        match &act {
            Step::Ask(_) => {
                proof {
                    assert(self.out@[r0].deep_view() == ocs);
                    assert(pre.push(ocs) =~= self.out.deep_view().take(r0 + 1));
                }
            }
            Step::Done(res) => {
                match res {
                    Ok(col) => {
                        proof {
                            assert(pre.push(ocs) =~= col.cells.deep_view().take(r0 + 1));
                        }
                    }
                    Err(_) => {}
                }
            }
        }
        act
    }

    /// Feed the driver's answer to the pending request and get the next
    /// request or the final result.
    ///
    /// A failed decode aborts the run with `DecodeError`, a failed
    /// primitive or emptiness test with `GeometricOperationError`, a failed
    /// serialization with `EncodeError`.  An intersection whose result is
    /// geometrically empty is emitted as an absent cell; a difference whose
    /// right side is absent emits the left cell's bytes unchanged.
    pub fn step(&mut self, r: Reply) -> (act: Step<GeometryColumn>)
        requires
            old(self).inv(),
            !(old(self).phase is Finished),
            old(self).expects(r),
        ensures
            final(self).inv(),
            final(self).a == old(self).a,
            final(self).b == old(self).b,
            final(self).op == old(self).op,
            (old(self).phase is DecodingLeft || old(self).phase is DecodingRight) && r is Failed
                ==> {
                &&& act == Step::<GeometryColumn>::Done(Err(PolarsGeosError::DecodeError))
                &&& final(self).phase is Finished
            },
            (old(self).phase is Computing || old(self).phase is CheckingEmpty) && r is Failed
                ==> {
                &&& act == Step::<GeometryColumn>::Done(
                    Err(PolarsGeosError::GeometricOperationError),
                )
                &&& final(self).phase is Finished
            },
            old(self).phase is Encoding && r is Failed ==> {
                &&& act == Step::<GeometryColumn>::Done(Err(PolarsGeosError::EncodeError))
                &&& final(self).phase is Finished
            },
            old(self).phase is DecodingLeft ==> (r matches Reply::Geom(ha) ==> {
                &&& if old(self).b.deep_view()[old(self).row as int] is Some {
                    &&& act == Step::<GeometryColumn>::Ask(Req::DecodeOther(old(self).row))
                    &&& final(self).phase == PairPhase::DecodingRight(Some(ha))
                    &&& final(self).row == old(self).row
                    &&& final(self).out == old(self).out
                } else {
                    &&& final(self).at_next_row(old(self).row as int + 1, act)
                    &&& old(self).op is Difference ==> {
                        &&& (act is Ask ==> old(self).out.deep_view().push(
                            old(self).a.deep_view()[old(self).row as int],
                        ).is_prefix_of(final(self).out.deep_view()))
                        &&& (act matches Step::Done(res) ==> res matches Ok(col)
                            && old(self).out.deep_view().push(
                                old(self).a.deep_view()[old(self).row as int],
                            ).is_prefix_of(col.cells.deep_view()))
                        &&& (act is Ask ==> final(self).out.deep_view()[old(self).row as int]
                            == old(self).a.deep_view()[old(self).row as int])
                        &&& (act matches Step::Done(res) ==> res matches Ok(col)
                            && col.cells.deep_view()[old(self).row as int] == old(
                            self,
                        ).a.deep_view()[old(self).row as int])
                    }
                    &&& old(self).op is Intersection ==> {
                        &&& (act is Ask ==> old(self).out.deep_view().push(
                            None::<Seq<u8>>,
                        ).is_prefix_of(final(self).out.deep_view()))
                        &&& (act matches Step::Done(res) ==> res matches Ok(col)
                            && old(self).out.deep_view().push(None::<Seq<u8>>).is_prefix_of(
                                col.cells.deep_view(),
                            ))
                        &&& (act is Ask ==> final(self).out.deep_view()[old(self).row as int]
                            is None)
                        &&& (act matches Step::Done(res) ==> res matches Ok(col)
                            && col.cells.deep_view()[old(self).row as int] is None)
                    }
                }
            }),
            old(self).phase matches PairPhase::DecodingRight(la) ==> (r matches Reply::Geom(hb)
                ==> {
                &&& la matches Some(ha) ==> {
                    &&& act == Step::<GeometryColumn>::Ask(pair_req(old(self).op, ha, hb))
                    &&& final(self).phase is Computing
                    &&& final(self).row == old(self).row
                    &&& final(self).out == old(self).out
                }
                &&& la is None ==> {
                    &&& final(self).at_next_row(old(self).row as int + 1, act)
                    &&& (act is Ask ==> old(self).out.deep_view().push(
                        None::<Seq<u8>>,
                    ).is_prefix_of(final(self).out.deep_view()))
                    &&& (act matches Step::Done(res) ==> res matches Ok(col)
                        && old(self).out.deep_view().push(None::<Seq<u8>>).is_prefix_of(
                            col.cells.deep_view(),
                        ))
                    &&& (act is Ask ==> final(self).out.deep_view()[old(self).row as int]
                        is None)
                    &&& (act matches Step::Done(res) ==> res matches Ok(col)
                        && col.cells.deep_view()[old(self).row as int] is None)
                }
            }),
            old(self).phase is Computing ==> (r matches Reply::Geom(h) ==> {
                &&& old(self).op is Intersection ==> {
                    &&& act == Step::<GeometryColumn>::Ask(Req::IsEmpty(h))
                    &&& final(self).phase == PairPhase::CheckingEmpty(h)
                }
                &&& old(self).op is Difference ==> {
                    &&& act == Step::<GeometryColumn>::Ask(Req::Encode(h))
                    &&& final(self).phase is Encoding
                }
                &&& final(self).row == old(self).row
                &&& final(self).out == old(self).out
            }),
            old(self).phase matches PairPhase::CheckingEmpty(h) ==> (r matches Reply::Truth(
                empty,
            ) ==> {
                &&& empty ==> {
                    &&& final(self).at_next_row(old(self).row as int + 1, act)
                    &&& (act is Ask ==> old(self).out.deep_view().push(
                        None::<Seq<u8>>,
                    ).is_prefix_of(final(self).out.deep_view()))
                    &&& (act matches Step::Done(res) ==> res matches Ok(col)
                        && old(self).out.deep_view().push(None::<Seq<u8>>).is_prefix_of(
                            col.cells.deep_view(),
                        ))
                    &&& (act is Ask ==> final(self).out.deep_view()[old(self).row as int]
                        is None)
                    &&& (act matches Step::Done(res) ==> res matches Ok(col)
                        && col.cells.deep_view()[old(self).row as int] is None)
                }
                &&& !empty ==> {
                    &&& act == Step::<GeometryColumn>::Ask(Req::Encode(h))
                    &&& final(self).phase is Encoding
                    &&& final(self).row == old(self).row
                    &&& final(self).out == old(self).out
                }
            }),
            old(self).phase is Encoding ==> (r matches Reply::Bytes(w) ==> {
                &&& final(self).at_next_row(old(self).row as int + 1, act)
                &&& act is Ask ==> old(self).out@.push(Some(w)).is_prefix_of(final(self).out@)
                &&& act matches Step::Done(res) ==> res matches Ok(col)
                    && old(self).out@.push(Some(w)).is_prefix_of(col.cells@)
                &&& act is Ask ==> final(self).out.deep_view()[old(self).row as int] == Some(
                    w.deep_view(),
                )
                &&& act matches Step::Done(res) ==> res matches Ok(col)
                    && col.cells.deep_view()[old(self).row as int] == Some(w.deep_view())
            }),
    {
        match self.phase {
            PairPhase::DecodingLeft => {
                match r {
                    Reply::Geom(ha) => {
                        let n = self.a.len();
                        assert(self.row < n);
                        if self.b[self.row].is_some() {
                            self.phase = PairPhase::DecodingRight(Some(ha));
                            Step::Ask(Req::DecodeOther(self.row))
                        } else {
                            let oc = match (&self.op, &self.a[self.row]) {
                                (PairOp::Difference, Some(bytes)) => {
                                    let copied = copy_bytes(bytes);
                                    proof {
                                        assert(copied.deep_view() =~= bytes.deep_view());
                                    }
                                    Some(copied)
                                }
                                (PairOp::Intersection, _) => None,
                                (PairOp::Difference, None) => unreached(),
                            };
                            self.emit(oc)
                        }
                    }
                    Reply::Failed => {
                        self.phase = PairPhase::Finished;
                        Step::Done(Err(PolarsGeosError::DecodeError))
                    }
                    _ => unreached(),
                }
            }
            PairPhase::DecodingRight(la) => {
                match r {
                    Reply::Geom(hb) => {
                        match la {
                            Some(ha) => {
                                self.phase = PairPhase::Computing;
                                let q = match self.op {
                                    PairOp::Intersection => Req::Intersection(ha, hb),
                                    PairOp::Difference => Req::Difference(ha, hb),
                                };
                                Step::Ask(q)
                            }
                            None => self.emit(None),
                        }
                    }
                    Reply::Failed => {
                        self.phase = PairPhase::Finished;
                        Step::Done(Err(PolarsGeosError::DecodeError))
                    }
                    _ => unreached(),
                }
            }
            PairPhase::Computing => {
                match r {
                    Reply::Geom(h) => {
                        match self.op {
                            PairOp::Intersection => {
                                self.phase = PairPhase::CheckingEmpty(h);
                                Step::Ask(Req::IsEmpty(h))
                            }
                            PairOp::Difference => {
                                self.phase = PairPhase::Encoding;
                                Step::Ask(Req::Encode(h))
                            }
                        }
                    }
                    Reply::Failed => {
                        self.phase = PairPhase::Finished;
                        Step::Done(Err(PolarsGeosError::GeometricOperationError))
                    }
                    _ => unreached(),
                }
            }
            PairPhase::CheckingEmpty(h) => {
                match r {
                    Reply::Truth(empty) => {
                        if empty {
                            self.emit(None)
                        } else {
                            self.phase = PairPhase::Encoding;
                            Step::Ask(Req::Encode(h))
                        }
                    }
                    Reply::Failed => {
                        self.phase = PairPhase::Finished;
                        Step::Done(Err(PolarsGeosError::GeometricOperationError))
                    }
                    _ => unreached(),
                }
            }
            PairPhase::Encoding => {
                match r {
                    Reply::Bytes(w) => self.emit(Some(w)),
                    Reply::Failed => {
                        self.phase = PairPhase::Finished;
                        Step::Done(Err(PolarsGeosError::EncodeError))
                    }
                    _ => unreached(),
                }
            }
            PairPhase::Finished => unreached(),
        }
    }
}

} // verus!
