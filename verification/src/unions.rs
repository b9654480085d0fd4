use vstd::prelude::*;
use crate::column::{all_null, all_null_between, GeometryColumn};
use crate::error::PolarsGeosError;
use crate::request::{Reply, Req, Step};

verus! {

/// Where a union reduction stands.
#[derive(Debug, PartialEq, Eq)]
pub enum UnionPhase {
    /// Waiting for the decode of the current present row's bytes.
    Decoding,
    /// Waiting for the union of the accumulator with the row's geometry.
    Uniting,
    /// The run has ended and its result was handed out.
    Finished,
}

/// `self_union`: reduce a whole column to one geometry by folding every
/// present row into an accumulator via pairwise union, in row order,
/// skipping absent rows.  The result is the driver-side handle of the
/// accumulated geometry; a column with no present rows fails with
/// `NoGeometries`.
pub struct UnionRun {
    /// The input cells, owned for the duration of the run.
    pub cells: Vec<Option<Vec<u8>>>,
    /// The row being processed (or the next one to process).
    pub row: usize,
    /// The accumulator's handle, once the seed row was decoded.
    pub acc: Option<u64>,
    /// Where the run stands.
    pub phase: UnionPhase,
}

impl UnionRun {
    /// The run's internal consistency: while it is live it stands on a
    /// present row, it unites only once an accumulator exists, and before
    /// the seed is decoded every earlier row is known absent.
    pub open spec fn inv(&self) -> bool {
        &&& self.row as int <= self.cells@.len()
        &&& !(self.phase is Finished) ==> {
            &&& (self.row as int) < self.cells@.len()
            &&& self.cells.deep_view()[self.row as int] is Some
            &&& (self.phase is Uniting ==> self.acc is Some)
            &&& (self.phase is Decoding && self.acc is None ==> all_null_between(
                self.cells.deep_view(),
                0,
                self.row as int,
            ))
        }
    }

    /// Which reply shapes the run is prepared to take next.
    pub open spec fn expects(&self, r: Reply) -> bool {
        match self.phase {
            UnionPhase::Decoding => r is Geom || r is Failed,
            UnionPhase::Uniting => r is Geom || r is Failed,
            UnionPhase::Finished => false,
        }
    }

    /// Holding the accumulator's handle `a`, the run has skipped absent
    /// rows from `start` on and either asks for the decode of the next
    /// present row, or is finished with `a` as the reduction's result.
    pub open spec fn at_next_row(&self, start: int, a: u64, act: Step<u64>) -> bool {
        &&& start <= self.row as int <= self.cells@.len()
        &&& all_null_between(self.cells.deep_view(), start, self.row as int)
        &&& self.acc == Some(a)
        &&& if (self.row as int) < self.cells@.len() {
            &&& self.cells.deep_view()[self.row as int] is Some
            &&& self.phase is Decoding
            &&& act == Step::<u64>::Ask(Req::Decode(self.row))
        } else {
            &&& self.phase is Finished
            &&& act == Step::<u64>::Done(Ok(a))
        }
    }

    /// Start a union reduction over a column.  A column with no present
    /// rows fails at once with `NoGeometries` — the only failure possible
    /// before the driver is consulted; otherwise the run asks for the
    /// decode of the first present row, the reduction's seed.
    pub fn new(col: GeometryColumn) -> (r: (UnionRun, Step<u64>))
        ensures
            r.0.inv(),
            r.0.cells == col.cells,
            all_null(col.cells.deep_view()) <==> (r.1 == Step::<u64>::Done(
                Err(PolarsGeosError::NoGeometries),
            )),
            !all_null(col.cells.deep_view()) ==> {
                &&& r.0.acc is None
                &&& r.0.phase is Decoding
                &&& all_null_between(col.cells.deep_view(), 0, r.0.row as int)
                &&& r.0.cells.deep_view()[r.0.row as int] is Some
                &&& r.1 == Step::<u64>::Ask(Req::Decode(r.0.row))
            },
            r.1 matches Step::Done(res) ==> res matches Err(e) && e
                == PolarsGeosError::NoGeometries,
    {
        let mut run = UnionRun {
            cells: col.cells,
            row: 0,
            acc: None,
            phase: UnionPhase::Finished,
        };
        while run.row < run.cells.len() && run.cells[run.row].is_none()
            invariant
                run.row as int <= run.cells@.len(),
                run.cells == col.cells,
                run.acc is None,
                run.phase is Finished,
                all_null_between(run.cells.deep_view(), 0, run.row as int),
            decreases run.cells@.len() - run.row as int,
        {
            run.row = run.row + 1;
        }
        if run.row == run.cells.len() {
            (run, Step::Done(Err(PolarsGeosError::NoGeometries)))
        } else {
            run.phase = UnionPhase::Decoding;
            let act = Step::Ask(Req::Decode(run.row));
            (run, act)
        }
    }

    /// Make `a` the accumulator and skip absent rows until the next
    /// present row or the end of the column.
    fn advance(&mut self, a: u64) -> (act: Step<u64>)
        requires
            old(self).row as int <= old(self).cells@.len(),
        ensures
            final(self).inv(),
            final(self).cells == old(self).cells,
            final(self).at_next_row(old(self).row as int, a, act),
    {
        self.acc = Some(a);
        while self.row < self.cells.len() && self.cells[self.row].is_none()
            invariant
                old(self).row as int <= self.row as int <= self.cells@.len(),
                self.cells == old(self).cells,
                self.acc == Some(a),
                all_null_between(self.cells.deep_view(), old(self).row as int, self.row as int),
            decreases self.cells@.len() - self.row as int,
        {
            self.row = self.row + 1;
        }
        if self.row == self.cells.len() {
            self.phase = UnionPhase::Finished;
            Step::Done(Ok(a))
        } else {
            self.phase = UnionPhase::Decoding;
            Step::Ask(Req::Decode(self.row))
        }
    }

    /// Feed the driver's answer to the pending request and get the next
    /// request or the final result.
    ///
    /// The first decoded row seeds the accumulator; every later decoded
    /// row is folded in with one `Union` of the accumulator and the row,
    /// whose answer becomes the new accumulator.  In particular a column
    /// with exactly one present row finishes with that row's own decoded
    /// geometry, untouched by any union.  A failed decode aborts the run
    /// with `DecodeError`, a failed union with `GeometricOperationError`.
    pub fn step(&mut self, r: Reply) -> (act: Step<u64>)
        requires
            old(self).inv(),
            !(old(self).phase is Finished),
            old(self).expects(r),
        ensures
            final(self).inv(),
            final(self).cells == old(self).cells,
            old(self).phase is Decoding && r is Failed ==> {
                &&& act == Step::<u64>::Done(Err(PolarsGeosError::DecodeError))
                &&& final(self).phase is Finished
            },
            old(self).phase is Uniting && r is Failed ==> {
                &&& act == Step::<u64>::Done(Err(PolarsGeosError::GeometricOperationError))
                &&& final(self).phase is Finished
            },
            old(self).phase is Decoding && old(self).acc is None ==> (r matches Reply::Geom(h)
                ==> final(self).at_next_row(old(self).row as int + 1, h, act)),
            old(self).phase is Decoding ==> (old(self).acc matches Some(a) ==> (r
                matches Reply::Geom(h) ==> {
                &&& act == Step::<u64>::Ask(Req::Union(a, h))
                &&& final(self).phase is Uniting
                &&& final(self).row == old(self).row
                &&& final(self).acc == old(self).acc
            })),
            old(self).phase is Uniting ==> (r matches Reply::Geom(h) ==> final(self).at_next_row(
                old(self).row as int + 1,
                h,
                act,
            )),
    {
        match self.phase {
            UnionPhase::Decoding => {
                match r {
                    Reply::Geom(h) => {
                        match self.acc {
                            Some(a) => {
                                self.phase = UnionPhase::Uniting;
                                Step::Ask(Req::Union(a, h))
                            }
                            None => {
                                let n = self.cells.len();
                                assert(self.row < n);
                                self.row = self.row + 1;
                                self.advance(h)
                            }
                        }
                    }
                    Reply::Failed => {
                        self.phase = UnionPhase::Finished;
                        Step::Done(Err(PolarsGeosError::DecodeError))
                    }
                    _ => unreached(),
                }
            }
            UnionPhase::Uniting => {
                match r {
                    Reply::Geom(h) => {
                        let n = self.cells.len();
                        assert(self.row < n);
                        self.row = self.row + 1;
                        self.advance(h)
                    }
                    Reply::Failed => {
                        self.phase = UnionPhase::Finished;
                        Step::Done(Err(PolarsGeosError::GeometricOperationError))
                    }
                    _ => unreached(),
                }
            }
            UnionPhase::Finished => unreached(),
        }
    }
}

} // verus!
