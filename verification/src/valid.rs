use vstd::prelude::*;
use crate::column::{all_null_between, nulls_match, BooleanColumn, GeometryColumn};
use crate::error::PolarsGeosError;
use crate::request::{Reply, Req, Step};

verus! {

/// Where an `is_valid` run stands inside its current row.
#[derive(Debug, PartialEq, Eq)]
pub enum ValidPhase {
    /// Waiting for the decode of the current row's bytes.
    Decoding,
    /// Waiting for the validity answer about the decoded geometry.
    Checking,
    /// The run has ended and its result was handed out.
    Finished,
}

/// The `is_valid` operation over a column, run as an interactive exchange:
/// for each present row the driver decodes the cell and reports whether the
/// decoded geometry is valid; absent rows pass through as absent.  The
/// output is a boolean column of the same length, named `is_valid`.
pub struct IsValidRun {
    /// The input cells, owned for the duration of the run.
    pub cells: Vec<Option<Vec<u8>>>,
    /// The row being processed (or the next one to process).
    pub row: usize,
    /// The output rows emitted so far.
    pub out: Vec<Option<bool>>,
    /// Where the run stands.
    pub phase: ValidPhase,
}

impl IsValidRun {
    /// The run's internal consistency: the output covers exactly the rows
    /// before `row`, is absent exactly where the input is, and while the
    /// run is live it stands on a present row.
    pub open spec fn inv(&self) -> bool {
        &&& self.row as int <= self.cells@.len()
        &&& nulls_match(self.cells.deep_view(), self.out.deep_view())
        &&& !(self.phase is Finished) ==> {
            &&& self.out@.len() == self.row as int
            &&& (self.row as int) < self.cells@.len()
            &&& self.cells.deep_view()[self.row as int] is Some
        }
    }

    /// Which reply shapes the run is prepared to take next.
    pub open spec fn expects(&self, r: Reply) -> bool {
        match self.phase {
            ValidPhase::Decoding => r is Geom || r is Failed,
            ValidPhase::Checking => r is Truth || r is Failed,
            ValidPhase::Finished => false,
        }
    }

    /// After handling rows before `start`, the run has skipped the absent
    /// rows from `start` on and either asks for the decode of the next
    /// present row, or is finished with the completed boolean column.
    pub open spec fn at_next_row(&self, start: int, act: Step<BooleanColumn>) -> bool {
        &&& start <= self.row as int <= self.cells@.len()
        &&& all_null_between(self.cells.deep_view(), start, self.row as int)
        &&& if (self.row as int) < self.cells@.len() {
            &&& self.cells.deep_view()[self.row as int] is Some
            &&& self.phase is Decoding
            &&& self.out@.len() == self.row as int
            &&& act == Step::<BooleanColumn>::Ask(Req::Decode(self.row))
        } else {
            &&& self.phase is Finished
            &&& act matches Step::Done(Ok(col))
                && col.name@ == "is_valid"@
                && col.values@.len() == self.cells@.len()
                && nulls_match(self.cells.deep_view(), col.values.deep_view())
        }
    }

    /// Start an `is_valid` run over a column.  The run immediately skips
    /// leading absent rows; on an all-absent (or empty) column it finishes
    /// at once with an all-absent boolean column.
    pub fn new(col: GeometryColumn) -> (r: (IsValidRun, Step<BooleanColumn>))
        ensures
            r.0.inv(),
            r.0.cells == col.cells,
            r.0.at_next_row(0, r.1),
            r.1 matches Step::Done(res) ==> res is Ok,
    {
        let mut run = IsValidRun {
            cells: col.cells,
            row: 0,
            out: Vec::new(),
            phase: ValidPhase::Decoding,
        };
        let act = run.advance();
        (run, act)
    }

    /// Skip absent rows (emitting absent outputs) until the next present
    /// row or the end of the column.
    fn advance(&mut self) -> (act: Step<BooleanColumn>)
        requires
            old(self).row as int <= old(self).cells@.len(),
            old(self).out@.len() == old(self).row as int,
            nulls_match(old(self).cells.deep_view(), old(self).out.deep_view()),
        ensures
            final(self).inv(),
            final(self).cells == old(self).cells,
            final(self).at_next_row(old(self).row as int, act),
            act is Ask ==> old(self).out@.is_prefix_of(final(self).out@),
            act matches Step::Done(res) ==> res matches Ok(col)
                && old(self).out@.is_prefix_of(col.values@),
            act is Ask ==> forall|j: int|
                0 <= j < old(self).out@.len() ==> final(self).out@[j] == old(self).out@[j],
            act matches Step::Done(res) ==> res matches Ok(col) && (forall|j: int|
                0 <= j < old(self).out@.len() ==> col.values@[j] == old(self).out@[j]),
    {
        while self.row < self.cells.len() && self.cells[self.row].is_none()
            invariant
                old(self).row as int <= self.row as int <= self.cells@.len(),
                self.out@.len() == self.row as int,
                self.cells == old(self).cells,
                nulls_match(self.cells.deep_view(), self.out.deep_view()),
                all_null_between(self.cells.deep_view(), old(self).row as int, self.row as int),
                old(self).out@.is_prefix_of(self.out@),
                forall|j: int|
                    0 <= j < old(self).out@.len() ==> self.out@[j] == old(self).out@[j],
            decreases self.cells@.len() - self.row as int,
        {
            self.out.push(None);
            self.row = self.row + 1;
        }
        if self.row == self.cells.len() {
            self.phase = ValidPhase::Finished;
            let mut values: Vec<Option<bool>> = Vec::new();
            core::mem::swap(&mut values, &mut self.out);
            Step::Done(Ok(BooleanColumn { name: String::from_str("is_valid"), values }))
        } else {
            self.phase = ValidPhase::Decoding;
            Step::Ask(Req::Decode(self.row))
        }
    }

    /// Feed the driver's answer to the pending request and get the next
    /// request or the final result.
    ///
    /// A failed decode aborts the whole run with `DecodeError`, and a
    /// validity test the geometry library could not answer aborts it with
    /// `GeometricOperationError`; a validity answer is recorded in the
    /// output row and the run moves on.
    pub fn step(&mut self, r: Reply) -> (act: Step<BooleanColumn>)
        requires
            old(self).inv(),
            !(old(self).phase is Finished),
            old(self).expects(r),
        ensures
            final(self).inv(),
            final(self).cells == old(self).cells,
            old(self).phase is Decoding && r is Failed ==> {
                &&& act == Step::<BooleanColumn>::Done(Err(PolarsGeosError::DecodeError))
                &&& final(self).phase is Finished
            },
            old(self).phase is Checking && r is Failed ==> {
                &&& act == Step::<BooleanColumn>::Done(
                    Err(PolarsGeosError::GeometricOperationError),
                )
                &&& final(self).phase is Finished
            },
            old(self).phase is Decoding ==> (r matches Reply::Geom(h) ==> {
                &&& act == Step::<BooleanColumn>::Ask(Req::IsValid(h))
                &&& final(self).phase is Checking
                &&& final(self).row == old(self).row
                &&& final(self).out == old(self).out
            }),
            old(self).phase is Checking ==> (r matches Reply::Truth(v) ==> {
                &&& final(self).at_next_row(old(self).row as int + 1, act)
                &&& act is Ask ==> old(self).out@.push(Some(v)).is_prefix_of(final(self).out@)
                &&& act matches Step::Done(res) ==> res matches Ok(col)
                    && old(self).out@.push(Some(v)).is_prefix_of(col.values@)
                &&& act is Ask ==> final(self).out@[old(self).row as int] == Some(v)
                &&& act matches Step::Done(res) ==> res matches Ok(col)
                    && col.values@[old(self).row as int] == Some(v)
            }),
    {
        match self.phase {
            ValidPhase::Decoding => {
                match r {
                    Reply::Geom(h) => {
                        self.phase = ValidPhase::Checking;
                        Step::Ask(Req::IsValid(h))
                    }
                    Reply::Failed => {
                        self.phase = ValidPhase::Finished;
                        Step::Done(Err(PolarsGeosError::DecodeError))
                    }
                    _ => unreached(),
                }
            }
            ValidPhase::Checking => {
                match r {
                    Reply::Truth(v) => {
                        let n = self.cells.len();
                        assert(self.row < n);
                        self.out.push(Some(v));
                        self.row = self.row + 1;
                        self.advance()
                    }
                    Reply::Failed => {
                        self.phase = ValidPhase::Finished;
                        Step::Done(Err(PolarsGeosError::GeometricOperationError))
                    }
                    _ => unreached(),
                }
            }
            ValidPhase::Finished => unreached(),
        }
    }
}

} // verus!
