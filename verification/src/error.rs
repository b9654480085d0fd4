use vstd::prelude::*;

verus! {

/// The failures a columnar geometry operation can surface.  Every operation
/// either returns a whole result or aborts with exactly one of these; there
/// is no partial, per-row result.
#[derive(Debug, Clone, Copy, PartialEq, Eq, Structural)]
pub enum PolarsGeosError {
    /// A present cell's bytes do not parse as a geometry.
    DecodeError,
    /// A computed geometry could not be serialized back into binary form.
    EncodeError,
    /// The geometry library reported a failure for one row's primitive.
    GeometricOperationError,
    /// Two columns handed to a pairwise operation differ in row count.
    UnequalLengths,
    /// A whole-column reduction was asked of a column with no present rows.
    NoGeometries,
    /// An output buffer could not be wrapped into the caller's column type.
    ColumnConstructionError,
}

} // verus!
