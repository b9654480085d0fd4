use vstd::prelude::*;
use crate::error::PolarsGeosError;

verus! {

/// One primitive that the caller's driver is asked to run on the outside
/// geometry library.  Geometries live on the driver's side and are referred
/// to here only by the opaque handles the driver itself assigned; row
/// indexes refer to the cells of the column a run was started on.
#[derive(Debug, Clone, PartialEq, Eq)]
pub enum Req {
    /// Parse the bytes of the given row of the first column; answer
    /// `Geom` with a fresh handle, or `Failed`.
    Decode(usize),
    /// Parse the bytes of the given row of the second column; answer
    /// `Geom` or `Failed`.
    DecodeOther(usize),
    /// Is the geometry behind the handle valid?  Answer `Truth` or `Failed`.
    IsValid(u64),
    /// Repair the geometry behind the handle; answer `Geom` or `Failed`.
    MakeValid(u64),
    /// Buffer the geometry: handle, width as the bits of a binary64
    /// number, and quadrant segments; answer `Geom` or `Failed`.
    Buffer(u64, u64, i32),
    /// Does the prepared reference geometry intersect the geometry behind
    /// the handle?  Answer `Truth` or `Failed`.
    IntersectsRef(u64),
    /// Intersection of the two geometries; answer `Geom` or `Failed`.
    Intersection(u64, u64),
    /// Intersection of the geometry behind the handle with the reference
    /// geometry; answer `Geom` or `Failed`.
    IntersectionRef(u64),
    /// Difference of the first geometry minus the second; answer `Geom`
    /// or `Failed`.
    Difference(u64, u64),
    /// Difference of the geometry behind the handle minus the reference
    /// geometry; answer `Geom` or `Failed`.
    DifferenceRef(u64),
    /// Union of the two geometries; answer `Geom` or `Failed`.
    Union(u64, u64),
    /// Is the geometry behind the handle empty?  Answer `Truth` or `Failed`.
    IsEmpty(u64),
    /// Serialize the geometry behind the handle; answer `Bytes` or `Failed`.
    Encode(u64),
}

/// The driver's answer to the most recent request.
#[derive(Debug, Clone, PartialEq, Eq)]
pub enum Reply {
    /// A handle to a geometry the driver now holds.
    Geom(u64),
    /// A boolean answer.
    Truth(bool),
    /// Serialized bytes.
    Bytes(Vec<u8>),
    /// The primitive failed.
    Failed,
}

/// What an operation wants next: one more primitive run by the driver, or
/// the operation's final result.
#[derive(Debug, PartialEq, Eq)]
pub enum Step<T> {
    /// Run this primitive and call `step` with the answer.
    Ask(Req),
    /// The operation is over; this is its result.
    Done(Result<T, PolarsGeosError>),
}

} // verus!
