use vstd::prelude::*;

verus! {

/// An ordered, nullable column of binary-encoded geometry cells.  The
/// encoding of a present cell is the geometry library's binary interchange
/// format; this crate never looks inside the bytes, it only moves them.
#[derive(Debug, Clone, PartialEq, Eq)]
pub struct GeometryColumn {
    /// The column's name.
    pub name: String,
    /// One entry per logical row; `None` is an absent row.
    pub cells: Vec<Option<Vec<u8>>>,
}

/// An ordered, nullable column of booleans, row-aligned with the geometry
/// column it was computed from.
#[derive(Debug, Clone, PartialEq, Eq)]
pub struct BooleanColumn {
    /// The column's name.
    pub name: String,
    /// One entry per logical row; `None` is an absent row.
    pub values: Vec<Option<bool>>,
}

impl GeometryColumn {
    /// Wrap a fully populated nullable buffer and a name into a column.
    pub fn new(name: String, cells: Vec<Option<Vec<u8>>>) -> (r: GeometryColumn)
        ensures
            r.name == name,
            r.cells == cells,
    {
        GeometryColumn { name, cells }
    }
}

impl BooleanColumn {
    /// Wrap a fully populated nullable boolean buffer and a name into a column.
    pub fn new(name: String, values: Vec<Option<bool>>) -> (r: BooleanColumn)
        ensures
            r.name == name,
            r.values == values,
    {
        BooleanColumn { name, values }
    }
}

/// Copy one present cell's bytes, preserving them exactly.
pub fn copy_bytes(v: &Vec<u8>) -> (r: Vec<u8>)
    ensures
        r@ == v@,
{
    let mut r: Vec<u8> = Vec::new();
    let mut i: usize = 0;
    while i < v.len()
        invariant
            i as int <= v@.len(),
            r@ == v@.take(i as int),
        decreases v@.len() - i as int,
    {
        r.push(v[i]);
        proof {
            assert(v@.take(i as int).push(v@[i as int]) =~= v@.take(i as int + 1));
        }
        i = i + 1;
    }
    proof {
        assert(v@.take(v@.len() as int) =~= v@);
    }
    r
}

/// The rows of `out` are absent exactly where the rows of `cells` are,
/// over the prefix that `out` already covers.
pub open spec fn nulls_match<T>(cells: Seq<Option<Seq<u8>>>, out: Seq<Option<T>>) -> bool {
    forall|j: int| 0 <= j < out.len() ==> (out[j] is None <==> cells[j] is None)
}

/// Every row of `cells` in `[a, b)` is absent.
pub open spec fn all_null_between(cells: Seq<Option<Seq<u8>>>, a: int, b: int) -> bool {
    forall|j: int| a <= j < b ==> cells[j] is None
}

/// No row of `cells` is present.
pub open spec fn all_null(cells: Seq<Option<Seq<u8>>>) -> bool {
    all_null_between(cells, 0, cells.len() as int)
}

} // verus!
