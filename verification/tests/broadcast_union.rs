use polars_geos::{
    BroadcastOp, BroadcastRun, GeometryColumn, PairOp, PairRun, PolarsGeosError, Reply, Req, Step,
    UnionRun,
};

fn gcol(cells: Vec<Option<Vec<u8>>>) -> GeometryColumn {
    GeometryColumn::new(String::from("geometry"), cells)
}

fn done_geo(act: Step<GeometryColumn>) -> GeometryColumn {
    match act {
        Step::Done(Ok(col)) => col,
        other => panic!("expected a finished geometry column, got {:?}", other),
    }
}

#[test]
fn test_geom_intersection_disjoint_reference_all_absent() {
    // A column of disjoint polygons against a reference disjoint from all
    // of them: every row is rejected by the prepared reference's quick
    // test and the full intersection is never computed; the output column
    // is entirely absent.
    let col = gcol(vec![Some(vec![1]), Some(vec![2]), Some(vec![3])]);
    let (mut run, act) = BroadcastRun::new(col, BroadcastOp::Intersection);
    assert_eq!(act, Step::Ask(Req::Decode(0)));
    assert_eq!(run.step(Reply::Geom(1)), Step::Ask(Req::IntersectsRef(1)));
    assert_eq!(run.step(Reply::Truth(false)), Step::Ask(Req::Decode(1)));
    assert_eq!(run.step(Reply::Geom(2)), Step::Ask(Req::IntersectsRef(2)));
    assert_eq!(run.step(Reply::Truth(false)), Step::Ask(Req::Decode(2)));
    assert_eq!(run.step(Reply::Geom(3)), Step::Ask(Req::IntersectsRef(3)));
    let col = done_geo(run.step(Reply::Truth(false)));
    assert_eq!(col.name, "geometry");
    assert_eq!(col.cells, vec![None, None, None]);
}

#[test]
fn test_geom_intersection_hit_encodes_result() {
    let col = gcol(vec![None, Some(vec![1])]);
    let (mut run, act) = BroadcastRun::new(col, BroadcastOp::Intersection);
    assert_eq!(act, Step::Ask(Req::Decode(1)));
    assert_eq!(run.step(Reply::Geom(1)), Step::Ask(Req::IntersectsRef(1)));
    assert_eq!(run.step(Reply::Truth(true)), Step::Ask(Req::IntersectionRef(1)));
    assert_eq!(run.step(Reply::Geom(2)), Step::Ask(Req::IsEmpty(2)));
    assert_eq!(run.step(Reply::Truth(false)), Step::Ask(Req::Encode(2)));
    let col = done_geo(run.step(Reply::Bytes(vec![4, 4])));
    assert_eq!(col.cells, vec![None, Some(vec![4, 4])]);
}

#[test]
fn test_geom_intersection_empty_result_is_absent() {
    let col = gcol(vec![Some(vec![1])]);
    let (mut run, _) = BroadcastRun::new(col, BroadcastOp::Intersection);
    run.step(Reply::Geom(1));
    run.step(Reply::Truth(true));
    run.step(Reply::Geom(2));
    let col = done_geo(run.step(Reply::Truth(true)));
    assert_eq!(col.cells, vec![None]);
}

#[test]
fn test_geom_difference_miss_keeps_cell() {
    // A row that does not intersect the reference has nothing subtracted:
    // its bytes come through unchanged.
    let col = gcol(vec![Some(vec![6, 6])]);
    let (mut run, _) = BroadcastRun::new(col, BroadcastOp::Difference);
    run.step(Reply::Geom(1));
    let col = done_geo(run.step(Reply::Truth(false)));
    assert_eq!(col.cells, vec![Some(vec![6, 6])]);
}

#[test]
fn test_geom_difference_trailing_miss_keeps_all_cells() {
    // A hit row is encoded, then the last row's rejection completes the
    // run: the earlier encoded cell survives and the rejected row's bytes
    // come through unchanged.
    let col = gcol(vec![Some(vec![1]), Some(vec![2, 2])]);
    let (mut run, _) = BroadcastRun::new(col, BroadcastOp::Difference);
    run.step(Reply::Geom(1));
    run.step(Reply::Truth(true));
    run.step(Reply::Geom(2));
    assert_eq!(run.step(Reply::Bytes(vec![9])), Step::Ask(Req::Decode(1)));
    run.step(Reply::Geom(3));
    let col = done_geo(run.step(Reply::Truth(false)));
    assert_eq!(col.cells, vec![Some(vec![9]), Some(vec![2, 2])]);
}

#[test]
fn test_geom_difference_hit_encodes_result() {
    let col = gcol(vec![Some(vec![1])]);
    let (mut run, _) = BroadcastRun::new(col, BroadcastOp::Difference);
    assert_eq!(run.step(Reply::Geom(1)), Step::Ask(Req::IntersectsRef(1)));
    assert_eq!(run.step(Reply::Truth(true)), Step::Ask(Req::DifferenceRef(1)));
    assert_eq!(run.step(Reply::Geom(2)), Step::Ask(Req::Encode(2)));
    let col = done_geo(run.step(Reply::Bytes(vec![5])));
    assert_eq!(col.cells, vec![Some(vec![5])]);
}

#[test]
fn test_geom_intersection_test_failure_aborts() {
    let col = gcol(vec![Some(vec![1])]);
    let (mut run, _) = BroadcastRun::new(col, BroadcastOp::Intersection);
    run.step(Reply::Geom(1));
    assert_eq!(
        run.step(Reply::Failed),
        Step::Done(Err(PolarsGeosError::GeometricOperationError))
    );
}

#[test]
fn test_broadcast_agrees_with_pairwise_intersection() {
    // One consistent driver serves both shapes: a broadcast intersection
    // of a column against one geometry, and a pairwise intersection of
    // the same column against that geometry repeated in every row.  Rows
    // that intersect yield the same encoded cell; absent rows stay absent.
    let cells = vec![Some(vec![1]), None];
    let (mut brun, act) = BroadcastRun::new(gcol(cells.clone()), BroadcastOp::Intersection);
    assert_eq!(act, Step::Ask(Req::Decode(0)));
    brun.step(Reply::Geom(1));
    brun.step(Reply::Truth(true));
    brun.step(Reply::Geom(9));
    brun.step(Reply::Truth(false));
    let bcol = done_geo(brun.step(Reply::Bytes(vec![3, 3])));

    let reference = vec![Some(vec![2]), Some(vec![2])];
    let (mut prun, act) = PairRun::new(gcol(cells), gcol(reference), PairOp::Intersection);
    assert_eq!(act, Step::Ask(Req::Decode(0)));
    prun.step(Reply::Geom(1));
    prun.step(Reply::Geom(2));
    prun.step(Reply::Geom(9));
    prun.step(Reply::Truth(false));
    // Row 1 of the pairwise run still decodes the present reference cell.
    assert_eq!(prun.step(Reply::Bytes(vec![3, 3])), Step::Ask(Req::DecodeOther(1)));
    let pcol = done_geo(prun.step(Reply::Geom(2)));
    assert_eq!(bcol.cells, pcol.cells);
}

#[test]
fn test_self_union_no_geometries() {
    let (_, act) = UnionRun::new(gcol(vec![None, None]));
    assert_eq!(act, Step::Done(Err(PolarsGeosError::NoGeometries)));
    let (_, act) = UnionRun::new(gcol(vec![]));
    assert_eq!(act, Step::Done(Err(PolarsGeosError::NoGeometries)));
}

#[test]
fn test_self_union_single_present_row() {
    // Exactly one present row: the reduction is that row's own decoded
    // geometry, with no union ever requested.
    let (mut run, act) = UnionRun::new(gcol(vec![None, Some(vec![1]), None]));
    assert_eq!(act, Step::Ask(Req::Decode(1)));
    assert_eq!(run.step(Reply::Geom(42)), Step::Done(Ok(42)));
}

#[test]
fn test_self_union_folds_in_row_order() {
    let cells = vec![Some(vec![1]), None, Some(vec![2]), Some(vec![3])];
    let (mut run, act) = UnionRun::new(gcol(cells));
    assert_eq!(act, Step::Ask(Req::Decode(0)));
    assert_eq!(run.step(Reply::Geom(1)), Step::Ask(Req::Decode(2)));
    assert_eq!(run.step(Reply::Geom(2)), Step::Ask(Req::Union(1, 2)));
    assert_eq!(run.step(Reply::Geom(10)), Step::Ask(Req::Decode(3)));
    assert_eq!(run.step(Reply::Geom(3)), Step::Ask(Req::Union(10, 3)));
    assert_eq!(run.step(Reply::Geom(11)), Step::Done(Ok(11)));
}

#[test]
fn test_self_union_union_failure() {
    let (mut run, _) = UnionRun::new(gcol(vec![Some(vec![1]), Some(vec![2])]));
    run.step(Reply::Geom(1));
    run.step(Reply::Geom(2));
    assert_eq!(
        run.step(Reply::Failed),
        Step::Done(Err(PolarsGeosError::GeometricOperationError))
    );
}

#[test]
fn test_self_union_decode_failure() {
    let (mut run, _) = UnionRun::new(gcol(vec![Some(vec![1])]));
    assert_eq!(
        run.step(Reply::Failed),
        Step::Done(Err(PolarsGeosError::DecodeError))
    );
}

#[test]
fn test_intersection() {
    // The lakes-against-states shape: a column of region geometries is
    // reduced to one reference by self-union, and a second column is then
    // intersected against that reference with the prepared quick test
    // sparing the disjoint rows.
    let states = gcol(vec![Some(vec![1]), Some(vec![2])]);
    let (mut urun, act) = UnionRun::new(states);
    assert_eq!(act, Step::Ask(Req::Decode(0)));
    urun.step(Reply::Geom(1));
    urun.step(Reply::Geom(2));
    let reference = match urun.step(Reply::Geom(50)) {
        Step::Done(Ok(h)) => h,
        other => panic!("expected a reduced geometry handle, got {:?}", other),
    };
    assert_eq!(reference, 50);

    let lakes = gcol(vec![Some(vec![7]), None, Some(vec![8])]);
    let (mut brun, act) = BroadcastRun::new(lakes, BroadcastOp::Intersection);
    assert_eq!(act, Step::Ask(Req::Decode(0)));
    brun.step(Reply::Geom(3));
    // The first lake overlaps the unioned reference, the second does not.
    brun.step(Reply::Truth(true));
    brun.step(Reply::Geom(4));
    brun.step(Reply::Truth(false));
    assert_eq!(brun.step(Reply::Bytes(vec![9, 9])), Step::Ask(Req::Decode(2)));
    brun.step(Reply::Geom(5));
    let col = done_geo(brun.step(Reply::Truth(false)));
    assert_eq!(col.cells, vec![Some(vec![9, 9]), None, None]);
}
