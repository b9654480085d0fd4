use polars_geos::{
    BooleanColumn, GeometryColumn, IsValidRun, MapOp, MapRun, PairOp, PairRun, PolarsGeosError,
    Reply, Req, Step,
};

fn gcol(cells: Vec<Option<Vec<u8>>>) -> GeometryColumn {
    GeometryColumn::new(String::from("geometry"), cells)
}

fn done_geo(act: Step<GeometryColumn>) -> GeometryColumn {
    match act {
        Step::Done(Ok(col)) => col,
        other => panic!("expected a finished geometry column, got {:?}", other),
    }
}

fn done_bool(act: Step<BooleanColumn>) -> BooleanColumn {
    match act {
        Step::Done(Ok(col)) => col,
        other => panic!("expected a finished boolean column, got {:?}", other),
    }
}

#[test]
fn test_is_valid_null_pattern() {
    let col = gcol(vec![Some(vec![1, 2]), None, Some(vec![3, 4])]);
    let (mut run, act) = IsValidRun::new(col);
    assert_eq!(act, Step::Ask(Req::Decode(0)));
    assert_eq!(run.step(Reply::Geom(7)), Step::Ask(Req::IsValid(7)));
    assert_eq!(run.step(Reply::Truth(true)), Step::Ask(Req::Decode(2)));
    assert_eq!(run.step(Reply::Geom(8)), Step::Ask(Req::IsValid(8)));
    let col = done_bool(run.step(Reply::Truth(false)));
    assert_eq!(col.name, "is_valid");
    assert_eq!(col.values, vec![Some(true), None, Some(false)]);
}

#[test]
fn test_is_valid_empty_column() {
    let (_, act) = IsValidRun::new(gcol(vec![]));
    let col = done_bool(act);
    assert_eq!(col.name, "is_valid");
    assert!(col.values.is_empty());
}

#[test]
fn test_is_valid_all_absent() {
    let (_, act) = IsValidRun::new(gcol(vec![None, None]));
    let col = done_bool(act);
    assert_eq!(col.values, vec![None, None]);
}

#[test]
fn test_is_valid_decode_failure() {
    let (mut run, act) = IsValidRun::new(gcol(vec![Some(vec![0xff])]));
    assert_eq!(act, Step::Ask(Req::Decode(0)));
    assert_eq!(
        run.step(Reply::Failed),
        Step::Done(Err(PolarsGeosError::DecodeError))
    );
}

#[test]
fn test_is_valid_check_failure() {
    let (mut run, _) = IsValidRun::new(gcol(vec![Some(vec![1])]));
    run.step(Reply::Geom(1));
    assert_eq!(
        run.step(Reply::Failed),
        Step::Done(Err(PolarsGeosError::GeometricOperationError))
    );
}

#[test]
fn test_make_valid_reencodes_rows() {
    let col = gcol(vec![Some(vec![1]), None]);
    let (mut run, act) = MapRun::new(col, MapOp::MakeValid);
    assert_eq!(act, Step::Ask(Req::Decode(0)));
    assert_eq!(run.step(Reply::Geom(1)), Step::Ask(Req::MakeValid(1)));
    assert_eq!(run.step(Reply::Geom(2)), Step::Ask(Req::Encode(2)));
    let col = done_geo(run.step(Reply::Bytes(vec![9, 9])));
    assert_eq!(col.name, "geometry");
    assert_eq!(col.cells, vec![Some(vec![9, 9]), None]);
}

#[test]
fn test_make_valid_primitive_failure() {
    let (mut run, _) = MapRun::new(gcol(vec![Some(vec![1])]), MapOp::MakeValid);
    run.step(Reply::Geom(1));
    assert_eq!(
        run.step(Reply::Failed),
        Step::Done(Err(PolarsGeosError::GeometricOperationError))
    );
}

#[test]
fn test_buffer() {
    // Two points, (1, 2) and (3, 4), buffered with width 1.0 and 8 quadrant
    // segments: each present row is decoded, buffered with exactly that
    // width and segment count, and re-encoded into a present polygon cell.
    let width = (1.0f64).to_bits();
    let col = gcol(vec![Some(vec![1, 2]), Some(vec![3, 4])]);
    let (mut run, act) = MapRun::new(col, MapOp::Buffer(width, 8));
    assert_eq!(act, Step::Ask(Req::Decode(0)));
    assert_eq!(run.step(Reply::Geom(1)), Step::Ask(Req::Buffer(1, width, 8)));
    assert_eq!(run.step(Reply::Geom(2)), Step::Ask(Req::Encode(2)));
    assert_eq!(run.step(Reply::Bytes(vec![10])), Step::Ask(Req::Decode(1)));
    assert_eq!(run.step(Reply::Geom(3)), Step::Ask(Req::Buffer(3, width, 8)));
    assert_eq!(run.step(Reply::Geom(4)), Step::Ask(Req::Encode(4)));
    let col = done_geo(run.step(Reply::Bytes(vec![11])));
    assert_eq!(col.name, "geometry");
    assert_eq!(col.cells, vec![Some(vec![10]), Some(vec![11])]);
}

#[test]
fn test_buffer_encode_failure() {
    let (mut run, _) = MapRun::new(gcol(vec![Some(vec![1])]), MapOp::Buffer(0, 8));
    run.step(Reply::Geom(1));
    run.step(Reply::Geom(2));
    assert_eq!(
        run.step(Reply::Failed),
        Step::Done(Err(PolarsGeosError::EncodeError))
    );
}

#[test]
fn test_intersection_pairwise_rows() {
    let a = gcol(vec![Some(vec![1]), Some(vec![2])]);
    let b = gcol(vec![Some(vec![3]), None]);
    let (mut run, act) = PairRun::new(a, b, PairOp::Intersection);
    assert_eq!(act, Step::Ask(Req::Decode(0)));
    assert_eq!(run.step(Reply::Geom(1)), Step::Ask(Req::DecodeOther(0)));
    assert_eq!(run.step(Reply::Geom(2)), Step::Ask(Req::Intersection(1, 2)));
    assert_eq!(run.step(Reply::Geom(3)), Step::Ask(Req::IsEmpty(3)));
    assert_eq!(run.step(Reply::Truth(false)), Step::Ask(Req::Encode(3)));
    // Row 1: the left cell is still decoded (its bytes must parse) even
    // though the absent right side forces an absent output.
    assert_eq!(run.step(Reply::Bytes(vec![7, 7])), Step::Ask(Req::Decode(1)));
    let col = done_geo(run.step(Reply::Geom(4)));
    assert_eq!(col.name, "geometry");
    assert_eq!(col.cells, vec![Some(vec![7, 7]), None]);
}

#[test]
fn test_intersection_empty_result_is_absent() {
    let a = gcol(vec![Some(vec![1])]);
    let b = gcol(vec![Some(vec![2])]);
    let (mut run, _) = PairRun::new(a, b, PairOp::Intersection);
    run.step(Reply::Geom(1));
    run.step(Reply::Geom(2));
    assert_eq!(run.step(Reply::Geom(3)), Step::Ask(Req::IsEmpty(3)));
    let col = done_geo(run.step(Reply::Truth(true)));
    assert_eq!(col.cells, vec![None]);
}

#[test]
fn test_intersection_unequal_lengths() {
    let a = gcol(vec![Some(vec![1]), None]);
    let b = gcol(vec![Some(vec![2])]);
    let (_, act) = PairRun::new(a, b, PairOp::Intersection);
    assert_eq!(act, Step::Done(Err(PolarsGeosError::UnequalLengths)));
}

#[test]
fn test_difference_unequal_lengths() {
    let a = gcol(vec![]);
    let b = gcol(vec![None]);
    let (_, act) = PairRun::new(a, b, PairOp::Difference);
    assert_eq!(act, Step::Done(Err(PolarsGeosError::UnequalLengths)));
}

#[test]
fn test_difference_absent_right_keeps_left_cell() {
    let a = gcol(vec![Some(vec![5, 6, 7])]);
    let b = gcol(vec![None]);
    let (mut run, act) = PairRun::new(a, b, PairOp::Difference);
    assert_eq!(act, Step::Ask(Req::Decode(0)));
    let col = done_geo(run.step(Reply::Geom(1)));
    assert_eq!(col.cells, vec![Some(vec![5, 6, 7])]);
}

#[test]
fn test_difference_rows() {
    let a = gcol(vec![Some(vec![1]), None, None]);
    let b = gcol(vec![Some(vec![2]), Some(vec![3]), None]);
    let (mut run, act) = PairRun::new(a, b, PairOp::Difference);
    assert_eq!(act, Step::Ask(Req::Decode(0)));
    assert_eq!(run.step(Reply::Geom(1)), Step::Ask(Req::DecodeOther(0)));
    assert_eq!(run.step(Reply::Geom(2)), Step::Ask(Req::Difference(1, 2)));
    assert_eq!(run.step(Reply::Geom(3)), Step::Ask(Req::Encode(3)));
    // Row 1: absent left, present right: the right cell is still decoded,
    // the output row is absent.  Row 2 is absent on both sides and asks
    // for nothing.
    assert_eq!(run.step(Reply::Bytes(vec![8])), Step::Ask(Req::DecodeOther(1)));
    let col = done_geo(run.step(Reply::Geom(4)));
    assert_eq!(col.cells, vec![Some(vec![8]), None, None]);
}

#[test]
fn test_difference_decode_failure() {
    let a = gcol(vec![Some(vec![1])]);
    let b = gcol(vec![Some(vec![2])]);
    let (mut run, _) = PairRun::new(a, b, PairOp::Difference);
    assert_eq!(
        run.step(Reply::Failed),
        Step::Done(Err(PolarsGeosError::DecodeError))
    );
}

#[test]
fn test_intersection_primitive_failure() {
    let a = gcol(vec![Some(vec![1])]);
    let b = gcol(vec![Some(vec![2])]);
    let (mut run, _) = PairRun::new(a, b, PairOp::Intersection);
    run.step(Reply::Geom(1));
    run.step(Reply::Geom(2));
    assert_eq!(
        run.step(Reply::Failed),
        Step::Done(Err(PolarsGeosError::GeometricOperationError))
    );
}
