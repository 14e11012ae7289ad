use custom_datasource::expr::{binary_text, ColumnExpr, CustomBinaryExpr, ExprError, PhysicalExpr, ScalarExpr};
use custom_datasource::operator::Operator;
use custom_datasource::schema::{DataType, Field, Schema};
use custom_datasource::values::{ArrayValues, Column, ColumnarValue, RecordBatch, ScalarValue};

fn int32(values: &[Option<i32>]) -> ColumnarValue {
    ColumnarValue::Array(Column::Values(ArrayValues::Int32(values.to_vec())))
}

fn boolean(values: &[Option<bool>]) -> ColumnarValue {
    ColumnarValue::Array(Column::Values(ArrayValues::Boolean(values.to_vec())))
}

fn column(name: &str, index: usize) -> PhysicalExpr {
    PhysicalExpr::Column(ColumnExpr::new(name, index))
}

fn literal(value: ScalarValue) -> PhysicalExpr {
    PhysicalExpr::Scalar(ScalarExpr::new(value))
}

const LEFT: [Option<i32>; 4] = [Some(1), Some(2), None, Some(4)];
const RIGHT: [Option<i32>; 4] = [Some(2), Some(2), Some(3), Some(1)];

#[test]
fn compare_each_ordering_operator() {
    let cases = [
        (Operator::Lt, vec![Some(true), Some(false), None, Some(false)]),
        (Operator::LtEq, vec![Some(true), Some(true), None, Some(false)]),
        (Operator::Gt, vec![Some(false), Some(false), None, Some(true)]),
        (Operator::GtEq, vec![Some(false), Some(true), None, Some(true)]),
    ];
    for (op, expected) in cases {
        assert_eq!(CustomBinaryExpr::compare(op, int32(&LEFT), int32(&RIGHT)).unwrap(), expected);
    }
}

#[test]
fn compare_swapped_operands_with_converse_operator() {
    let lt = CustomBinaryExpr::compare(Operator::Lt, int32(&LEFT), int32(&RIGHT)).unwrap();
    let gt = CustomBinaryExpr::compare(Operator::Gt, int32(&RIGHT), int32(&LEFT)).unwrap();
    assert_eq!(lt, gt);
}

#[test]
fn compare_booleans_orders_false_first() {
    let res = CustomBinaryExpr::compare(
        Operator::Lt,
        boolean(&[Some(false), Some(true), Some(false)]),
        boolean(&[Some(true), Some(true), None]),
    )
    .unwrap();
    assert_eq!(res, vec![Some(true), Some(false), None]);
}

#[test]
fn compare_arrays_of_different_lengths() {
    assert_eq!(
        CustomBinaryExpr::compare(Operator::Lt, int32(&[Some(1), Some(2), Some(3)]), int32(&[Some(1), Some(2)])).unwrap_err(),
        ExprError::LengthMismatch(3, 2)
    );
}

#[test]
fn compare_values_of_different_types() {
    assert_eq!(
        CustomBinaryExpr::compare(Operator::Gt, int32(&[Some(1)]), boolean(&[Some(true)])).unwrap_err(),
        ExprError::IncomparableTypes(DataType::Int32, DataType::Boolean)
    );
}

#[test]
fn compare_brings_a_scalar_to_the_array_length() {
    let res = CustomBinaryExpr::compare(
        Operator::GtEq,
        ColumnarValue::Scalar(ScalarValue::Int32(Some(2))),
        int32(&[Some(1), Some(2), Some(3), None]),
    )
    .unwrap();
    assert_eq!(res, vec![Some(true), Some(true), Some(false), None]);
    let res = CustomBinaryExpr::compare(
        Operator::Lt,
        ColumnarValue::Scalar(ScalarValue::Int32(Some(1))),
        ColumnarValue::Scalar(ScalarValue::Int32(None)),
    )
    .unwrap();
    assert_eq!(res, vec![None]);
}

#[test]
fn data_type_of_expressions() {
    let schema = Schema::new(vec![Field::new("a", DataType::Int32, true), Field::new("f", DataType::Boolean, false)]);
    assert_eq!(column("f", 1).data_type(&schema), DataType::Boolean);
    assert_eq!(literal(ScalarValue::Int32(Some(3))).data_type(&schema), DataType::Int32);
    let plus = PhysicalExpr::Binary(CustomBinaryExpr::new(column("a", 0), Operator::Plus, column("f", 1)));
    assert_eq!(plus.data_type(&schema), DataType::Int32);
    let not_eq = PhysicalExpr::Binary(CustomBinaryExpr::new(column("a", 0), Operator::NotEq, column("f", 1)));
    assert_eq!(not_eq.data_type(&schema), DataType::Boolean);
}

#[test]
fn evaluate_expressions() {
    let batch = RecordBatch::try_new(
        vec![Column::Values(ArrayValues::Int32(vec![Some(7), Some(-1)]))],
        2,
    )
    .unwrap();
    match column("a", 0).evaluate(&batch).unwrap() {
        ColumnarValue::Array(Column::Values(ArrayValues::Int32(v))) => assert_eq!(v, vec![Some(7), Some(-1)]),
        other => panic!("unexpected {:?}", other),
    }
    match literal(ScalarValue::Boolean(None)).evaluate(&batch).unwrap() {
        ColumnarValue::Scalar(s) => assert_eq!(s, ScalarValue::Boolean(None)),
        other => panic!("unexpected {:?}", other),
    }
    let le = PhysicalExpr::Binary(CustomBinaryExpr::new(column("a", 0), Operator::LtEq, literal(ScalarValue::Int32(Some(0)))));
    match le.evaluate(&batch).unwrap() {
        ColumnarValue::Array(Column::Values(ArrayValues::Boolean(v))) => assert_eq!(v, vec![Some(false), Some(true)]),
        other => panic!("unexpected {:?}", other),
    }
}

#[test]
fn column_expr_new_and_children() {
    let c = ColumnExpr::new("a", 3);
    assert_eq!(c.name, "a");
    assert_eq!(c.index, 3);
    assert!(c.children().is_empty());
    let c = c.with_new_children(vec![]).unwrap();
    assert_eq!(c.index, 3);
    assert_eq!(c.with_new_children(vec![column("b", 0)]).unwrap_err(), ExprError::ChildrenNotAllowed);
}

#[test]
fn scalar_expr_ignores_new_children() {
    let s = ScalarExpr::new(ScalarValue::Int32(Some(9)));
    let s = s.with_new_children(vec![column("b", 0)]);
    assert_eq!(s.value, ScalarValue::Int32(Some(9)));
    assert!(s.children().is_empty());
}

#[test]
fn binary_expr_try_new_and_children() {
    let b = CustomBinaryExpr::try_new(column("a", 0), literal(ScalarValue::Int32(Some(1))), Operator::Gt).unwrap();
    assert_eq!(b.op, Operator::Gt);
    let children = b.children();
    assert_eq!(children.len(), 2);
    match children[0] {
        PhysicalExpr::Column(c) => assert_eq!(c.to_display_string(), "a"),
        other => panic!("unexpected {:?}", other),
    }
    match children[1] {
        PhysicalExpr::Scalar(s) => assert_eq!(s.value, ScalarValue::Int32(Some(1))),
        other => panic!("unexpected {:?}", other),
    }
}

#[test]
fn text_of_a_binary_expression() {
    assert_eq!(binary_text("x", "IS DISTINCT FROM", "true"), "x IS DISTINCT FROM true");
    assert_eq!(binary_text("a > 2", "AND", "b"), "a > 2 AND b");
    assert_eq!(ColumnExpr::new("col", 0).to_display_string(), "col");
}

#[test]
fn operator_kinds() {
    assert!(Operator::Gt.is_ordering_op());
    assert!(Operator::LtEq.is_ordering_op());
    assert!(!Operator::Eq.is_ordering_op());
    assert!(!Operator::Plus.is_ordering_op());
    assert!(Operator::Eq.returns_boolean_op());
    assert!(!Operator::And.returns_boolean_op());
    assert!(Operator::NotEq.returns_boolean_op());
    assert!(!Operator::Plus.returns_boolean_op());
}

#[test]
fn checked_functions_report_where_evaluation_would_panic() {
    let schema = Schema::new(vec![Field::new("a", DataType::Int32, true)]);
    let batch = RecordBatch::try_new(vec![Column::Values(ArrayValues::Int32(vec![Some(1)]))], 1).unwrap();
    assert_eq!(column("z", 4).checked_data_type(&schema), None);
    assert!(column("z", 4).checked_evaluate(&batch).is_none());
    let plus = PhysicalExpr::Binary(CustomBinaryExpr::new(column("a", 0), Operator::Plus, column("a", 0)));
    assert_eq!(plus.checked_data_type(&schema), Some(DataType::Int32));
    assert!(plus.checked_evaluate(&batch).is_none());
    let eq = PhysicalExpr::Binary(CustomBinaryExpr::new(column("a", 0), Operator::Eq, column("z", 9)));
    assert_eq!(eq.checked_data_type(&schema), Some(DataType::Boolean));
    let bad_left = PhysicalExpr::Binary(CustomBinaryExpr::new(
        PhysicalExpr::Binary(CustomBinaryExpr::new(column("a", 0), Operator::Lt, literal(ScalarValue::Boolean(Some(true))))),
        Operator::Plus,
        column("a", 0),
    ));
    match bad_left.checked_evaluate(&batch) {
        Some(Err(e)) => assert_eq!(e, ExprError::IncomparableTypes(DataType::Int32, DataType::Boolean)),
        other => panic!("unexpected {:?}", other),
    }
}

fn array(values: ArrayValues) -> ColumnarValue {
    ColumnarValue::Array(Column::Values(values))
}

#[test]
fn compare_int64_arrays() {
    let res = CustomBinaryExpr::compare(
        Operator::Gt,
        array(ArrayValues::Int64(vec![Some(i64::MAX), Some(-5), None, Some(0)])),
        array(ArrayValues::Int64(vec![Some(i64::MIN), Some(-4), Some(1), Some(0)])),
    )
    .unwrap();
    assert_eq!(res, vec![Some(true), Some(false), None, Some(false)]);
}

#[test]
fn compare_narrow_and_unsigned_integers() {
    let res = CustomBinaryExpr::compare(
        Operator::LtEq,
        array(ArrayValues::Int8(vec![Some(-128), Some(127)])),
        array(ArrayValues::Int8(vec![Some(-128), Some(-1)])),
    )
    .unwrap();
    assert_eq!(res, vec![Some(true), Some(false)]);
    let res = CustomBinaryExpr::compare(
        Operator::Lt,
        array(ArrayValues::UInt64(vec![Some(u64::MAX), Some(1)])),
        array(ArrayValues::UInt64(vec![Some(0), Some(u64::MAX)])),
    )
    .unwrap();
    assert_eq!(res, vec![Some(false), Some(true)]);
    let res = CustomBinaryExpr::compare(
        Operator::GtEq,
        array(ArrayValues::UInt16(vec![Some(7), None])),
        array(ArrayValues::UInt16(vec![Some(7), Some(7)])),
    )
    .unwrap();
    assert_eq!(res, vec![Some(true), None]);
    let res = CustomBinaryExpr::compare(
        Operator::Gt,
        array(ArrayValues::Int16(vec![Some(300)])),
        array(ArrayValues::Int16(vec![Some(-300)])),
    )
    .unwrap();
    assert_eq!(res, vec![Some(true)]);
    let res = CustomBinaryExpr::compare(
        Operator::Lt,
        array(ArrayValues::UInt8(vec![Some(200)])),
        array(ArrayValues::UInt8(vec![Some(100)])),
    )
    .unwrap();
    assert_eq!(res, vec![Some(false)]);
    let res = CustomBinaryExpr::compare(
        Operator::Lt,
        array(ArrayValues::UInt32(vec![Some(3_000_000_000)])),
        array(ArrayValues::UInt32(vec![Some(4_000_000_000)])),
    )
    .unwrap();
    assert_eq!(res, vec![Some(true)]);
}

fn texts(values: &[Option<&str>]) -> ColumnarValue {
    array(ArrayValues::Utf8(values.iter().map(|v| v.map(String::from)).collect()))
}

#[test]
fn compare_strings_lexicographically() {
    let res = CustomBinaryExpr::compare(
        Operator::Lt,
        texts(&[Some("apple"), Some("b"), Some(""), Some("abc"), None, Some("Z")]),
        texts(&[Some("banana"), Some("abc"), Some("a"), Some("abc"), Some("x"), Some("a")]),
    )
    .unwrap();
    assert_eq!(res, vec![Some(true), Some(false), Some(true), Some(false), None, Some(true)]);
    let res = CustomBinaryExpr::compare(
        Operator::GtEq,
        texts(&[Some("é"), Some("abc")]),
        texts(&[Some("z"), Some("ab")]),
    )
    .unwrap();
    assert_eq!(res, vec![Some(true), Some(true)]);
}

#[test]
fn compare_a_string_literal_with_a_column() {
    let res = CustomBinaryExpr::compare(
        Operator::Gt,
        texts(&[Some("m"), Some("a"), None]),
        ColumnarValue::Scalar(ScalarValue::Utf8(Some(String::from("k")))),
    )
    .unwrap();
    assert_eq!(res, vec![Some(true), Some(false), None]);
}

#[test]
fn compare_binary_arrays() {
    let res = CustomBinaryExpr::compare(
        Operator::LtEq,
        array(ArrayValues::Binary(vec![Some(vec![1, 2]), Some(vec![255]), Some(vec![]), None])),
        array(ArrayValues::Binary(vec![Some(vec![1, 2, 0]), Some(vec![0, 255]), Some(vec![]), Some(vec![1])])),
    )
    .unwrap();
    assert_eq!(res, vec![Some(true), Some(false), Some(true), None]);
}

#[test]
fn compare_arrays_of_different_lengths_with_any_operator() {
    for op in [Operator::Plus, Operator::Eq, Operator::And, Operator::GtEq] {
        assert_eq!(
            CustomBinaryExpr::compare(op, int32(&[Some(1), Some(2), Some(3)]), int32(&[Some(1)])).unwrap_err(),
            ExprError::LengthMismatch(3, 1)
        );
    }
}

#[test]
fn compare_values_that_are_not_held() {
    let floats = ColumnarValue::Array(Column::Opaque { data_type: DataType::Float64, len: 2 });
    let more = ColumnarValue::Array(Column::Opaque { data_type: DataType::Float64, len: 2 });
    assert_eq!(
        CustomBinaryExpr::compare(Operator::Lt, floats, more).unwrap_err(),
        ExprError::ValuesNotHeld(DataType::Float64)
    );
    let floats = ColumnarValue::Array(Column::Opaque { data_type: DataType::Float64, len: 2 });
    assert_eq!(
        CustomBinaryExpr::compare(Operator::Lt, floats, int32(&[Some(1), Some(2)])).unwrap_err(),
        ExprError::IncomparableTypes(DataType::Float64, DataType::Int32)
    );
}

#[test]
fn operands_len_of_arrays_and_scalars() {
    let scalar = || ColumnarValue::Scalar(ScalarValue::Int64(Some(1)));
    assert_eq!(CustomBinaryExpr::operands_len(&int32(&[Some(1), None]), &scalar()), Ok(2));
    assert_eq!(CustomBinaryExpr::operands_len(&scalar(), &int32(&[Some(1), None, None])), Ok(3));
    assert_eq!(CustomBinaryExpr::operands_len(&scalar(), &scalar()), Ok(1));
    assert_eq!(CustomBinaryExpr::operands_len(&int32(&[None]), &int32(&[None])), Ok(1));
    assert_eq!(
        CustomBinaryExpr::operands_len(&int32(&[]), &int32(&[None, None])),
        Err(ExprError::LengthMismatch(0, 2))
    );
}

#[test]
fn scalar_values_know_their_types() {
    assert_eq!(ScalarValue::Int64(None).data_type(), DataType::Int64);
    assert_eq!(ScalarValue::Utf8(Some(String::from("x"))).data_type(), DataType::Utf8);
    assert_eq!(ScalarValue::Binary(None).data_type(), DataType::Binary);
    assert_eq!(ScalarValue::Other(DataType::Float64).data_type(), DataType::Float64);
    assert_eq!(ScalarValue::UInt8(Some(3)).duplicate(), ScalarValue::UInt8(Some(3)));
    match ScalarValue::Utf8(Some(String::from("ab"))).to_array(2) {
        Column::Values(ArrayValues::Utf8(v)) => assert_eq!(v, vec![Some(String::from("ab")), Some(String::from("ab"))]),
        other => panic!("unexpected {:?}", other),
    }
    match ScalarValue::Other(DataType::Float32).to_array(4) {
        Column::Opaque { data_type, len } => {
            assert_eq!(data_type, DataType::Float32);
            assert_eq!(len, 4);
        }
        other => panic!("unexpected {:?}", other),
    }
}

#[test]
fn evaluate_a_comparison_of_string_columns() {
    let batch = RecordBatch::try_new(
        vec![
            Column::Values(ArrayValues::Utf8(vec![Some(String::from("pear")), None, Some(String::from("fig"))])),
            Column::Values(ArrayValues::Utf8(vec![Some(String::from("apple")), Some(String::from("kiwi")), Some(String::from("plum"))])),
        ],
        3,
    )
    .unwrap();
    let gt = PhysicalExpr::Binary(CustomBinaryExpr::new(column("s", 0), Operator::Gt, column("t", 1)));
    match gt.evaluate(&batch).unwrap() {
        ColumnarValue::Array(Column::Values(ArrayValues::Boolean(v))) => assert_eq!(v, vec![Some(true), None, Some(false)]),
        other => panic!("unexpected {:?}", other),
    }
}

#[test]
fn compare_dates_and_other_string_and_binary_layouts() {
    let res = CustomBinaryExpr::compare(
        Operator::Lt,
        array(ArrayValues::Date32(vec![Some(19000), Some(-1), None])),
        array(ArrayValues::Date32(vec![Some(19001), Some(-2), Some(0)])),
    )
    .unwrap();
    assert_eq!(res, vec![Some(true), Some(false), None]);
    let res = CustomBinaryExpr::compare(
        Operator::GtEq,
        array(ArrayValues::Date64(vec![Some(1_700_000_000_000)])),
        ColumnarValue::Scalar(ScalarValue::Date64(Some(1_700_000_000_000))),
    )
    .unwrap();
    assert_eq!(res, vec![Some(true)]);
    let large = |v: &[&str]| array(ArrayValues::LargeUtf8(v.iter().map(|s| Some(String::from(*s))).collect()));
    let res = CustomBinaryExpr::compare(Operator::Gt, large(&["b", "a"]), large(&["a", "ab"])).unwrap();
    assert_eq!(res, vec![Some(true), Some(false)]);
    let view = |v: &[&str]| array(ArrayValues::Utf8View(v.iter().map(|s| Some(String::from(*s))).collect()));
    let res = CustomBinaryExpr::compare(Operator::LtEq, view(&["same", "zz"]), view(&["same", "z"])).unwrap();
    assert_eq!(res, vec![Some(true), Some(false)]);
    let res = CustomBinaryExpr::compare(
        Operator::Lt,
        array(ArrayValues::LargeBinary(vec![Some(vec![0]), None])),
        array(ArrayValues::LargeBinary(vec![Some(vec![0, 0]), Some(vec![])])),
    )
    .unwrap();
    assert_eq!(res, vec![Some(true), None]);
    let res = CustomBinaryExpr::compare(
        Operator::Gt,
        array(ArrayValues::BinaryView(vec![Some(vec![9])])),
        ColumnarValue::Scalar(ScalarValue::BinaryView(Some(vec![8, 255]))),
    )
    .unwrap();
    assert_eq!(res, vec![Some(true)]);
}

#[test]
fn compare_string_layouts_of_different_types() {
    assert_eq!(
        CustomBinaryExpr::compare(Operator::Lt, texts(&[Some("a")]), array(ArrayValues::LargeUtf8(vec![Some(String::from("b"))])))
            .unwrap_err(),
        ExprError::IncomparableTypes(DataType::Utf8, DataType::LargeUtf8)
    );
    assert_eq!(
        CustomBinaryExpr::compare(Operator::Lt, int32(&[Some(1)]), array(ArrayValues::Date32(vec![Some(2)]))).unwrap_err(),
        ExprError::IncomparableTypes(DataType::Int32, DataType::Date32)
    );
}
