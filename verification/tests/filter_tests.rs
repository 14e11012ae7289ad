use custom_datasource::expr::{ColumnExpr, CustomBinaryExpr, ExprError, PhysicalExpr, ScalarExpr};
use custom_datasource::filter::{
    check_batch, check_child_count, check_predicate_type, checked_rows_from_mask, rows_from_mask, select_rows, CustomFilter, CustomFilterStream, DisplayFormatType, FilterError};
use custom_datasource::operator::Operator;
use custom_datasource::schema::{DataType, Field, Schema};
use custom_datasource::values::{ArrayValues, Column, ColumnarValue, RecordBatch, ScalarValue};

fn int32(values: &[Option<i32>]) -> Column {
    Column::Values(ArrayValues::Int32(values.to_vec()))
}

fn int32_values(column: &Column) -> Vec<Option<i32>> {
    match column {
        Column::Values(ArrayValues::Int32(v)) => v.clone(),
        other => panic!("not an Int32 column: {:?}", other),
    }
}

fn ab_schema() -> Schema {
    Schema::new(vec![Field::new("a", DataType::Int32, false), Field::new("b", DataType::Int32, true)])
}

fn ab_batch() -> RecordBatch {
    RecordBatch::try_new(
        vec![
            int32(&[Some(1), Some(2), Some(3), Some(4), Some(5)]),
            int32(&[Some(5), Some(4), Some(3), Some(2), Some(1)]),
        ],
        5,
    )
    .unwrap()
}

fn column(name: &str, index: usize) -> PhysicalExpr {
    PhysicalExpr::Column(ColumnExpr::new(name, index))
}

fn literal(value: ScalarValue) -> PhysicalExpr {
    PhysicalExpr::Scalar(ScalarExpr::new(value))
}

fn binary(left: PhysicalExpr, op: Operator, right: PhysicalExpr) -> PhysicalExpr {
    PhysicalExpr::Binary(CustomBinaryExpr::new(left, op, right))
}

fn a_gt_2() -> PhysicalExpr {
    binary(column("a", 0), Operator::Gt, literal(ScalarValue::Int32(Some(2))))
}

#[test]
fn test_custom_filter() {
    let filter = CustomFilter::try_new(a_gt_2(), vec![ab_schema()]).unwrap();
    let stream = CustomFilterStream::new(filter.schema, filter.expression);
    let out = stream.filter_batch(&ab_batch()).unwrap();
    assert_eq!(out.num_rows(), 3);
    assert_eq!(int32_values(out.column(0)), vec![Some(3), Some(4), Some(5)]);
    assert_eq!(int32_values(out.column(1)), vec![Some(3), Some(2), Some(1)]);
}

#[test]
fn try_new_needs_exactly_one_child() {
    assert_eq!(CustomFilter::try_new(a_gt_2(), vec![]).unwrap_err(), FilterError::ChildCount(0));
    assert_eq!(
        CustomFilter::try_new(a_gt_2(), vec![ab_schema(), ab_schema()]).unwrap_err(),
        FilterError::ChildCount(2)
    );
}

#[test]
fn try_new_needs_a_boolean_predicate() {
    assert_eq!(
        CustomFilter::try_new(column("a", 0), vec![ab_schema()]).unwrap_err(),
        FilterError::NotBoolean(DataType::Int32)
    );
    let plus = binary(column("b", 1), Operator::Plus, column("a", 0));
    assert_eq!(
        CustomFilter::try_new(plus, vec![ab_schema()]).unwrap_err(),
        FilterError::NotBoolean(DataType::Int32)
    );
    let eq = binary(column("a", 0), Operator::Eq, column("b", 1));
    assert!(CustomFilter::try_new(eq, vec![ab_schema()]).is_ok());
}

#[test]
fn filter_rejects_a_mask_that_is_not_boolean() {
    let stream = CustomFilterStream::new(ab_schema(), column("a", 0));
    assert_eq!(stream.filter_batch(&ab_batch()).unwrap_err(), FilterError::MaskNotBoolean);
}

#[test]
fn filter_drops_false_and_null_rows() {
    let flags = Column::Values(ArrayValues::Boolean(vec![Some(true), None, Some(false), Some(true)]));
    let values = int32(&[Some(10), Some(20), None, Some(40)]);
    let batch = RecordBatch::try_new(vec![values, flags], 4).unwrap();
    let schema = Schema::new(vec![Field::new("v", DataType::Int32, true), Field::new("flag", DataType::Boolean, true)]);
    let stream = CustomFilterStream::new(schema, column("flag", 1));
    assert_eq!(stream.filter_rows(&batch).unwrap(), vec![0, 3]);
    let out = stream.filter_batch(&batch).unwrap();
    assert_eq!(int32_values(out.column(0)), vec![Some(10), Some(40)]);
    match out.column(1) {
        Column::Values(ArrayValues::Boolean(v)) => assert_eq!(v, &vec![Some(true), Some(true)]),
        other => panic!("unexpected column {:?}", other),
    }
}

#[test]
fn filter_with_literal_true_keeps_every_row() {
    let stream = CustomFilterStream::new(ab_schema(), literal(ScalarValue::Boolean(Some(true))));
    let out = stream.filter_batch(&ab_batch()).unwrap();
    assert_eq!(out.num_rows(), 5);
    assert_eq!(int32_values(out.column(1)), vec![Some(5), Some(4), Some(3), Some(2), Some(1)]);
}

#[test]
fn filter_with_literal_false_or_null_keeps_no_row() {
    for b in [Some(false), None] {
        let stream = CustomFilterStream::new(ab_schema(), literal(ScalarValue::Boolean(b)));
        let out = stream.filter_batch(&ab_batch()).unwrap();
        assert_eq!(out.num_rows(), 0);
        assert_eq!(out.num_columns(), 2);
        assert_eq!(int32_values(out.column(0)), vec![]);
    }
}

#[test]
fn comparison_of_two_literals_yields_a_one_row_mask() {
    let one_lt_two = binary(
        literal(ScalarValue::Int32(Some(1))),
        Operator::Lt,
        literal(ScalarValue::Int32(Some(2))),
    );
    let stream = CustomFilterStream::new(ab_schema(), one_lt_two);
    assert_eq!(stream.filter_rows(&ab_batch()).unwrap(), vec![0]);
    let out = stream.filter_batch(&ab_batch()).unwrap();
    assert_eq!(int32_values(out.column(0)), vec![Some(1)]);
}

#[test]
fn filter_passes_on_evaluation_errors() {
    let mixed = binary(column("a", 0), Operator::Lt, literal(ScalarValue::Boolean(Some(true))));
    let stream = CustomFilterStream::new(ab_schema(), mixed);
    assert_eq!(
        stream.filter_batch(&ab_batch()).unwrap_err(),
        FilterError::Expr(ExprError::IncomparableTypes(DataType::Int32, DataType::Boolean))
    );
    let floats = Column::Opaque { data_type: DataType::Float64, len: 2 };
    let batch = RecordBatch::try_new(vec![floats], 2).unwrap();
    let stream = CustomFilterStream::new(ab_schema(), binary(column("x", 0), Operator::Gt, column("x", 0)));
    assert_eq!(
        stream.filter_batch(&batch).unwrap_err(),
        FilterError::Expr(ExprError::ValuesNotHeld(DataType::Float64))
    );
}

#[test]
fn filter_keeps_columns_that_the_library_does_not_hold() {
    let floats = Column::Opaque { data_type: DataType::Float64, len: 5 };
    let batch = RecordBatch::try_new(vec![int32(&[Some(1), Some(2), Some(3), Some(4), Some(5)]), floats], 5).unwrap();
    let schema = Schema::new(vec![Field::new("a", DataType::Int32, false), Field::new("x", DataType::Float64, true)]);
    let stream = CustomFilterStream::new(schema, a_gt_2());
    let out = stream.filter_batch(&batch).unwrap();
    match out.column(1) {
        Column::Opaque { data_type, len } => {
            assert_eq!(*data_type, DataType::Float64);
            assert_eq!(*len, 3);
        }
        other => panic!("unexpected column {:?}", other),
    }
}

#[test]
fn select_rows_lists_the_true_positions() {
    assert_eq!(select_rows(&vec![None, Some(true), Some(false), Some(true), Some(true)]), vec![1, 3, 4]);
    assert_eq!(select_rows(&vec![]), Vec::<usize>::new());
}

#[test]
fn record_batch_rejects_columns_of_other_lengths() {
    assert!(RecordBatch::try_new(vec![int32(&[Some(1)]), int32(&[Some(1), Some(2)])], 1).is_none());
    assert!(RecordBatch::try_new(vec![int32(&[Some(1), Some(2)])], 2).is_some());
}

#[test]
fn filter_display() {
    assert_eq!(CustomFilter::fmt_as(DisplayFormatType::Default, "a > 2"), "CustomFilter: a > 2");
    assert_eq!(CustomFilter::fmt_as(DisplayFormatType::Verbose, "a > 2"), "CustomFilter: a > 2");
    assert_eq!(CustomFilter::fmt_as(DisplayFormatType::TreeRender, "a > 2"), "predicate=a > 2");
}

#[test]
fn checked_filter_rows_reports_a_mask_past_the_batch() {
    let one_lt_two = binary(
        literal(ScalarValue::Int32(Some(1))),
        Operator::Lt,
        literal(ScalarValue::Int32(Some(2))),
    );
    let stream = CustomFilterStream::new(ab_schema(), one_lt_two);
    let empty = RecordBatch::try_new(vec![int32(&[]), int32(&[])], 0).unwrap();
    assert!(stream.checked_filter_rows(&empty).is_none());
    assert_eq!(stream.checked_filter_rows(&ab_batch()), Some(Ok(vec![0])));
    let stream = CustomFilterStream::new(ab_schema(), a_gt_2());
    assert_eq!(stream.checked_filter_rows(&ab_batch()), Some(Ok(vec![2, 3, 4])));
}

#[test]
fn filter_name() {
    assert_eq!(CustomFilter::name(), "just a custom filter");
}

#[test]
fn filtering_the_output_again_keeps_every_row() {
    let stream = CustomFilterStream::new(ab_schema(), a_gt_2());
    let once = stream.filter_batch(&ab_batch()).unwrap();
    let twice = stream.filter_batch(&once).unwrap();
    assert_eq!(stream.filter_rows(&once).unwrap(), vec![0, 1, 2]);
    assert_eq!(int32_values(twice.column(0)), int32_values(once.column(0)));
    assert_eq!(int32_values(twice.column(1)), int32_values(once.column(1)));
}

#[test]
fn take_keeps_column_types_and_picks_rows() {
    let batch = ab_batch();
    let taken = batch.take(&vec![4, 0, 4]);
    assert_eq!(taken.num_rows(), 3);
    assert_eq!(int32_values(taken.column(0)), vec![Some(5), Some(1), Some(5)]);
    assert_eq!(taken.column(1).data_type(), DataType::Int32);
}

#[test]
fn try_new_keeps_the_child_schema() {
    let filter = CustomFilter::try_new(a_gt_2(), vec![ab_schema()]).unwrap();
    assert_eq!(filter.schema.len(), 2);
    assert_eq!(filter.schema.fields[0].name, "a");
    assert!(!filter.schema.fields[0].nullable);
    assert!(filter.schema.fields[1].nullable);
    assert_eq!(filter.schema.fields[1].data_type, DataType::Int32);
}

#[test]
fn child_count_and_predicate_type_checks() {
    assert_eq!(check_child_count(1), Ok(()));
    assert_eq!(check_child_count(0), Err(FilterError::ChildCount(0)));
    assert_eq!(check_child_count(3), Err(FilterError::ChildCount(3)));
    assert_eq!(check_predicate_type(DataType::Boolean), Ok(()));
    assert_eq!(check_predicate_type(DataType::Utf8), Err(FilterError::NotBoolean(DataType::Utf8)));
}

#[test]
fn rows_of_an_evaluated_mask() {
    let mask = ColumnarValue::Array(Column::Values(ArrayValues::Boolean(vec![Some(false), Some(true), None, Some(true)])));
    assert_eq!(rows_from_mask(mask, 4), Ok(vec![1, 3]));
    let all = ColumnarValue::Scalar(ScalarValue::Boolean(Some(true)));
    assert_eq!(rows_from_mask(all, 3), Ok(vec![0, 1, 2]));
    let none = ColumnarValue::Scalar(ScalarValue::Boolean(None));
    assert_eq!(rows_from_mask(none, 3), Ok(vec![]));
    let ints = ColumnarValue::Array(int32(&[Some(1)]));
    assert_eq!(rows_from_mask(ints, 1), Err(FilterError::MaskNotBoolean));
    let text = ColumnarValue::Scalar(ScalarValue::Utf8(Some(String::from("true"))));
    assert_eq!(rows_from_mask(text, 2), Err(FilterError::MaskNotBoolean));
}

#[test]
fn checked_rows_of_a_mask_longer_than_the_batch() {
    let mask = ColumnarValue::Array(Column::Values(ArrayValues::Boolean(vec![Some(false), Some(false), Some(true)])));
    assert_eq!(checked_rows_from_mask(mask, 2), None);
    let mask = ColumnarValue::Array(Column::Values(ArrayValues::Boolean(vec![Some(true), Some(false), Some(false)])));
    assert_eq!(checked_rows_from_mask(mask, 2), Some(Ok(vec![0])));
    let ints = ColumnarValue::Array(int32(&[Some(1), Some(2), Some(3)]));
    assert_eq!(checked_rows_from_mask(ints, 1), Some(Err(FilterError::MaskNotBoolean)));
}

#[test]
fn filter_on_a_string_comparison() {
    let names = Column::Values(ArrayValues::Utf8(vec![
        Some(String::from("carol")),
        Some(String::from("alice")),
        None,
        Some(String::from("dave")),
    ]));
    let batch = RecordBatch::try_new(vec![names, int32(&[Some(1), Some(2), Some(3), Some(4)])], 4).unwrap();
    let after_b = binary(column("name", 0), Operator::Gt, literal(ScalarValue::Utf8(Some(String::from("b")))));
    let schema = Schema::new(vec![Field::new("name", DataType::Utf8, true), Field::new("n", DataType::Int32, false)]);
    let stream = CustomFilterStream::new(schema, after_b);
    assert_eq!(stream.filter_rows(&batch).unwrap(), vec![0, 3]);
    let out = stream.filter_batch(&batch).unwrap();
    assert_eq!(int32_values(out.column(1)), vec![Some(1), Some(4)]);
}

#[test]
fn filter_output_must_fit_the_schema() {
    let keep_all = literal(ScalarValue::Boolean(Some(true)));
    let no_columns = RecordBatch::try_new(vec![], 3).unwrap();
    let empty_schema = Schema::new(vec![]);
    let stream = CustomFilterStream::new(empty_schema, literal(ScalarValue::Boolean(Some(true))));
    assert_eq!(stream.filter_batch(&no_columns).unwrap_err(), FilterError::NoColumns);

    let one_column = RecordBatch::try_new(vec![int32(&[Some(1)])], 1).unwrap();
    let stream = CustomFilterStream::new(ab_schema(), literal(ScalarValue::Boolean(Some(true))));
    assert_eq!(stream.filter_batch(&one_column).unwrap_err(), FilterError::ColumnCount(1, 2));

    let nulls = RecordBatch::try_new(vec![int32(&[None, Some(2)]), int32(&[None, None])], 2).unwrap();
    let stream = CustomFilterStream::new(ab_schema(), keep_all);
    assert_eq!(stream.filter_batch(&nulls).unwrap_err(), FilterError::NullsNotAllowed(0));
    let only_second = CustomFilterStream::new(ab_schema(), a_gt_2());
    let out = only_second.filter_batch(&RecordBatch::try_new(vec![int32(&[Some(1), Some(3)]), int32(&[None, None])], 2).unwrap()).unwrap();
    assert_eq!(int32_values(out.column(1)), vec![None]);

    let texts = Column::Values(ArrayValues::Utf8(vec![Some(String::from("x"))]));
    let typed = RecordBatch::try_new(vec![int32(&[Some(4)]), texts], 1).unwrap();
    let stream = CustomFilterStream::new(ab_schema(), a_gt_2());
    assert_eq!(stream.filter_batch(&typed).unwrap_err(), FilterError::ColumnTypeMismatch(1));
}

#[test]
fn filter_drops_the_nulls_that_the_schema_forbids() {
    let batch = RecordBatch::try_new(vec![int32(&[None, Some(5), Some(1)]), int32(&[Some(1), Some(2), Some(3)])], 3).unwrap();
    let stream = CustomFilterStream::new(ab_schema(), a_gt_2());
    let out = stream.filter_batch(&batch).unwrap();
    assert_eq!(int32_values(out.column(0)), vec![Some(5)]);
    assert_eq!(check_batch(&ab_schema(), &batch), Err(FilterError::NullsNotAllowed(0)));
    assert_eq!(check_batch(&ab_schema(), &out), Ok(()));
}
