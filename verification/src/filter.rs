//! The custom filter operator: it checks its predicate when it is built, and
//! keeps, of every batch that its child produces, the rows on which the
//! predicate is true.

use vstd::prelude::*;

use crate::expr::{
    data_type_defined, evaluate_defined, law_evaluate_take, lemma_evaluate_len, row_wise,
    spec_data_type, spec_evaluate, take_value, ExprError, PhysicalExpr, ScalarExpr,
};
use crate::schema::{DataType, Schema};
use crate::values::{
    boolean_rows, values_at, ArrayValues, BatchData, Column, ColumnData, ColumnarData,
    ColumnarValue, Datum, RecordBatch, ScalarData, ScalarValue,
};

verus! {

/// Why a filter could not be built or could not filter a batch.
#[derive(Debug, Clone, Copy, PartialEq, Eq, Structural)]
pub enum FilterError {
    /// The filter was given this many children instead of exactly one.
    ChildCount(usize),
    /// The predicate's result type is not boolean.
    NotBoolean(DataType),
    /// The evaluated predicate is not a boolean array.
    MaskNotBoolean,
    /// The predicate could not be evaluated.
    Expr(ExprError),
    /// The filtered batch has this many columns, the schema this many fields.
    ColumnCount(usize, usize),
    /// The filtered batch has no column, so its row count is unknown.
    NoColumns,
    /// The column at this index holds a null where its field allows none.
    NullsNotAllowed(usize),
    /// The column at this index is not of its field's type.
    ColumnTypeMismatch(usize),
}

/// How a plan is to be shown.
#[derive(Debug, Clone, Copy, PartialEq, Eq, Structural)]
pub enum DisplayFormatType {
    Default,
    Verbose,
    TreeRender,
}

/// A filter over the batches of one child plan.
#[derive(Debug)]
pub struct CustomFilter {
    pub schema: Schema,
    pub expression: PhysicalExpr,
}

/// The filter applied to the stream of batches of the child plan.
#[derive(Debug)]
pub struct CustomFilterStream {
    pub schema: Schema,
    pub expression: PhysicalExpr,
}

/// A true row of a mask.
pub open spec fn is_true(d: Option<Datum>) -> bool {
    d == Some(Datum::Boolean(true))
}

/// The positions, in increasing order, at which the mask is true; false and
/// null rows are dropped.
pub open spec fn selected_rows(mask: Seq<Option<Datum>>) -> Seq<usize>
    decreases mask.len(),
{
    if mask.len() == 0 {
        Seq::empty()
    } else {
        let rest = selected_rows(mask.drop_last());
        if is_true(mask.last()) {
            rest.push((mask.len() - 1) as usize)
        } else {
            rest
        }
    }
}

/// The rows that an evaluated predicate keeps of a batch of `num_rows` rows:
/// it is turned into an array of that many rows, which must be boolean.
pub open spec fn spec_mask_rows(mask: ColumnarData, num_rows: nat) -> Result<Seq<usize>, FilterError> {
    match mask.into_array(num_rows) {
        ColumnData::Held(DataType::Boolean, m) => Ok(selected_rows(m)),
        _ => Err(FilterError::MaskNotBoolean),
    }
}

/// Every row that the mask keeps is a row of the batch.
pub open spec fn mask_defined(mask: ColumnarData, num_rows: nat) -> bool {
    spec_mask_rows(mask, num_rows) matches Ok(rows) ==> forall|k: int|
        0 <= k < rows.len() ==> rows[k] < num_rows
}

/// The rows that the predicate keeps of a batch.
pub open spec fn spec_filter_rows(expression: PhysicalExpr, batch: BatchData) -> Result<Seq<usize>, FilterError> {
    match spec_evaluate(expression, batch) {
        Err(e) => Err(FilterError::Expr(e)),
        Ok(v) => spec_mask_rows(v, batch.num_rows),
    }
}

/// Filtering does not panic: the predicate evaluates without panicking, and
/// every row that its mask keeps is a row of the batch.
pub open spec fn filter_defined(expression: PhysicalExpr, batch: BatchData) -> bool {
    &&& evaluate_defined(expression, batch)
    &&& spec_evaluate(expression, batch) matches Ok(v) ==> mask_defined(v, batch.num_rows)
}

/// The batch that the filter produces from a batch.
pub open spec fn spec_filter_batch(expression: PhysicalExpr, batch: BatchData) -> Result<BatchData, FilterError> {
    match spec_filter_rows(expression, batch) {
        Err(e) => Err(e),
        Ok(rows) => Ok(batch.take(rows)),
    }
}

/// The first of the first `n` columns that holds a null where its field
/// allows none.
pub open spec fn first_null_violation(nullables: Seq<bool>, columns: Seq<ColumnData>, n: nat) -> Option<nat>
    decreases n,
{
    if n == 0 {
        None
    } else {
        match first_null_violation(nullables, columns, (n - 1) as nat) {
            Some(i) => Some(i),
            None => if !nullables[n - 1] && columns[n - 1].has_null() {
                Some((n - 1) as nat)
            } else {
                None
            },
        }
    }
}

/// The first of the first `n` columns that is not of its field's type.
pub open spec fn first_type_mismatch(types: Seq<DataType>, columns: Seq<ColumnData>, n: nat) -> Option<nat>
    decreases n,
{
    if n == 0 {
        None
    } else {
        match first_type_mismatch(types, columns, (n - 1) as nat) {
            Some(i) => Some(i),
            None => if columns[n - 1].data_type() != types[n - 1] {
                Some((n - 1) as nat)
            } else {
                None
            },
        }
    }
}

/// Once found among the first `m` columns, the first null violation stays the
/// first among more columns.
proof fn lemma_first_null_violation_stays(nullables: Seq<bool>, columns: Seq<ColumnData>, m: nat, n: nat)
    requires
        m <= n,
        first_null_violation(nullables, columns, m) is Some,
    ensures
        first_null_violation(nullables, columns, n) == first_null_violation(nullables, columns, m),
    decreases n,
{
    if n > m {
        lemma_first_null_violation_stays(nullables, columns, m, (n - 1) as nat);
    }
}

/// Once found among the first `m` columns, the first type mismatch stays the
/// first among more columns.
proof fn lemma_first_type_mismatch_stays(types: Seq<DataType>, columns: Seq<ColumnData>, m: nat, n: nat)
    requires
        m <= n,
        first_type_mismatch(types, columns, m) is Some,
    ensures
        first_type_mismatch(types, columns, n) == first_type_mismatch(types, columns, m),
    decreases n,
{
    if n > m {
        lemma_first_type_mismatch_stays(types, columns, m, (n - 1) as nat);
    }
}

/// No column among the first `n` holds a null against its field exactly when
/// none is found.
proof fn lemma_first_null_violation_none(nullables: Seq<bool>, columns: Seq<ColumnData>, n: nat)
    ensures
        first_null_violation(nullables, columns, n) is None <==> forall|i: int|
            0 <= i < n ==> !(!nullables[i] && (#[trigger] columns[i]).has_null()),
    decreases n,
{
    if n > 0 {
        lemma_first_null_violation_none(nullables, columns, (n - 1) as nat);
    }
}

/// No column among the first `n` differs from its field's type exactly when
/// none is found.
proof fn lemma_first_type_mismatch_none(types: Seq<DataType>, columns: Seq<ColumnData>, n: nat)
    ensures
        first_type_mismatch(types, columns, n) is None <==> forall|i: int|
            0 <= i < n ==> (#[trigger] columns[i]).data_type() == types[i],
    decreases n,
{
    if n > 0 {
        lemma_first_type_mismatch_none(types, columns, (n - 1) as nat);
    }
}

/// Whether a batch can stand under a schema, checked in this order: as many
/// columns as fields; at least one column, which gives the row count; no null
/// in a column whose field allows none; each column of its field's type.
pub open spec fn spec_check_batch(schema: Schema, batch: BatchData) -> Result<(), FilterError> {
    let n = batch.columns.len();
    if schema.fields@.len() != n {
        Err(FilterError::ColumnCount(n as usize, schema.fields@.len() as usize))
    } else if n == 0 {
        Err(FilterError::NoColumns)
    } else {
        match first_null_violation(schema.nullables(), batch.columns, n) {
            Some(i) => Err(FilterError::NullsNotAllowed(i as usize)),
            None => match first_type_mismatch(schema.types(), batch.columns, n) {
                Some(i) => Err(FilterError::ColumnTypeMismatch(i as usize)),
                None => Ok(()),
            },
        }
    }
}

/// What the filter hands on for a batch: the batch of the kept rows, where it
/// can stand under the filter's schema.
pub open spec fn spec_filter_output(schema: Schema, expression: PhysicalExpr, batch: BatchData) -> Result<BatchData, FilterError> {
    match spec_filter_batch(expression, batch) {
        Err(e) => Err(e),
        Ok(out) => match spec_check_batch(schema, out) {
            Err(e) => Err(e),
            Ok(_) => Ok(out),
        },
    }
}

/// Checks that a batch can stand under a schema; the first failure, in the
/// order of `spec_check_batch`, is the error.
pub fn check_batch(schema: &Schema, batch: &RecordBatch) -> (res: Result<(), FilterError>)
    ensures
        res == spec_check_batch(*schema, batch@),
{
    let n = batch.num_columns();
    if schema.len() != n {
        return Err(FilterError::ColumnCount(n, schema.len()));
    }
    if n == 0 {
        return Err(FilterError::NoColumns);
    }
    proof {
        assert(schema.nullables().len() == n);
        assert(schema.types().len() == n);
    }
    for i in 0..n
        invariant
            n == batch@.columns.len(),
            n == schema.fields@.len(),
            first_null_violation(schema.nullables(), batch@.columns, i as nat) is None,
    {
        let nullable = schema.fields[i].nullable;
        if !nullable && batch.column(i).has_null() {
            assert(first_null_violation(schema.nullables(), batch@.columns, (i + 1) as nat) == Some(i as nat));
            proof {
                lemma_first_null_violation_stays(schema.nullables(), batch@.columns, (i + 1) as nat, n as nat);
            }
            return Err(FilterError::NullsNotAllowed(i));
        }
        assert(first_null_violation(schema.nullables(), batch@.columns, (i + 1) as nat) is None);
    }
    for i in 0..n
        invariant
            n == batch@.columns.len(),
            n == schema.fields@.len(),
            first_null_violation(schema.nullables(), batch@.columns, n as nat) is None,
            first_type_mismatch(schema.types(), batch@.columns, i as nat) is None,
    {
        let t = schema.fields[i].data_type;
        if batch.column(i).data_type() != t {
            assert(first_type_mismatch(schema.types(), batch@.columns, (i + 1) as nat) == Some(i as nat));
            proof {
                lemma_first_type_mismatch_stays(schema.types(), batch@.columns, (i + 1) as nat, n as nat);
            }
            return Err(FilterError::ColumnTypeMismatch(i));
        }
        assert(first_type_mismatch(schema.types(), batch@.columns, (i + 1) as nat) is None);
    }
    Ok(())
}

/// The positions at which the mask is true, in increasing order.
pub fn select_rows(mask: &Vec<Option<bool>>) -> (res: Vec<usize>)
    ensures
        res@ == selected_rows(boolean_rows(mask@)),
{
    let mut res: Vec<usize> = Vec::new();
    for i in 0..mask.len()
        invariant
            res@ == selected_rows(boolean_rows(mask@.subrange(0, i as int))),
    {
        let ghost prefix = boolean_rows(mask@.subrange(0, i + 1));
        assert(prefix.drop_last() =~= boolean_rows(mask@.subrange(0, i as int)));
        if mask[i] == Some(true) {
            res.push(i);
        }
    }
    assert(mask@.subrange(0, mask@.len() as int) =~= mask@);
    res
}

/// The rows that an evaluated predicate keeps of a batch of `num_rows` rows:
/// it is turned into an array of that many rows, which must be boolean.
pub fn rows_from_mask(filter_mask: ColumnarValue, num_rows: usize) -> (res: Result<Vec<usize>, FilterError>)
    ensures
        match res {
            Ok(rows) => spec_mask_rows(filter_mask@, num_rows as nat) == Ok::<Seq<usize>, FilterError>(rows@),
            Err(e) => spec_mask_rows(filter_mask@, num_rows as nat) == Err::<Seq<usize>, FilterError>(e),
        },
{
    let array = filter_mask.into_array(num_rows);
    match array {
        Column::Values(ArrayValues::Boolean(mask)) => Ok(select_rows(&mask)),
        _ => Err(FilterError::MaskNotBoolean),
    }
}

/// The rows that an evaluated predicate keeps, or `None` where the mask keeps
/// a row past the end of the batch, which the rows cannot be taken from.
#[verifier::loop_isolation(false)]
pub fn checked_rows_from_mask(filter_mask: ColumnarValue, num_rows: usize) -> (res: Option<Result<Vec<usize>, FilterError>>)
    ensures
        res is Some <==> mask_defined(filter_mask@, num_rows as nat),
        res matches Some(r) ==> match r {
            Ok(rows) => spec_mask_rows(filter_mask@, num_rows as nat) == Ok::<Seq<usize>, FilterError>(rows@),
            Err(e) => spec_mask_rows(filter_mask@, num_rows as nat) == Err::<Seq<usize>, FilterError>(e),
        },
{
    let ghost m = filter_mask@;
    let rows = match rows_from_mask(filter_mask, num_rows) {
        Ok(rows) => rows,
        Err(e) => return Some(Err(e)),
    };
    for k in 0..rows.len()
        invariant
            spec_mask_rows(m, num_rows as nat) == Ok::<Seq<usize>, FilterError>(rows@),
            forall|j: int| 0 <= j < k ==> rows@[j] < num_rows,
    {
        if rows[k] >= num_rows {
            proof {
                let kept = spec_mask_rows(m, num_rows as nat)->Ok_0;
                assert(kept == rows@);
                assert(!(kept[k as int] < num_rows));
                assert(!mask_defined(m, num_rows as nat));
            }
            return None;
        }
    }
    Some(Ok(rows))
}

/// A filter needs exactly one child.
pub fn check_child_count(count: usize) -> (res: Result<(), FilterError>)
    ensures
        count == 1 ==> res is Ok,
        count != 1 ==> res == Err::<(), FilterError>(FilterError::ChildCount(count)),
{
    if count != 1 {
        return Err(FilterError::ChildCount(count));
    }
    Ok(())
}

/// A filter's predicate must be boolean.
pub fn check_predicate_type(data_type: DataType) -> (res: Result<(), FilterError>)
    ensures
        data_type == DataType::Boolean ==> res is Ok,
        data_type != DataType::Boolean ==> res == Err::<(), FilterError>(FilterError::NotBoolean(data_type)),
{
    if data_type != DataType::Boolean {
        return Err(FilterError::NotBoolean(data_type));
    }
    Ok(())
}

/// A mask keeps at most as many rows as it has.
pub proof fn lemma_selected_rows_len(mask: Seq<Option<Datum>>)
    ensures
        selected_rows(mask).len() <= mask.len(),
    decreases mask.len(),
{
    if mask.len() > 0 {
        lemma_selected_rows_len(mask.drop_last());
    }
}

/// The rows that a mask keeps are, in increasing order, exactly the positions
/// at which it is true.
pub proof fn law_selected_rows_exact(mask: Seq<Option<Datum>>)
    requires
        mask.len() <= usize::MAX,
    ensures
        forall|k: int| 0 <= k < selected_rows(mask).len() ==> (#[trigger] selected_rows(mask)[k]) < mask.len()
            && is_true(mask[selected_rows(mask)[k] as int]),
        forall|k1: int, k2: int| 0 <= k1 < k2 < selected_rows(mask).len() ==> (#[trigger] selected_rows(mask)[k1])
            < (#[trigger] selected_rows(mask)[k2]),
        forall|i: int| 0 <= i < mask.len() && is_true(#[trigger] mask[i]) ==> selected_rows(mask).contains(i as usize),
    decreases mask.len(),
{
    if mask.len() > 0 {
        let rest = mask.drop_last();
        law_selected_rows_exact(rest);
        let r = selected_rows(rest);
        assert forall|i: int| 0 <= i < mask.len() && is_true(#[trigger] mask[i]) implies selected_rows(mask).contains(i as usize) by {
            if i < mask.len() - 1 {
                assert(rest[i] == mask[i]);
                let k = choose|k: int| 0 <= k < r.len() && r[k] == i as usize;
                assert(selected_rows(mask)[k] == i as usize);
            } else {
                assert(selected_rows(mask)[r.len() as int] == i as usize);
            }
        }
    }
}

/// A mask that is true on every one of its `n` rows keeps the rows `0..n`.
pub proof fn law_selected_rows_all_true(n: nat)
    requires
        n <= usize::MAX,
    ensures
        selected_rows(Seq::new(n, |i: int| Some(Datum::Boolean(true)))) =~= Seq::new(n, |i: int| i as usize),
    decreases n,
{
    if n > 0 {
        law_selected_rows_all_true((n - 1) as nat);
        assert(Seq::new(n, |i: int| Some(Datum::Boolean(true))).drop_last() =~= Seq::new(
            (n - 1) as nat,
            |i: int| Some(Datum::Boolean(true)),
        ));
    }
}

/// A mask that is never true keeps no row.
pub proof fn law_selected_rows_none_true(mask: Seq<Option<Datum>>)
    requires
        forall|i: int| 0 <= i < mask.len() ==> !is_true(mask[i]),
    ensures
        selected_rows(mask) == Seq::<usize>::empty(),
    decreases mask.len(),
{
    if mask.len() > 0 {
        law_selected_rows_none_true(mask.drop_last());
    }
}

/// Taking the rows `0..num_rows` of a batch gives the batch back.
proof fn lemma_take_all(batch: BatchData)
    requires
        batch.wf(),
    ensures
        batch.take(Seq::new(batch.num_rows, |i: int| i as usize)) == batch,
{
    let rows = Seq::new(batch.num_rows, |i: int| i as usize);
    let t = batch.take(rows);
    assert forall|j: int| 0 <= j < batch.columns.len() implies #[trigger] t.columns[j] == batch.columns[j] by {
        let c = batch.columns[j];
        assert(c.len() == batch.num_rows);
        assert(forall|i: int| 0 <= i < rows.len() ==> rows[i] as int == i);
        if let ColumnData::Held(_, v) = c {
            assert(values_at(v, rows) =~= v);
        }
    }
    assert(t.columns =~= batch.columns);
}

/// Filtering with the literal `true` gives the batch back unchanged.
pub proof fn law_filter_true_keeps_batch(batch: BatchData)
    requires
        batch.wf(),
    ensures
        spec_filter_batch(PhysicalExpr::Scalar(ScalarExpr { value: ScalarValue::Boolean(Some(true)) }), batch)
            == Ok::<BatchData, FilterError>(batch),
{
    law_selected_rows_all_true(batch.num_rows);
    lemma_take_all(batch);
}

/// Filtering with the literal `false` or with a null boolean literal keeps no row.
pub proof fn law_filter_false_or_null_keeps_nothing(batch: BatchData, b: Option<bool>)
    requires
        b != Some(true),
    ensures
        spec_filter_batch(PhysicalExpr::Scalar(ScalarExpr { value: ScalarValue::Boolean(b) }), batch)
            == Ok::<BatchData, FilterError>(batch.take(Seq::empty())),
        batch.take(Seq::empty()).num_rows == 0,
{
    let d = match b {
        Some(x) => Some(Datum::Boolean(x)),
        None => None,
    };
    law_selected_rows_none_true(Seq::new(batch.num_rows, |i: int| d));
}

/// The filtered batch has the input's columns, of the same types, each
/// holding the input's values at the kept rows, and as many rows as were kept.
pub proof fn law_filter_keeps_columns(expression: PhysicalExpr, batch: BatchData)
    requires
        batch.wf(),
        filter_defined(expression, batch),
    ensures
        spec_filter_batch(expression, batch) matches Ok(out) ==> {
            &&& out.wf()
            &&& out.column_types() == batch.column_types()
            &&& spec_filter_rows(expression, batch) matches Ok(rows) && out.num_rows == rows.len()
                && forall|j: int| 0 <= j < batch.columns.len() ==> out.columns[j] == (#[trigger] batch.columns[j]).take(rows)
        },
{
    lemma_evaluate_len(expression, batch);
    if let Ok(rows) = spec_filter_rows(expression, batch) {
        let mask = spec_evaluate(expression, batch).unwrap().into_array(batch.num_rows);
        lemma_selected_rows_len(mask->Held_1);
        let out = batch.take(rows);
        assert(out.column_types() =~= batch.column_types());
    }
}

/// What the filter hands on fits its schema: one column per field, at least
/// one column, each of its field's type, and no null row in a column whose
/// field allows none.
pub proof fn law_filter_output_fits_schema(schema: Schema, expression: PhysicalExpr, batch: BatchData)
    ensures
        spec_filter_output(schema, expression, batch) matches Ok(out) ==> {
            &&& out.columns.len() == schema.fields@.len()
            &&& out.columns.len() > 0
            &&& forall|i: int| 0 <= i < out.columns.len() ==> (#[trigger] out.columns[i]).data_type() == schema.types()[i]
            &&& forall|i: int, k: int|
                0 <= i < out.columns.len() && !schema.nullables()[i] && 0 <= k < out.columns[i].rows().len()
                    ==> !((#[trigger] out.columns[i].rows()[k]) is None)
        },
{
    if let Ok(out) = spec_filter_output(schema, expression, batch) {
        let n = out.columns.len();
        lemma_first_null_violation_none(schema.nullables(), out.columns, n);
        lemma_first_type_mismatch_none(schema.types(), out.columns, n);
        assert forall|i: int, k: int|
            0 <= i < out.columns.len() && !schema.nullables()[i] && 0 <= k < out.columns[i].rows().len()
                implies !((#[trigger] out.columns[i].rows()[k]) is None) by {
            crate::values::law_has_null_rows(out.columns[i]);
        }
    }
}

/// A batch that can stand under the filter's schema gives an output that can
/// too: the filter then hands on exactly the batch of the kept rows.
pub proof fn law_filter_keeps_schema(schema: Schema, expression: PhysicalExpr, batch: BatchData)
    requires
        batch.wf(),
        filter_defined(expression, batch),
        spec_check_batch(schema, batch) is Ok,
    ensures
        spec_filter_output(schema, expression, batch) == spec_filter_batch(expression, batch),
{
    if let Ok(rows) = spec_filter_rows(expression, batch) {
        let out = batch.take(rows);
        let n = batch.columns.len();
        lemma_first_null_violation_none(schema.nullables(), batch.columns, n);
        lemma_first_type_mismatch_none(schema.types(), batch.columns, n);
        assert forall|i: int| 0 <= i < n implies !(!schema.nullables()[i] && (#[trigger] out.columns[i]).has_null())
            && out.columns[i].data_type() == schema.types()[i] by {
            let c = batch.columns[i];
            assert(out.columns[i] == c.take(rows));
            if let ColumnData::Held(t, v) = c {
                if out.columns[i].has_null() {
                    let w = values_at(v, rows);
                    let k = choose|k: int| 0 <= k < w.len() && (#[trigger] w[k]) is None;
                    assert(rows[k] < batch.num_rows);
                    assert(v[rows[k] as int] is None);
                }
            }
        }
        lemma_first_null_violation_none(schema.nullables(), out.columns, n);
        lemma_first_type_mismatch_none(schema.types(), out.columns, n);
    }
}

/// Filtering the output of a filter again with the same row-wise predicate
/// keeps every row: the filter's output holds only rows on which the predicate
/// is true.
pub proof fn law_filter_idempotent(expression: PhysicalExpr, batch: BatchData)
    requires
        batch.wf(),
        row_wise(expression),
        filter_defined(expression, batch),
        spec_filter_batch(expression, batch) is Ok,
    ensures
        filter_defined(expression, spec_filter_batch(expression, batch)->Ok_0),
        spec_filter_batch(expression, spec_filter_batch(expression, batch)->Ok_0)
            == spec_filter_batch(expression, batch),
{
    let rows = spec_filter_rows(expression, batch)->Ok_0;
    let out = batch.take(rows);
    lemma_evaluate_len(expression, batch);
    law_evaluate_take(expression, batch, rows);
    let v = spec_evaluate(expression, batch)->Ok_0;
    let mask = v.into_array(batch.num_rows)->Held_1;
    assert(mask.len() <= usize::MAX);
    law_selected_rows_exact(mask);
    lemma_selected_rows_len(mask);
    let m = rows.len();
    let mask2 = take_value(v, rows).into_array(m);
    let all_true = Seq::new(m, |i: int| Some(Datum::Boolean(true)));
    match v {
        ColumnarData::Array(c) => {
            assert(mask2 == ColumnData::Held(DataType::Boolean, values_at(mask, rows)));
            assert(values_at(mask, rows) =~= all_true);
        },
        ColumnarData::Scalar(s) => {
            if let ScalarData::Held(_, d) = s {
                if m > 0 {
                    assert(is_true(mask[rows[0] as int]));
                }
                assert(mask2->Held_1 =~= all_true);
            }
        },
    }
    law_selected_rows_all_true(m);
    let rows2 = Seq::new(m, |i: int| i as usize);
    assert(spec_filter_rows(expression, out) == Ok::<Seq<usize>, FilterError>(rows2));
    assert(out.wf());
    lemma_take_all(out);
}

impl CustomFilter {
    /// A filter over the single child whose schema is given; an error where
    /// there is not exactly one child or where the predicate is not boolean.
    pub fn try_new(expression: PhysicalExpr, children: Vec<Schema>) -> (res: Result<CustomFilter, FilterError>)
        requires
            children@.len() == 1 ==> data_type_defined(expression, children@[0].types()),
        ensures
            children@.len() != 1 ==> res == Err::<CustomFilter, FilterError>(FilterError::ChildCount(children@.len() as usize)),
            children@.len() == 1 && spec_data_type(expression, children@[0].types()) != DataType::Boolean
                ==> res == Err::<CustomFilter, FilterError>(FilterError::NotBoolean(spec_data_type(expression, children@[0].types()))),
            children@.len() == 1 && spec_data_type(expression, children@[0].types()) == DataType::Boolean
                ==> (res matches Ok(f) && f.schema.same_fields(children@[0]) && f.expression == expression),
    {
        match check_child_count(children.len()) {
            Ok(()) => {},
            Err(e) => return Err(e),
        }
        let schema = children[0].duplicate();
        match check_predicate_type(expression.data_type(&schema)) {
            Ok(()) => {},
            Err(e) => return Err(e),
        }
        Ok(CustomFilter { schema, expression })
    }

    pub fn name() -> (res: &'static str)
        ensures
            res@ == "just a custom filter"@,
    {
        "just a custom filter"
    }

    /// The text that shows a filter with the given predicate text in a plan.
    pub fn fmt_as(t: DisplayFormatType, predicate: &str) -> (res: String)
        ensures
            t != DisplayFormatType::TreeRender ==> res@ == "CustomFilter: "@ + predicate@,
            t == DisplayFormatType::TreeRender ==> res@ == "predicate="@ + predicate@,
    {
        let mut s = match t {
            DisplayFormatType::TreeRender => String::from_str("predicate="),
            _ => String::from_str("CustomFilter: "),
        };
        s.append(predicate);
        s
    }
}

impl CustomFilterStream {
    pub fn new(schema: Schema, expression: PhysicalExpr) -> (res: CustomFilterStream)
        ensures
            res.schema == schema,
            res.expression == expression,
    {
        CustomFilterStream { schema, expression }
    }

    pub fn schema(&self) -> (res: &Schema)
        ensures
            *res == self.schema,
    {
        &self.schema
    }

    /// The rows of the batch that the predicate keeps: it is evaluated, turned
    /// into an array of the batch's row count, and must be a boolean mask.
    pub fn filter_rows(&self, batch: &RecordBatch) -> (res: Result<Vec<usize>, FilterError>)
        requires
            evaluate_defined(self.expression, batch@),
        ensures
            match res {
                Ok(rows) => spec_filter_rows(self.expression, batch@) == Ok::<Seq<usize>, FilterError>(rows@),
                Err(e) => spec_filter_rows(self.expression, batch@) == Err::<Seq<usize>, FilterError>(e),
            },
    {
        let filter_mask = match self.expression.evaluate(batch) {
            Ok(v) => v,
            Err(e) => return Err(FilterError::Expr(e)),
        };
        rows_from_mask(filter_mask, batch.num_rows())
    }

    /// The rows of the batch that the predicate keeps, or `None` where
    /// filtering would panic: the predicate does not evaluate without
    /// panicking, or its mask keeps a row past the end of the batch.
    pub fn checked_filter_rows(&self, batch: &RecordBatch) -> (res: Option<Result<Vec<usize>, FilterError>>)
        ensures
            res is Some <==> filter_defined(self.expression, batch@),
            res matches Some(r) ==> match r {
                Ok(rows) => spec_filter_rows(self.expression, batch@) == Ok::<Seq<usize>, FilterError>(rows@),
                Err(e) => spec_filter_rows(self.expression, batch@) == Err::<Seq<usize>, FilterError>(e),
            },
    {
        let filter_mask = match self.expression.checked_evaluate(batch) {
            None => return None,
            Some(Err(e)) => return Some(Err(FilterError::Expr(e))),
            Some(Ok(v)) => v,
        };
        checked_rows_from_mask(filter_mask, batch.num_rows())
    }

    /// The batch made of the rows on which the predicate is true; an error
    /// where that batch cannot stand under the stream's schema.
    pub fn filter_batch(&self, batch: &RecordBatch) -> (res: Result<RecordBatch, FilterError>)
        requires
            filter_defined(self.expression, batch@),
        ensures
            match res {
                Ok(b) => spec_filter_output(self.schema, self.expression, batch@) == Ok::<BatchData, FilterError>(b@),
                Err(e) => spec_filter_output(self.schema, self.expression, batch@) == Err::<BatchData, FilterError>(e),
            },
    {
        let out = match self.filter_rows(batch) {
            Ok(rows) => batch.take(&rows),
            Err(e) => return Err(e),
        };
        match check_batch(&self.schema, &out) {
            Ok(()) => Ok(out),
            Err(e) => Err(e),
        }
    }
}

} // verus!
