//! Physical expressions: column references, literals and binary comparisons,
//! with their data types and their evaluation against a record batch.

use vstd::prelude::*;

use crate::kernels::{compare_arrays, compare_rows, compare_slot, compare_values, comparable, converse};
use crate::operator::Operator;
use crate::schema::{DataType, Schema};
use crate::values::{
    ArrayValues, Column, ColumnData, ColumnarData, ColumnarValue, RecordBatch, BatchData,
    ScalarData, ScalarValue, boolean_rows, values_at,
};

verus! {

/// Why an expression could not be evaluated or rebuilt.
#[derive(Debug, Clone, Copy, PartialEq, Eq, Structural)]
pub enum ExprError {
    /// Two arrays of different lengths were compared.
    LengthMismatch(usize, usize),
    /// Values of two different data types were compared.
    IncomparableTypes(DataType, DataType),
    /// Values of a type whose values the library does not hold were compared.
    ValuesNotHeld(DataType),
    /// Children were given to an expression that has none.
    ChildrenNotAllowed,
}

/// A reference to the column at `index` of a batch, named `name`.
#[derive(Debug)]
pub struct ColumnExpr {
    pub index: usize,
    pub name: String,
}

/// A literal.
#[derive(Debug)]
pub struct ScalarExpr {
    pub value: ScalarValue,
}

/// `left op right`.
#[derive(Debug)]
pub struct CustomBinaryExpr {
    pub left: Box<PhysicalExpr>,
    pub right: Box<PhysicalExpr>,
    pub op: Operator,
}

/// An expression tree.
#[derive(Debug)]
pub enum PhysicalExpr {
    Column(ColumnExpr),
    Scalar(ScalarExpr),
    Binary(CustomBinaryExpr),
}

/// The length that both sides of a comparison are brought to: that of an
/// array side, 1 when both sides are scalars.
pub open spec fn comparison_len(l: ColumnarData, r: ColumnarData) -> nat {
    match (l, r) {
        (ColumnarData::Array(a), _) => a.len(),
        (ColumnarData::Scalar(_), ColumnarData::Array(b)) => b.len(),
        (ColumnarData::Scalar(_), ColumnarData::Scalar(_)) => 1,
    }
}

/// Both operands are arrays, of different lengths.
pub open spec fn lengths_differ(l: ColumnarData, r: ColumnarData) -> bool {
    match (l, r) {
        (ColumnarData::Array(a), ColumnarData::Array(b)) => a.len() != b.len(),
        _ => false,
    }
}

/// The length of an operand; 1 for a scalar.
pub open spec fn operand_len(v: ColumnarData) -> nat {
    match v {
        ColumnarData::Array(a) => a.len(),
        ColumnarData::Scalar(_) => 1,
    }
}

/// An ordering comparison of two evaluated operands, as a boolean array.
pub open spec fn spec_compare(op: Operator, l: ColumnarData, r: ColumnarData) -> Result<Seq<Option<bool>>, ExprError> {
    if lengths_differ(l, r) {
        Err(ExprError::LengthMismatch(operand_len(l) as usize, operand_len(r) as usize))
    } else {
        let len = comparison_len(l, r);
        let la = l.into_array(len);
        let ra = r.into_array(len);
        if la.data_type() != ra.data_type() {
            Err(ExprError::IncomparableTypes(la.data_type(), ra.data_type()))
        } else if la is Opaque || ra is Opaque {
            Err(ExprError::ValuesNotHeld(la.data_type()))
        } else {
            Ok(compare_arrays(op, la, ra))
        }
    }
}

/// `data_type` does not panic: every column that it reads is in the schema.
pub open spec fn data_type_defined(e: PhysicalExpr, fields: Seq<DataType>) -> bool
    decreases e,
{
    match e {
        PhysicalExpr::Column(c) => c.index < fields.len(),
        PhysicalExpr::Scalar(_) => true,
        PhysicalExpr::Binary(b) => b.op.returns_boolean() || data_type_defined(*b.left, fields),
    }
}

/// The data type of an expression over columns of the given types: boolean
/// for a comparison, otherwise that of the left operand.
pub open spec fn spec_data_type(e: PhysicalExpr, fields: Seq<DataType>) -> DataType
    decreases e,
{
    match e {
        PhysicalExpr::Column(c) => fields[c.index as int],
        PhysicalExpr::Scalar(s) => s.value@.data_type(),
        PhysicalExpr::Binary(b) => if b.op.returns_boolean() {
            DataType::Boolean
        } else {
            spec_data_type(*b.left, fields)
        },
    }
}

/// The value of an expression on a batch.
pub open spec fn spec_evaluate(e: PhysicalExpr, batch: BatchData) -> Result<ColumnarData, ExprError>
    decreases e,
{
    match e {
        PhysicalExpr::Column(c) => Ok(ColumnarData::Array(batch.columns[c.index as int])),
        PhysicalExpr::Scalar(s) => Ok(ColumnarData::Scalar(s.value@)),
        PhysicalExpr::Binary(b) => match spec_evaluate(*b.left, batch) {
            Err(err) => Err(err),
            Ok(l) => match spec_evaluate(*b.right, batch) {
                Err(err) => Err(err),
                Ok(r) => match spec_compare(b.op, l, r) {
                    Err(err) => Err(err),
                    Ok(m) => Ok(ColumnarData::Array(ColumnData::Held(DataType::Boolean, boolean_rows(m)))),
                },
            },
        },
    }
}

/// `evaluate` does not panic: every column that it reads is in the batch, and
/// every binary expression whose operands evaluate is an ordering comparison.
pub open spec fn evaluate_defined(e: PhysicalExpr, batch: BatchData) -> bool
    decreases e,
{
    match e {
        PhysicalExpr::Column(c) => c.index < batch.columns.len(),
        PhysicalExpr::Scalar(_) => true,
        PhysicalExpr::Binary(b) => evaluate_defined(*b.left, batch) && (spec_evaluate(
            *b.left,
            batch,
        ) is Err || (evaluate_defined(*b.right, batch) && (spec_evaluate(*b.right, batch) is Err
            || b.op.is_ordering()))),
    }
}

/// The mathematical value of an evaluation result.
pub open spec fn result_view(r: Result<ColumnarValue, ExprError>) -> Result<ColumnarData, ExprError> {
    match r {
        Ok(v) => Ok(v@),
        Err(e) => Err(e),
    }
}

/// Comparing `l op r` and `r converse(op) l` of two evaluated operands gives
/// the same boolean array whenever either succeeds.
pub proof fn law_compare_converse(op: Operator, l: ColumnarData, r: ColumnarData)
    requires
        op.is_ordering(),
    ensures
        spec_compare(op, l, r) is Ok <==> spec_compare(converse(op), r, l) is Ok,
        spec_compare(op, l, r) is Ok ==> spec_compare(op, l, r) == spec_compare(converse(op), r, l),
{
    if !lengths_differ(l, r) {
        let len = comparison_len(l, r);
        assert(comparison_len(r, l) == len);
        let la = l.into_array(len);
        let ra = r.into_array(len);
        if la.data_type() == ra.data_type() && !(la is Opaque) && !(ra is Opaque) {
            assert(la.len() == len && ra.len() == len);
            crate::kernels::law_compare_arrays_converse(op, la, ra);
        }
    }
}

/// Comparing an array with a literal of its type, on either side, compares
/// each row with the literal's value: null where either is null.
pub proof fn law_compare_with_literal(op: Operator, a: ColumnData, s: ScalarData)
    requires
        a is Held,
        s is Held,
        a.data_type() == s.data_type(),
    ensures
        spec_compare(op, ColumnarData::Array(a), ColumnarData::Scalar(s)) == Ok::<Seq<Option<bool>>, ExprError>(
            Seq::new(a.len(), |i: int| compare_slot(op, a.rows()[i], s->Held_1)),
        ),
        spec_compare(op, ColumnarData::Scalar(s), ColumnarData::Array(a)) == Ok::<Seq<Option<bool>>, ExprError>(
            Seq::new(a.len(), |i: int| compare_slot(op, s->Held_1, a.rows()[i])),
        ),
{
    assert(compare_arrays(op, a, ColumnarData::Scalar(s).into_array(a.len())) =~= Seq::new(
        a.len(),
        |i: int| compare_slot(op, a.rows()[i], s->Held_1),
    ));
    assert(compare_arrays(op, ColumnarData::Scalar(s).into_array(a.len()), a) =~= Seq::new(
        a.len(),
        |i: int| compare_slot(op, s->Held_1, a.rows()[i]),
    ));
}

/// The data type of a binary expression: `Boolean` for the operators
/// `<`, `<=`, `>`, `>=`, `=` and `!=`, and that of its left operand for every
/// other operator.
pub proof fn law_binary_data_type(b: CustomBinaryExpr, fields: Seq<DataType>)
    ensures
        (b.op == Operator::Lt || b.op == Operator::LtEq || b.op == Operator::Gt || b.op == Operator::GtEq
            || b.op == Operator::Eq || b.op == Operator::NotEq) ==> spec_data_type(PhysicalExpr::Binary(b), fields)
            == DataType::Boolean,
        !(b.op == Operator::Lt || b.op == Operator::LtEq || b.op == Operator::Gt || b.op == Operator::GtEq
            || b.op == Operator::Eq || b.op == Operator::NotEq) ==> spec_data_type(PhysicalExpr::Binary(b), fields)
            == spec_data_type(*b.left, fields),
        data_type_defined(PhysicalExpr::Binary(b), fields) == ((b.op == Operator::Lt || b.op == Operator::LtEq
            || b.op == Operator::Gt || b.op == Operator::GtEq || b.op == Operator::Eq || b.op == Operator::NotEq)
            || data_type_defined(*b.left, fields)),
{
}

/// No comparison in the expression has two literal operands, so that every
/// array that it evaluates to has one row per row of the batch.
pub open spec fn row_wise(e: PhysicalExpr) -> bool
    decreases e,
{
    match e {
        PhysicalExpr::Binary(b) => row_wise(*b.left) && row_wise(*b.right) && !(*b.left is Scalar
            && *b.right is Scalar),
        _ => true,
    }
}

/// The value restricted to the rows at `rows`; a scalar stands for every row
/// and stays as it is.
pub open spec fn take_value(v: ColumnarData, rows: Seq<usize>) -> ColumnarData {
    match v {
        ColumnarData::Array(c) => ColumnarData::Array(c.take(rows)),
        ColumnarData::Scalar(s) => ColumnarData::Scalar(s),
    }
}

/// An evaluation result restricted to the rows at `rows`.
pub open spec fn take_result(r: Result<ColumnarData, ExprError>, rows: Seq<usize>) -> Result<ColumnarData, ExprError> {
    match r {
        Ok(v) => Ok(take_value(v, rows)),
        Err(e) => Err(e),
    }
}

/// Comparing the rows at `rows` of two sequences gives the comparison of the
/// whole sequences at those rows.
proof fn lemma_compare_rows_take(op: Operator, l: Seq<Option<crate::values::Datum>>, r: Seq<Option<crate::values::Datum>>, rows: Seq<usize>)
    requires
        l.len() == r.len(),
        forall|k: int| 0 <= k < rows.len() ==> rows[k] < l.len(),
    ensures
        compare_rows(op, values_at(l, rows), values_at(r, rows)) == values_at(compare_rows(op, l, r), rows),
{
    assert(compare_rows(op, values_at(l, rows), values_at(r, rows)) =~= values_at(compare_rows(op, l, r), rows));
}

/// Restricting `n` copies of a scalar to rows below `n` gives as many copies
/// as there are rows.
proof fn lemma_repeat_take(s: ScalarData, n: nat, rows: Seq<usize>)
    requires
        forall|k: int| 0 <= k < rows.len() ==> rows[k] < n,
    ensures
        ColumnData::repeat(s, n).take(rows) == ColumnData::repeat(s, rows.len()),
{
    if let ScalarData::Held(t, d) = s {
        assert(values_at(Seq::new(n, |i: int| d), rows) =~= Seq::new(rows.len(), |i: int| d));
    }
}

/// A comparison of operands that have `n` rows each, or stand for every row,
/// commutes with restricting them to some of those rows.
proof fn lemma_compare_take(op: Operator, l: ColumnarData, r: ColumnarData, n: nat, rows: Seq<usize>)
    requires
        l matches ColumnarData::Array(a) ==> a.len() == n,
        r matches ColumnarData::Array(a) ==> a.len() == n,
        !(l is Scalar && r is Scalar),
        forall|k: int| 0 <= k < rows.len() ==> rows[k] < n,
    ensures
        spec_compare(op, take_value(l, rows), take_value(r, rows)) == (match spec_compare(op, l, r) {
            Ok(m) => Ok(values_at(m, rows)),
            Err(e) => Err(e),
        }),
{
    let m = rows.len();
    let tl = take_value(l, rows);
    let tr = take_value(r, rows);
    assert(comparison_len(l, r) == n);
    assert(comparison_len(tl, tr) == m);
    assert(!lengths_differ(l, r));
    assert(!lengths_differ(tl, tr));
    let la = l.into_array(n);
    let ra = r.into_array(n);
    let tla = tl.into_array(m);
    let tra = tr.into_array(m);
    if let ColumnarData::Scalar(s) = l {
        lemma_repeat_take(s, n, rows);
    }
    if let ColumnarData::Scalar(s) = r {
        lemma_repeat_take(s, n, rows);
    }
    assert(tla == la.take(rows));
    assert(tra == ra.take(rows));
    if la.data_type() == ra.data_type() && !(la is Opaque) && !(ra is Opaque) {
        lemma_compare_rows_take(op, la.rows(), ra.rows(), rows);
        assert(compare_arrays(op, tla, tra) == values_at(compare_arrays(op, la, ra), rows));
    }
}

/// Evaluating a row-wise expression on some of the rows of a batch gives the
/// evaluation on the whole batch restricted to those rows.
pub proof fn law_evaluate_take(e: PhysicalExpr, batch: BatchData, rows: Seq<usize>)
    requires
        batch.wf(),
        row_wise(e),
        evaluate_defined(e, batch),
        forall|k: int| 0 <= k < rows.len() ==> rows[k] < batch.num_rows,
    ensures
        evaluate_defined(e, batch.take(rows)),
        spec_evaluate(e, batch.take(rows)) == take_result(spec_evaluate(e, batch), rows),
        spec_evaluate(e, batch) matches Ok(v) ==> match v {
            ColumnarData::Array(c) => c.len() == batch.num_rows,
            ColumnarData::Scalar(_) => e is Scalar,
        },
    decreases e,
{
    match e {
        PhysicalExpr::Column(c) => {
            assert(batch.take(rows).columns[c.index as int] == batch.columns[c.index as int].take(rows));
        },
        PhysicalExpr::Scalar(_) => {},
        PhysicalExpr::Binary(b) => {
            law_evaluate_take(*b.left, batch, rows);
            if let Ok(l) = spec_evaluate(*b.left, batch) {
                law_evaluate_take(*b.right, batch, rows);
                if let Ok(r) = spec_evaluate(*b.right, batch) {
                    lemma_compare_take(b.op, l, r, batch.num_rows, rows);
                    if let Ok(m) = spec_compare(b.op, l, r) {
                        let len = comparison_len(l, r);
                        assert(len == batch.num_rows);
                        assert(m.len() == len);
                        assert(boolean_rows(values_at(m, rows)) =~= values_at(boolean_rows(m), rows));
                    }
                }
            }
        },
    }
}

/// On a well-formed batch, an expression that evaluates to an array gives one
/// of at most `max(num_rows, 1)` rows.
pub proof fn lemma_evaluate_len(e: PhysicalExpr, batch: BatchData)
    requires
        batch.wf(),
        evaluate_defined(e, batch),
    ensures
        spec_evaluate(e, batch) matches Ok(ColumnarData::Array(c)) ==> c.len() <= batch.num_rows || c.len() == 1,
    decreases e,
{
    match e {
        PhysicalExpr::Binary(b) => {
            lemma_evaluate_len(*b.left, batch);
            if spec_evaluate(*b.left, batch) is Ok {
                lemma_evaluate_len(*b.right, batch);
            }
        },
        _ => {},
    }
}

/// The text of `left op right`, from the texts of its parts.
pub fn binary_text(left: &str, op: &str, right: &str) -> (res: String)
    ensures
        res@ == left@ + seq![' '] + op@ + seq![' '] + right@,
{
    let mut s = String::from_str(left);
    s.append(" ");
    s.append(op);
    s.append(" ");
    s.append(right);
    proof {
        reveal_strlit(" ");
    }
    s
}

impl ColumnExpr {
    /// The text of a column reference: its name.
    pub fn to_display_string(&self) -> (res: String)
        ensures
            res@ == self.name@,
    {
        self.name.clone()
    }

    pub fn new(name: &str, index: usize) -> (res: ColumnExpr)
        ensures
            res.name@ == name@,
            res.index == index,
    {
        ColumnExpr { index, name: String::from_str(name) }
    }

    /// The type of the referenced field.
    pub fn data_type(&self, input_schema: &Schema) -> (res: DataType)
        requires
            self.index < input_schema.fields@.len(),
        ensures
            res == input_schema.types()[self.index as int],
    {
        input_schema.field_type(self.index)
    }

    /// The referenced column of the batch.
    pub fn evaluate(&self, batch: &RecordBatch) -> (res: ColumnarValue)
        requires
            self.index < batch@.columns.len(),
        ensures
            res@ == ColumnarData::Array(batch@.columns[self.index as int]),
    {
        ColumnarValue::Array(batch.column(self.index).duplicate())
    }

    /// A column reference has no children.
    pub fn children(&self) -> (res: Vec<&PhysicalExpr>)
        ensures
            res@.len() == 0,
    {
        Vec::new()
    }

    /// The same expression; an error where children are given.
    pub fn with_new_children(self, children: Vec<PhysicalExpr>) -> (res: Result<ColumnExpr, ExprError>)
        ensures
            children@.len() == 0 ==> (res matches Ok(c) && c.index == self.index && c.name@ == self.name@),
            children@.len() != 0 ==> res == Err::<ColumnExpr, ExprError>(ExprError::ChildrenNotAllowed),
    {
        if children.len() != 0 {
            return Err(ExprError::ChildrenNotAllowed);
        }
        Ok(self)
    }
}

impl ScalarExpr {
    pub fn new(value: ScalarValue) -> (res: ScalarExpr)
        ensures
            res.value == value,
    {
        ScalarExpr { value }
    }

    /// The type of the literal.
    pub fn data_type(&self, input_schema: &Schema) -> (res: DataType)
        ensures
            res == self.value@.data_type(),
    {
        self.value.data_type()
    }

    /// The literal, as a scalar that stands for every row.
    pub fn evaluate(&self, batch: &RecordBatch) -> (res: ColumnarValue)
        ensures
            res@ == ColumnarData::Scalar(self.value@),
    {
        ColumnarValue::Scalar(self.value.duplicate())
    }

    /// A literal has no children.
    pub fn children(&self) -> (res: Vec<&PhysicalExpr>)
        ensures
            res@.len() == 0,
    {
        Vec::new()
    }

    /// The same expression, whatever children are given.
    pub fn with_new_children(self, children: Vec<PhysicalExpr>) -> (res: ScalarExpr)
        ensures
            res.value == self.value,
    {
        self
    }
}

impl CustomBinaryExpr {
    pub fn new(left: PhysicalExpr, op: Operator, right: PhysicalExpr) -> (res: CustomBinaryExpr)
        ensures
            *res.left == left,
            *res.right == right,
            res.op == op,
    {
        CustomBinaryExpr { left: Box::new(left), right: Box::new(right), op }
    }

    /// Builds `left op right`; it always succeeds.
    pub fn try_new(left: PhysicalExpr, right: PhysicalExpr, op: Operator) -> (res: Result<CustomBinaryExpr, ExprError>)
        ensures
            res matches Ok(b) && *b.left == left && *b.right == right && b.op == op,
    {
        Ok(CustomBinaryExpr::new(left, op, right))
    }

    /// The length that both operands of a comparison are brought to; an error
    /// where both are arrays, of different lengths.
    pub fn operands_len(left: &ColumnarValue, right: &ColumnarValue) -> (res: Result<usize, ExprError>)
        ensures
            lengths_differ(left@, right@) ==> res == Err::<usize, ExprError>(
                ExprError::LengthMismatch(operand_len(left@) as usize, operand_len(right@) as usize),
            ),
            !lengths_differ(left@, right@) ==> (res matches Ok(n) && n == comparison_len(left@, right@)),
    {
        match (left, right) {
            (ColumnarValue::Array(l), ColumnarValue::Array(r)) => {
                if l.len() != r.len() {
                    return Err(ExprError::LengthMismatch(l.len(), r.len()));
                }
                Ok(l.len())
            },
            (ColumnarValue::Array(l), ColumnarValue::Scalar(_)) => Ok(l.len()),
            (ColumnarValue::Scalar(_), ColumnarValue::Array(r)) => Ok(r.len()),
            (ColumnarValue::Scalar(_), ColumnarValue::Scalar(_)) => Ok(1),
        }
    }

    /// Compares two evaluated operands row by row. Two arrays must have the
    /// same length, whatever the operator; a scalar is brought to the length of
    /// the other side, and to one row when both sides are scalars; only the
    /// ordering operators are then applied.
    pub fn compare(op: Operator, left: ColumnarValue, right: ColumnarValue) -> (res: Result<Vec<Option<bool>>, ExprError>)
        requires
            op.is_ordering() || lengths_differ(left@, right@),
        ensures
            match res {
                Ok(v) => spec_compare(op, left@, right@) == Ok::<Seq<Option<bool>>, ExprError>(v@),
                Err(e) => spec_compare(op, left@, right@) == Err::<Seq<Option<bool>>, ExprError>(e),
            },
    {
        let len = match CustomBinaryExpr::operands_len(&left, &right) {
            Ok(n) => n,
            Err(e) => return Err(e),
        };
        let ghost (lv, rv) = (left@, right@);
        let left_array = left.into_array(len);
        let right_array = right.into_array(len);
        let lt = left_array.data_type();
        let rt = right_array.data_type();
        if lt != rt {
            return Err(ExprError::IncomparableTypes(lt, rt));
        }
        match (&left_array, &right_array) {
            (Column::Values(a), Column::Values(b)) => {
                assert(comparable(a@, b@));
                assert(left_array@ == lv.into_array(len as nat));
                assert(right_array@ == rv.into_array(len as nat));
                Ok(compare_values(op, a, b))
            },
            (Column::Opaque { .. }, _) => Err(ExprError::ValuesNotHeld(lt)),
            (Column::Values(_), Column::Opaque { .. }) => Err(ExprError::ValuesNotHeld(lt)),
        }
    }

    /// Boolean for a comparison, otherwise the type of the left operand.
    pub fn data_type(&self, input_schema: &Schema) -> (res: DataType)
        requires
            data_type_defined(PhysicalExpr::Binary(*self), input_schema.types()),
        ensures
            res == spec_data_type(PhysicalExpr::Binary(*self), input_schema.types()),
        decreases self,
    {
        if self.op.returns_boolean_op() {
            DataType::Boolean
        } else {
            self.left.data_type(input_schema)
        }
    }

    /// Evaluates both operands, then compares them; an ordering comparison is
    /// the only operator that is evaluated.
    pub fn evaluate(&self, batch: &RecordBatch) -> (res: Result<ColumnarValue, ExprError>)
        requires
            evaluate_defined(PhysicalExpr::Binary(*self), batch@),
        ensures
            result_view(res) == spec_evaluate(PhysicalExpr::Binary(*self), batch@),
        decreases self,
    {
        let left_result = match self.left.evaluate(batch) {
            Ok(v) => v,
            Err(e) => return Err(e),
        };
        let right_result = match self.right.evaluate(batch) {
            Ok(v) => v,
            Err(e) => return Err(e),
        };
        match CustomBinaryExpr::compare(self.op, left_result, right_result) {
            Ok(mask) => Ok(ColumnarValue::Array(Column::Values(ArrayValues::Boolean(mask)))),
            Err(e) => Err(e),
        }
    }

    /// The two operands.
    pub fn children(&self) -> (res: Vec<&PhysicalExpr>)
        ensures
            res@.len() == 2,
            *res@[0] == *self.left,
            *res@[1] == *self.right,
    {
        let mut v: Vec<&PhysicalExpr> = Vec::new();
        v.push(&*self.left);
        v.push(&*self.right);
        v
    }
}

impl PhysicalExpr {
    /// The data type of the expression's result over a batch of the given schema.
    pub fn data_type(&self, input_schema: &Schema) -> (res: DataType)
        requires
            data_type_defined(*self, input_schema.types()),
        ensures
            res == spec_data_type(*self, input_schema.types()),
        decreases self,
    {
        match self {
            PhysicalExpr::Column(c) => c.data_type(input_schema),
            PhysicalExpr::Scalar(s) => s.data_type(input_schema),
            PhysicalExpr::Binary(b) => b.data_type(input_schema),
        }
    }

    /// The value of the expression on a batch.
    pub fn evaluate(&self, batch: &RecordBatch) -> (res: Result<ColumnarValue, ExprError>)
        requires
            evaluate_defined(*self, batch@),
        ensures
            result_view(res) == spec_evaluate(*self, batch@),
        decreases self,
    {
        match self {
            PhysicalExpr::Column(c) => Ok(c.evaluate(batch)),
            PhysicalExpr::Scalar(s) => Ok(s.evaluate(batch)),
            PhysicalExpr::Binary(b) => b.evaluate(batch),
        }
    }

    /// The data type of the expression, or `None` where `data_type` would
    /// panic because the expression reads a column outside the schema.
    pub fn checked_data_type(&self, input_schema: &Schema) -> (res: Option<DataType>)
        ensures
            res is Some <==> data_type_defined(*self, input_schema.types()),
            res matches Some(t) ==> t == spec_data_type(*self, input_schema.types()),
        decreases self,
    {
        match self {
            PhysicalExpr::Column(c) => {
                if c.index < input_schema.len() {
                    Some(c.data_type(input_schema))
                } else {
                    None
                }
            },
            PhysicalExpr::Scalar(s) => Some(s.data_type(input_schema)),
            PhysicalExpr::Binary(b) => {
                if b.op.returns_boolean_op() {
                    Some(DataType::Boolean)
                } else {
                    b.left.checked_data_type(input_schema)
                }
            },
        }
    }

    /// The value of the expression on a batch, or `None` where `evaluate`
    /// would panic.
    pub fn checked_evaluate(&self, batch: &RecordBatch) -> (res: Option<Result<ColumnarValue, ExprError>>)
        ensures
            res is Some <==> evaluate_defined(*self, batch@),
            res matches Some(r) ==> result_view(r) == spec_evaluate(*self, batch@),
        decreases self,
    {
        match self {
            PhysicalExpr::Column(c) => {
                if c.index < batch.num_columns() {
                    Some(Ok(c.evaluate(batch)))
                } else {
                    None
                }
            },
            PhysicalExpr::Scalar(s) => Some(Ok(s.evaluate(batch))),
            PhysicalExpr::Binary(b) => {
                let l = match b.left.checked_evaluate(batch) {
                    None => return None,
                    Some(Err(e)) => return Some(Err(e)),
                    Some(Ok(v)) => v,
                };
                let r = match b.right.checked_evaluate(batch) {
                    None => return None,
                    Some(Err(e)) => return Some(Err(e)),
                    Some(Ok(v)) => v,
                };
                if !b.op.is_ordering_op() {
                    return None;
                }
                match CustomBinaryExpr::compare(b.op, l, r) {
                    Ok(mask) => Some(Ok(ColumnarValue::Array(Column::Values(ArrayValues::Boolean(mask))))),
                    Err(e) => Some(Err(e)),
                }
            },
        }
    }

    /// The direct subexpressions.
    pub fn children(&self) -> (res: Vec<&PhysicalExpr>)
        ensures
            match *self {
                PhysicalExpr::Binary(b) => res@.len() == 2 && *res@[0] == *b.left && *res@[1] == *b.right,
                _ => res@.len() == 0,
            },
    {
        match self {
            PhysicalExpr::Column(c) => c.children(),
            PhysicalExpr::Scalar(s) => s.children(),
            PhysicalExpr::Binary(b) => b.children(),
        }
    }
}

} // verus!
