//! Ordering comparisons of arrays, computed by arrow's comparison kernels.

use std::sync::Arc;

use arrow::array::{ArrayRef, BooleanArray, LargeBinaryArray, LargeStringArray, Int16Array, Int32Array, Int64Array, Int8Array, UInt16Array, UInt32Array, UInt64Array, UInt8Array};
use arrow::compute::kernels::cmp::{gt, gt_eq, lt, lt_eq};
use arrow::error::ArrowError;
use vstd::prelude::*;

use crate::operator::Operator;
use crate::schema::DataType;
use crate::values::{
    copy_bytes_vec, copy_texts, copy_vec, ArrayValues, ColumnData, Datum, boolean_rows, int8_rows, int16_rows, int32_rows, int64_rows, uint8_rows, uint16_rows, uint32_rows, uint64_rows, utf8_rows, binary_rows,
};

verus! {

/// The error type of arrow's kernels.
#[verifier::external_type_specification]
#[verifier::external_body]
pub struct ExArrowError(ArrowError);

/// An arrow array that the library built from held values. Arrow's arrays are
/// shared trait objects, which cannot be declared; what the array holds is
/// known through `arrow_type` and `arrow_rows`.
#[verifier::external_body]
pub struct ArrowArray {
    array: ArrayRef,
}

/// The data type of an arrow array, in the library's terms; the arrays that
/// the library builds are of the types `Boolean`, the integer types,
/// `LargeUtf8` and `LargeBinary`, each named by its own variant.
pub uninterp spec fn arrow_type(a: ArrowArray) -> DataType;

/// The rows of an arrow array, null as `None`.
pub uninterp spec fn arrow_rows(a: ArrowArray) -> Seq<Option<Datum>>;

/// The sign of an integer.
pub open spec fn sign(x: int) -> int {
    if x < 0 { -1 } else if x == 0 { 0 } else { 1 }
}

/// Lexicographic comparison of two sequences of characters by code point:
/// -1, 0 or 1.
pub open spec fn lex_order_chars(a: Seq<char>, b: Seq<char>) -> int
    decreases a.len(),
{
    if a.len() == 0 {
        if b.len() == 0 { 0 } else { -1 }
    } else if b.len() == 0 {
        1
    } else if a[0] != b[0] {
        sign(a[0] as int - b[0] as int)
    } else {
        lex_order_chars(a.drop_first(), b.drop_first())
    }
}

/// Lexicographic comparison of two sequences of bytes: -1, 0 or 1.
pub open spec fn lex_order_bytes(a: Seq<u8>, b: Seq<u8>) -> int
    decreases a.len(),
{
    if a.len() == 0 {
        if b.len() == 0 { 0 } else { -1 }
    } else if b.len() == 0 {
        1
    } else if a[0] != b[0] {
        sign(a[0] as int - b[0] as int)
    } else {
        lex_order_bytes(a.drop_first(), b.drop_first())
    }
}

/// The rank by which booleans are ordered: `false` before `true`.
pub open spec fn bool_rank(b: bool) -> int {
    if b { 1 } else { 0 }
}

/// How two values of one type compare: -1, 0 or 1.
pub open spec fn datum_order(a: Datum, b: Datum) -> int {
    match (a, b) {
        (Datum::Boolean(x), Datum::Boolean(y)) => sign(bool_rank(x) - bool_rank(y)),
        (Datum::Int(x), Datum::Int(y)) => sign(x - y),
        (Datum::Text(x), Datum::Text(y)) => lex_order_chars(x, y),
        (Datum::Bytes(x), Datum::Bytes(y)) => lex_order_bytes(x, y),
        _ => 0,
    }
}

/// Whether an ordering comparison holds, given how the operands compare.
pub open spec fn ordering_holds(op: Operator, c: int) -> bool {
    match op {
        Operator::Lt => c < 0,
        Operator::LtEq => c <= 0,
        Operator::Gt => c > 0,
        _ => c >= 0,
    }
}

/// One row of a comparison: null where either side is null.
pub open spec fn compare_slot(op: Operator, a: Option<Datum>, b: Option<Datum>) -> Option<bool> {
    match (a, b) {
        (Some(x), Some(y)) => Some(ordering_holds(op, datum_order(x, y))),
        _ => None,
    }
}

/// The row-by-row comparison of two sequences of rows.
pub open spec fn compare_rows(op: Operator, l: Seq<Option<Datum>>, r: Seq<Option<Datum>>) -> Seq<Option<bool>> {
    Seq::new(l.len(), |i: int| compare_slot(op, l[i], r[i]))
}

/// Two arrays can be compared: same data type and same length.
pub open spec fn comparable(l: ColumnData, r: ColumnData) -> bool {
    l.data_type() == r.data_type() && l.len() == r.len()
}

/// The row-by-row comparison of two arrays.
pub open spec fn compare_arrays(op: Operator, l: ColumnData, r: ColumnData) -> Seq<Option<bool>> {
    compare_rows(op, l.rows(), r.rows())
}

/// Calls `From<Vec<Option<bool>>>` of arrow's `BooleanArray`: an array of these values,
/// null where `None`.
#[verifier::external_body]
fn boolean_array(values: Vec<Option<bool>>) -> (res: ArrowArray)
    ensures
        arrow_type(res) == DataType::Boolean,
        arrow_rows(res) == boolean_rows(values@),
{
    ArrowArray { array: Arc::new(BooleanArray::from(values)) }
}

/// Calls `From<Vec<Option<i8>>>` of arrow's `Int8Array`: an array of these values,
/// null where `None`.
#[verifier::external_body]
fn int8_array(values: Vec<Option<i8>>) -> (res: ArrowArray)
    ensures
        arrow_type(res) == DataType::Int8,
        arrow_rows(res) == int8_rows(values@),
{
    ArrowArray { array: Arc::new(Int8Array::from(values)) }
}

/// Calls `From<Vec<Option<i16>>>` of arrow's `Int16Array`: an array of these values,
/// null where `None`.
#[verifier::external_body]
fn int16_array(values: Vec<Option<i16>>) -> (res: ArrowArray)
    ensures
        arrow_type(res) == DataType::Int16,
        arrow_rows(res) == int16_rows(values@),
{
    ArrowArray { array: Arc::new(Int16Array::from(values)) }
}

/// Calls `From<Vec<Option<i32>>>` of arrow's `Int32Array`: an array of these values,
/// null where `None`.
#[verifier::external_body]
fn int32_array(values: Vec<Option<i32>>) -> (res: ArrowArray)
    ensures
        arrow_type(res) == DataType::Int32,
        arrow_rows(res) == int32_rows(values@),
{
    ArrowArray { array: Arc::new(Int32Array::from(values)) }
}

/// Calls `From<Vec<Option<i64>>>` of arrow's `Int64Array`: an array of these values,
/// null where `None`.
#[verifier::external_body]
fn int64_array(values: Vec<Option<i64>>) -> (res: ArrowArray)
    ensures
        arrow_type(res) == DataType::Int64,
        arrow_rows(res) == int64_rows(values@),
{
    ArrowArray { array: Arc::new(Int64Array::from(values)) }
}

/// Calls `From<Vec<Option<u8>>>` of arrow's `UInt8Array`: an array of these values,
/// null where `None`.
#[verifier::external_body]
fn uint8_array(values: Vec<Option<u8>>) -> (res: ArrowArray)
    ensures
        arrow_type(res) == DataType::UInt8,
        arrow_rows(res) == uint8_rows(values@),
{
    ArrowArray { array: Arc::new(UInt8Array::from(values)) }
}

/// Calls `From<Vec<Option<u16>>>` of arrow's `UInt16Array`: an array of these values,
/// null where `None`.
#[verifier::external_body]
fn uint16_array(values: Vec<Option<u16>>) -> (res: ArrowArray)
    ensures
        arrow_type(res) == DataType::UInt16,
        arrow_rows(res) == uint16_rows(values@),
{
    ArrowArray { array: Arc::new(UInt16Array::from(values)) }
}

/// Calls `From<Vec<Option<u32>>>` of arrow's `UInt32Array`: an array of these values,
/// null where `None`.
#[verifier::external_body]
fn uint32_array(values: Vec<Option<u32>>) -> (res: ArrowArray)
    ensures
        arrow_type(res) == DataType::UInt32,
        arrow_rows(res) == uint32_rows(values@),
{
    ArrowArray { array: Arc::new(UInt32Array::from(values)) }
}

/// Calls `From<Vec<Option<u64>>>` of arrow's `UInt64Array`: an array of these values,
/// null where `None`.
#[verifier::external_body]
fn uint64_array(values: Vec<Option<u64>>) -> (res: ArrowArray)
    ensures
        arrow_type(res) == DataType::UInt64,
        arrow_rows(res) == uint64_rows(values@),
{
    ArrowArray { array: Arc::new(UInt64Array::from(values)) }
}

/// Calls `From<Vec<Option<String>>>` of arrow's `LargeStringArray`: an array
/// of these strings, null where `None`. Its offsets are 64-bit, so that no
/// total length of strings held in memory overflows them.
#[verifier::external_body]
fn text_array(values: Vec<Option<String>>) -> (res: ArrowArray)
    ensures
        arrow_type(res) == DataType::LargeUtf8,
        arrow_rows(res) == utf8_rows(values@),
{
    ArrowArray { array: Arc::new(LargeStringArray::from(values)) }
}

/// Calls `FromIterator<Option<Vec<u8>>>` of arrow's `LargeBinaryArray`: an
/// array of these byte strings, null where `None`. Its offsets are 64-bit, so
/// that no total length of byte strings held in memory overflows them.
#[verifier::external_body]
fn bytes_array(values: Vec<Option<Vec<u8>>>) -> (res: ArrowArray)
    ensures
        arrow_type(res) == DataType::LargeBinary,
        arrow_rows(res) == binary_rows(values@),
{
    ArrowArray { array: Arc::new(LargeBinaryArray::from_iter(values)) }
}

/// Calls arrow's `cmp::lt` kernel on two arrays. The contract states what
/// arrow's source shows for two non-scalar arrays of the types that the
/// library builds: an error exactly when their data types or their lengths
/// differ, and otherwise, row by row, whether the left value is less than the
/// right one (integers by value, `false < true`, strings and bytes
/// lexicographically, which for strings is the order of their UTF-8 bytes),
/// null where either side is null.
#[verifier::external_body]
fn arrow_lt(left: &ArrowArray, right: &ArrowArray) -> (res: Result<Vec<Option<bool>>, ArrowError>)
    ensures
        res is Ok <==> (arrow_type(*left) == arrow_type(*right) && arrow_rows(*left).len() == arrow_rows(*right).len()),
        res matches Ok(v) ==> v@ == compare_rows(Operator::Lt, arrow_rows(*left), arrow_rows(*right)),
{
    lt(&left.array, &right.array).map(|m| m.iter().collect())
}

/// Calls arrow's `cmp::lt_eq` kernel on two arrays. The contract states what
/// arrow's source shows for two non-scalar arrays of the types that the
/// library builds: an error exactly when their data types or their lengths
/// differ, and otherwise, row by row, whether the left value is less than or equal to the
/// right one (integers by value, `false < true`, strings and bytes
/// lexicographically, which for strings is the order of their UTF-8 bytes),
/// null where either side is null.
#[verifier::external_body]
fn arrow_lt_eq(left: &ArrowArray, right: &ArrowArray) -> (res: Result<Vec<Option<bool>>, ArrowError>)
    ensures
        res is Ok <==> (arrow_type(*left) == arrow_type(*right) && arrow_rows(*left).len() == arrow_rows(*right).len()),
        res matches Ok(v) ==> v@ == compare_rows(Operator::LtEq, arrow_rows(*left), arrow_rows(*right)),
{
    lt_eq(&left.array, &right.array).map(|m| m.iter().collect())
}

/// Calls arrow's `cmp::gt` kernel on two arrays. The contract states what
/// arrow's source shows for two non-scalar arrays of the types that the
/// library builds: an error exactly when their data types or their lengths
/// differ, and otherwise, row by row, whether the left value is greater than the
/// right one (integers by value, `false < true`, strings and bytes
/// lexicographically, which for strings is the order of their UTF-8 bytes),
/// null where either side is null.
#[verifier::external_body]
fn arrow_gt(left: &ArrowArray, right: &ArrowArray) -> (res: Result<Vec<Option<bool>>, ArrowError>)
    ensures
        res is Ok <==> (arrow_type(*left) == arrow_type(*right) && arrow_rows(*left).len() == arrow_rows(*right).len()),
        res matches Ok(v) ==> v@ == compare_rows(Operator::Gt, arrow_rows(*left), arrow_rows(*right)),
{
    gt(&left.array, &right.array).map(|m| m.iter().collect())
}

/// Calls arrow's `cmp::gt_eq` kernel on two arrays. The contract states what
/// arrow's source shows for two non-scalar arrays of the types that the
/// library builds: an error exactly when their data types or their lengths
/// differ, and otherwise, row by row, whether the left value is greater than or equal to the
/// right one (integers by value, `false < true`, strings and bytes
/// lexicographically, which for strings is the order of their UTF-8 bytes),
/// null where either side is null.
#[verifier::external_body]
fn arrow_gt_eq(left: &ArrowArray, right: &ArrowArray) -> (res: Result<Vec<Option<bool>>, ArrowError>)
    ensures
        res is Ok <==> (arrow_type(*left) == arrow_type(*right) && arrow_rows(*left).len() == arrow_rows(*right).len()),
        res matches Ok(v) ==> v@ == compare_rows(Operator::GtEq, arrow_rows(*left), arrow_rows(*right)),
{
    gt_eq(&left.array, &right.array).map(|m| m.iter().collect())
}

/// The type of the arrow array that the library builds for values of type
/// `t`: dates are built as the integers they are stored as, and strings and
/// byte strings with 64-bit offsets. Comparisons are the same either way.
pub open spec fn storage_type(t: DataType) -> DataType {
    match t {
        DataType::Date32 => DataType::Int32,
        DataType::Date64 => DataType::Int64,
        DataType::Utf8 | DataType::LargeUtf8 | DataType::Utf8View => DataType::LargeUtf8,
        DataType::Binary | DataType::LargeBinary | DataType::BinaryView => DataType::LargeBinary,
        _ => t,
    }
}

/// The arrow array of held values.
pub fn to_arrow(values: &ArrayValues) -> (res: ArrowArray)
    ensures
        arrow_type(res) == storage_type(values@.data_type()),
        arrow_rows(res) == values@.rows(),
{
    match values {
        ArrayValues::Boolean(v) => boolean_array(copy_vec(v)),
        ArrayValues::Int8(v) => int8_array(copy_vec(v)),
        ArrayValues::Int16(v) => int16_array(copy_vec(v)),
        ArrayValues::Int32(v) => int32_array(copy_vec(v)),
        ArrayValues::Date32(v) => int32_array(copy_vec(v)),
        ArrayValues::Int64(v) => int64_array(copy_vec(v)),
        ArrayValues::Date64(v) => int64_array(copy_vec(v)),
        ArrayValues::UInt8(v) => uint8_array(copy_vec(v)),
        ArrayValues::UInt16(v) => uint16_array(copy_vec(v)),
        ArrayValues::UInt32(v) => uint32_array(copy_vec(v)),
        ArrayValues::UInt64(v) => uint64_array(copy_vec(v)),
        ArrayValues::Utf8(v) => text_array(copy_texts(v)),
        ArrayValues::LargeUtf8(v) => text_array(copy_texts(v)),
        ArrayValues::Utf8View(v) => text_array(copy_texts(v)),
        ArrayValues::Binary(v) => bytes_array(copy_bytes_vec(v)),
        ArrayValues::LargeBinary(v) => bytes_array(copy_bytes_vec(v)),
        ArrayValues::BinaryView(v) => bytes_array(copy_bytes_vec(v)),
    }
}

/// The converse of an ordering operator: `a op b` exactly when `b converse(op) a`.
pub open spec fn converse(op: Operator) -> Operator {
    match op {
        Operator::Lt => Operator::Gt,
        Operator::LtEq => Operator::GtEq,
        Operator::Gt => Operator::Lt,
        _ => Operator::LtEq,
    }
}

proof fn lemma_lex_chars_antisymmetric(a: Seq<char>, b: Seq<char>)
    ensures
        lex_order_chars(a, b) == -lex_order_chars(b, a),
    decreases a.len(),
{
    if a.len() > 0 && b.len() > 0 && a[0] == b[0] {
        lemma_lex_chars_antisymmetric(a.drop_first(), b.drop_first());
    }
}

proof fn lemma_lex_bytes_antisymmetric(a: Seq<u8>, b: Seq<u8>)
    ensures
        lex_order_bytes(a, b) == -lex_order_bytes(b, a),
    decreases a.len(),
{
    if a.len() > 0 && b.len() > 0 && a[0] == b[0] {
        lemma_lex_bytes_antisymmetric(a.drop_first(), b.drop_first());
    }
}

/// Comparing two values in the other order gives the opposite answer.
pub proof fn law_datum_order_antisymmetric(a: Datum, b: Datum)
    ensures
        datum_order(a, b) == -datum_order(b, a),
{
    match (a, b) {
        (Datum::Text(x), Datum::Text(y)) => lemma_lex_chars_antisymmetric(x, y),
        (Datum::Bytes(x), Datum::Bytes(y)) => lemma_lex_bytes_antisymmetric(x, y),
        _ => {},
    }
}

/// Swapping the operands of a comparison and taking the converse operator
/// gives the same result, row by row.
pub proof fn law_compare_arrays_converse(op: Operator, l: ColumnData, r: ColumnData)
    requires
        op.is_ordering(),
        comparable(l, r),
        l is Held,
        r is Held,
    ensures
        compare_arrays(op, l, r) == compare_arrays(converse(op), r, l),
{
    assert forall|i: int| 0 <= i < l.rows().len() implies #[trigger] compare_arrays(op, l, r)[i]
        == compare_arrays(converse(op), r, l)[i] by {
        if let (Some(x), Some(y)) = (l.rows()[i], r.rows()[i]) {
            law_datum_order_antisymmetric(x, y);
        }
    }
    assert(compare_arrays(op, l, r) =~= compare_arrays(converse(op), r, l));
}

/// A row of a comparison is null exactly when either operand is null there;
/// otherwise `<=` is the negation of `>`, and `>=` that of `<`.
pub proof fn law_compare_arrays_nulls_and_negation(l: ColumnData, r: ColumnData, i: int)
    requires
        comparable(l, r),
        !(l is Opaque),
        0 <= i < l.len(),
    ensures
        compare_arrays(Operator::Lt, l, r)[i] is None <==> (l.rows()[i] is None || r.rows()[i] is None),
        compare_arrays(Operator::LtEq, l, r)[i] is None <==> (l.rows()[i] is None || r.rows()[i] is None),
        l.rows()[i] is Some && r.rows()[i] is Some ==> {
            &&& compare_arrays(Operator::LtEq, l, r)[i] == Some(!compare_arrays(Operator::Gt, l, r)[i].unwrap())
            &&& compare_arrays(Operator::GtEq, l, r)[i] == Some(!compare_arrays(Operator::Lt, l, r)[i].unwrap())
        },
{
}

/// Applies an ordering comparison to two arrays of one type and length with
/// arrow's kernels.
pub fn compare_values(op: Operator, left: &ArrayValues, right: &ArrayValues) -> (res: Vec<Option<bool>>)
    requires
        op.is_ordering(),
        comparable(left@, right@),
    ensures
        res@ == compare_arrays(op, left@, right@),
{
    let l = to_arrow(left);
    let r = to_arrow(right);
    let res = match op {
        Operator::Lt => arrow_lt(&l, &r),
        Operator::LtEq => arrow_lt_eq(&l, &r),
        Operator::Gt => arrow_gt(&l, &r),
        _ => arrow_gt_eq(&l, &r),
    };
    match res {
        Ok(v) => v,
        Err(_) => {
            assert(false);
            Vec::new()
        },
    }
}

} // verus!
