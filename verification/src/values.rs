//! Scalars, arrays, columns and record batches, held as plain values.

use vstd::prelude::*;

use crate::schema::DataType;

verus! {

/// A non-null value, as the library reasons about it: integers of every width
/// are mathematical integers, strings are their characters, binary values
/// their bytes.
pub enum Datum {
    Boolean(bool),
    Int(int),
    Text(Seq<char>),
    Bytes(Seq<u8>),
}

/// A single value, or its null, of a type whose values the library holds; a
/// value of any other type is known by its type only.
#[derive(Debug, PartialEq)]
pub enum ScalarValue {
    Boolean(Option<bool>),
    Int8(Option<i8>),
    Int16(Option<i16>),
    Int32(Option<i32>),
    Date32(Option<i32>),
    Int64(Option<i64>),
    Date64(Option<i64>),
    UInt8(Option<u8>),
    UInt16(Option<u16>),
    UInt32(Option<u32>),
    UInt64(Option<u64>),
    Utf8(Option<String>),
    LargeUtf8(Option<String>),
    Utf8View(Option<String>),
    Binary(Option<Vec<u8>>),
    LargeBinary(Option<Vec<u8>>),
    BinaryView(Option<Vec<u8>>),
    /// A value of a type whose values the library does not hold.
    Other(DataType),
}

/// The values of an array of a type whose values the library holds.
#[derive(Debug)]
pub enum ArrayValues {
    Boolean(Vec<Option<bool>>),
    Int8(Vec<Option<i8>>),
    Int16(Vec<Option<i16>>),
    Int32(Vec<Option<i32>>),
    Date32(Vec<Option<i32>>),
    Int64(Vec<Option<i64>>),
    Date64(Vec<Option<i64>>),
    UInt8(Vec<Option<u8>>),
    UInt16(Vec<Option<u16>>),
    UInt32(Vec<Option<u32>>),
    UInt64(Vec<Option<u64>>),
    Utf8(Vec<Option<String>>),
    LargeUtf8(Vec<Option<String>>),
    Utf8View(Vec<Option<String>>),
    Binary(Vec<Option<Vec<u8>>>),
    LargeBinary(Vec<Option<Vec<u8>>>),
    BinaryView(Vec<Option<Vec<u8>>>),
}

/// An array as the library sees it: its values, or, for a type whose values
/// the library does not hold, its type and its length.
#[derive(Debug)]
pub enum Column {
    Values(ArrayValues),
    Opaque { data_type: DataType, len: usize },
}

/// What a column holds: its type and its rows, or the type and row count of
/// a column whose values are not held.
pub enum ColumnData {
    Held(DataType, Seq<Option<Datum>>),
    Opaque(DataType, nat),
}

/// What a scalar holds: its type and its value, or only the type of a value
/// that is not held.
pub enum ScalarData {
    Held(DataType, Option<Datum>),
    Opaque(DataType),
}

impl ScalarData {
    pub open spec fn data_type(self) -> DataType {
        match self {
            ScalarData::Held(t, _) => t,
            ScalarData::Opaque(t) => t,
        }
    }
}

/// The elements of `v` at the positions `rows`, in the order of `rows`.
pub open spec fn values_at<T>(v: Seq<T>, rows: Seq<usize>) -> Seq<T> {
    rows.map_values(|i: usize| v[i as int])
}

impl ColumnData {
    pub open spec fn len(self) -> nat {
        match self {
            ColumnData::Held(_, v) => v.len(),
            ColumnData::Opaque(_, n) => n,
        }
    }

    pub open spec fn data_type(self) -> DataType {
        match self {
            ColumnData::Held(t, _) => t,
            ColumnData::Opaque(t, _) => t,
        }
    }

    /// The rows of a held column; none for a column whose values are not held.
    pub open spec fn rows(self) -> Seq<Option<Datum>> {
        match self {
            ColumnData::Held(_, v) => v,
            ColumnData::Opaque(_, _) => Seq::empty(),
        }
    }

    /// Some row of the column is null, as far as the library knows: the rows
    /// of a column whose values are not held are not known.
    pub open spec fn has_null(self) -> bool {
        match self {
            ColumnData::Held(_, v) => exists|k: int| 0 <= k < v.len() && (#[trigger] v[k]) is None,
            ColumnData::Opaque(_, _) => false,
        }
    }

    /// The column made of the rows at `rows`, in that order.
    pub open spec fn take(self, rows: Seq<usize>) -> ColumnData {
        match self {
            ColumnData::Held(t, v) => ColumnData::Held(t, values_at(v, rows)),
            ColumnData::Opaque(t, _) => ColumnData::Opaque(t, rows.len()),
        }
    }

    /// `len` copies of a scalar.
    pub open spec fn repeat(value: ScalarData, len: nat) -> ColumnData {
        match value {
            ScalarData::Held(t, d) => ColumnData::Held(t, Seq::new(len, |i: int| d)),
            ScalarData::Opaque(t) => ColumnData::Opaque(t, len),
        }
    }
}

/// The rows of a `Boolean` array.
pub open spec fn boolean_rows(v: Seq<Option<bool>>) -> Seq<Option<Datum>> {
    v.map_values(|x: Option<bool>| match x {
        Some(y) => Some(Datum::Boolean(y)),
        None => None,
    })
}

/// The rows of a `Int8` array.
pub open spec fn int8_rows(v: Seq<Option<i8>>) -> Seq<Option<Datum>> {
    v.map_values(|x: Option<i8>| match x {
        Some(y) => Some(Datum::Int(y as int)),
        None => None,
    })
}

/// The rows of a `Int16` array.
pub open spec fn int16_rows(v: Seq<Option<i16>>) -> Seq<Option<Datum>> {
    v.map_values(|x: Option<i16>| match x {
        Some(y) => Some(Datum::Int(y as int)),
        None => None,
    })
}

/// The rows of a `Int32` array.
pub open spec fn int32_rows(v: Seq<Option<i32>>) -> Seq<Option<Datum>> {
    v.map_values(|x: Option<i32>| match x {
        Some(y) => Some(Datum::Int(y as int)),
        None => None,
    })
}

/// The rows of a `Int64` array.
pub open spec fn int64_rows(v: Seq<Option<i64>>) -> Seq<Option<Datum>> {
    v.map_values(|x: Option<i64>| match x {
        Some(y) => Some(Datum::Int(y as int)),
        None => None,
    })
}

/// The rows of a `UInt8` array.
pub open spec fn uint8_rows(v: Seq<Option<u8>>) -> Seq<Option<Datum>> {
    v.map_values(|x: Option<u8>| match x {
        Some(y) => Some(Datum::Int(y as int)),
        None => None,
    })
}

/// The rows of a `UInt16` array.
pub open spec fn uint16_rows(v: Seq<Option<u16>>) -> Seq<Option<Datum>> {
    v.map_values(|x: Option<u16>| match x {
        Some(y) => Some(Datum::Int(y as int)),
        None => None,
    })
}

/// The rows of a `UInt32` array.
pub open spec fn uint32_rows(v: Seq<Option<u32>>) -> Seq<Option<Datum>> {
    v.map_values(|x: Option<u32>| match x {
        Some(y) => Some(Datum::Int(y as int)),
        None => None,
    })
}

/// The rows of a `UInt64` array.
pub open spec fn uint64_rows(v: Seq<Option<u64>>) -> Seq<Option<Datum>> {
    v.map_values(|x: Option<u64>| match x {
        Some(y) => Some(Datum::Int(y as int)),
        None => None,
    })
}

/// The rows of a `Utf8` array.
pub open spec fn utf8_rows(v: Seq<Option<String>>) -> Seq<Option<Datum>> {
    v.map_values(|x: Option<String>| match x {
        Some(y) => Some(Datum::Text(y@)),
        None => None,
    })
}

/// A binary value as a row.
pub open spec fn binary_datum(x: Option<Vec<u8>>) -> Option<Datum> {
    match x {
        Some(y) => Some(Datum::Bytes(y@)),
        None => None,
    }
}

/// The rows of a `Binary` array.
pub open spec fn binary_rows(v: Seq<Option<Vec<u8>>>) -> Seq<Option<Datum>> {
    v.map_values(|x: Option<Vec<u8>>| binary_datum(x))
}

impl View for ScalarValue {
    type V = ScalarData;

    open spec fn view(&self) -> ScalarData {
        match self {
            ScalarValue::Boolean(x) => ScalarData::Held(DataType::Boolean, match x {
                Some(y) => Some(Datum::Boolean(*y)),
                None => None,
            }),
            ScalarValue::Int8(x) => ScalarData::Held(DataType::Int8, match x {
                Some(y) => Some(Datum::Int(*y as int)),
                None => None,
            }),
            ScalarValue::Int16(x) => ScalarData::Held(DataType::Int16, match x {
                Some(y) => Some(Datum::Int(*y as int)),
                None => None,
            }),
            ScalarValue::Int32(x) => ScalarData::Held(DataType::Int32, match x {
                Some(y) => Some(Datum::Int(*y as int)),
                None => None,
            }),
            ScalarValue::Date32(x) => ScalarData::Held(DataType::Date32, match x {
                Some(y) => Some(Datum::Int(*y as int)),
                None => None,
            }),
            ScalarValue::Int64(x) => ScalarData::Held(DataType::Int64, match x {
                Some(y) => Some(Datum::Int(*y as int)),
                None => None,
            }),
            ScalarValue::Date64(x) => ScalarData::Held(DataType::Date64, match x {
                Some(y) => Some(Datum::Int(*y as int)),
                None => None,
            }),
            ScalarValue::UInt8(x) => ScalarData::Held(DataType::UInt8, match x {
                Some(y) => Some(Datum::Int(*y as int)),
                None => None,
            }),
            ScalarValue::UInt16(x) => ScalarData::Held(DataType::UInt16, match x {
                Some(y) => Some(Datum::Int(*y as int)),
                None => None,
            }),
            ScalarValue::UInt32(x) => ScalarData::Held(DataType::UInt32, match x {
                Some(y) => Some(Datum::Int(*y as int)),
                None => None,
            }),
            ScalarValue::UInt64(x) => ScalarData::Held(DataType::UInt64, match x {
                Some(y) => Some(Datum::Int(*y as int)),
                None => None,
            }),
            ScalarValue::Utf8(x) => ScalarData::Held(DataType::Utf8, match x {
                Some(y) => Some(Datum::Text(y@)),
                None => None,
            }),
            ScalarValue::LargeUtf8(x) => ScalarData::Held(DataType::LargeUtf8, match x {
                Some(y) => Some(Datum::Text(y@)),
                None => None,
            }),
            ScalarValue::Utf8View(x) => ScalarData::Held(DataType::Utf8View, match x {
                Some(y) => Some(Datum::Text(y@)),
                None => None,
            }),
            ScalarValue::Binary(x) => ScalarData::Held(DataType::Binary, binary_datum(*x)),
            ScalarValue::LargeBinary(x) => ScalarData::Held(DataType::LargeBinary, binary_datum(*x)),
            ScalarValue::BinaryView(x) => ScalarData::Held(DataType::BinaryView, binary_datum(*x)),
            ScalarValue::Other(t) => ScalarData::Opaque(*t),
        }
    }
}

impl View for ArrayValues {
    type V = ColumnData;

    open spec fn view(&self) -> ColumnData {
        match self {
            ArrayValues::Boolean(v) => ColumnData::Held(DataType::Boolean, boolean_rows(v@)),
            ArrayValues::Int8(v) => ColumnData::Held(DataType::Int8, int8_rows(v@)),
            ArrayValues::Int16(v) => ColumnData::Held(DataType::Int16, int16_rows(v@)),
            ArrayValues::Int32(v) => ColumnData::Held(DataType::Int32, int32_rows(v@)),
            ArrayValues::Date32(v) => ColumnData::Held(DataType::Date32, int32_rows(v@)),
            ArrayValues::Int64(v) => ColumnData::Held(DataType::Int64, int64_rows(v@)),
            ArrayValues::Date64(v) => ColumnData::Held(DataType::Date64, int64_rows(v@)),
            ArrayValues::UInt8(v) => ColumnData::Held(DataType::UInt8, uint8_rows(v@)),
            ArrayValues::UInt16(v) => ColumnData::Held(DataType::UInt16, uint16_rows(v@)),
            ArrayValues::UInt32(v) => ColumnData::Held(DataType::UInt32, uint32_rows(v@)),
            ArrayValues::UInt64(v) => ColumnData::Held(DataType::UInt64, uint64_rows(v@)),
            ArrayValues::Utf8(v) => ColumnData::Held(DataType::Utf8, utf8_rows(v@)),
            ArrayValues::LargeUtf8(v) => ColumnData::Held(DataType::LargeUtf8, utf8_rows(v@)),
            ArrayValues::Utf8View(v) => ColumnData::Held(DataType::Utf8View, utf8_rows(v@)),
            ArrayValues::Binary(v) => ColumnData::Held(DataType::Binary, binary_rows(v@)),
            ArrayValues::LargeBinary(v) => ColumnData::Held(DataType::LargeBinary, binary_rows(v@)),
            ArrayValues::BinaryView(v) => ColumnData::Held(DataType::BinaryView, binary_rows(v@)),
        }
    }
}

impl View for Column {
    type V = ColumnData;

    open spec fn view(&self) -> ColumnData {
        match self {
            Column::Values(a) => a@,
            Column::Opaque { data_type, len } => ColumnData::Opaque(*data_type, *len as nat),
        }
    }
}

/// A copy of a vector of plain values.
pub fn copy_vec<T: Copy>(v: &Vec<T>) -> (res: Vec<T>)
    ensures
        res@ == v@,
{
    let mut res: Vec<T> = Vec::new();
    for i in 0..v.len()
        invariant
            res@ == v@.subrange(0, i as int),
    {
        res.push(v[i]);
    }
    assert(res@ =~= v@);
    res
}

/// The elements of `v` at the positions `rows`, in the order of `rows`.
pub fn take_values<T: Copy>(v: &Vec<T>, rows: &Vec<usize>) -> (res: Vec<T>)
    requires
        forall|k: int| 0 <= k < rows@.len() ==> rows@[k] < v@.len(),
    ensures
        res@ == values_at(v@, rows@),
{
    let mut res: Vec<T> = Vec::new();
    for k in 0..rows.len()
        invariant
            forall|j: int| 0 <= j < rows@.len() ==> rows@[j] < v@.len(),
            res@ == values_at(v@, rows@.subrange(0, k as int)),
    {
        let ghost before = res@;
        res.push(v[rows[k]]);
        assert(values_at(v@, rows@.subrange(0, k + 1)) =~= before.push(v@[rows@[k as int] as int]));
    }
    assert(rows@.subrange(0, rows@.len() as int) =~= rows@);
    res
}

/// `len` copies of `x`.
pub fn repeat_value<T: Copy>(x: T, len: usize) -> (res: Vec<T>)
    ensures
        res@ == Seq::new(len as nat, |i: int| x),
{
    let mut res: Vec<T> = Vec::new();
    for i in 0..len
        invariant
            res@ == Seq::new(i as nat, |j: int| x),
    {
        res.push(x);
        assert(res@ =~= Seq::new((i + 1) as nat, |j: int| x));
    }
    res
}

/// A copy of an optional string.
pub fn copy_text(x: &Option<String>) -> (res: Option<String>)
    ensures
        res == *x,
{
    match x {
        Some(s) => Some(s.clone()),
        None => None,
    }
}

/// A copy of optional bytes.
pub fn copy_bytes(x: &Option<Vec<u8>>) -> (res: Option<Vec<u8>>)
    ensures
        binary_datum(res) == binary_datum(*x),
{
    match x {
        Some(b) => Some(copy_vec(b)),
        None => None,
    }
}

/// A copy of a vector of optional strings.
pub fn copy_texts(v: &Vec<Option<String>>) -> (res: Vec<Option<String>>)
    ensures
        res@ == v@,
{
    let mut res: Vec<Option<String>> = Vec::new();
    for i in 0..v.len()
        invariant
            res@ == v@.subrange(0, i as int),
    {
        res.push(copy_text(&v[i]));
    }
    assert(res@ =~= v@);
    res
}

/// The strings of `v` at the positions `rows`, in the order of `rows`.
pub fn take_texts(v: &Vec<Option<String>>, rows: &Vec<usize>) -> (res: Vec<Option<String>>)
    requires
        forall|k: int| 0 <= k < rows@.len() ==> rows@[k] < v@.len(),
    ensures
        res@ == values_at(v@, rows@),
{
    let mut res: Vec<Option<String>> = Vec::new();
    for k in 0..rows.len()
        invariant
            forall|j: int| 0 <= j < rows@.len() ==> rows@[j] < v@.len(),
            res@ == values_at(v@, rows@.subrange(0, k as int)),
    {
        let ghost before = res@;
        res.push(copy_text(&v[rows[k]]));
        assert(values_at(v@, rows@.subrange(0, k + 1)) =~= before.push(v@[rows@[k as int] as int]));
    }
    assert(rows@.subrange(0, rows@.len() as int) =~= rows@);
    res
}

/// `len` copies of an optional string.
pub fn repeat_text(x: &Option<String>, len: usize) -> (res: Vec<Option<String>>)
    ensures
        res@ == Seq::new(len as nat, |i: int| *x),
{
    let mut res: Vec<Option<String>> = Vec::new();
    for i in 0..len
        invariant
            res@ == Seq::new(i as nat, |j: int| *x),
    {
        res.push(copy_text(x));
        assert(res@ =~= Seq::new((i + 1) as nat, |j: int| *x));
    }
    res
}

/// The rows of binary values at the positions `rows`, in the order of `rows`.
pub fn take_bytes(v: &Vec<Option<Vec<u8>>>, rows: &Vec<usize>) -> (res: Vec<Option<Vec<u8>>>)
    requires
        forall|k: int| 0 <= k < rows@.len() ==> rows@[k] < v@.len(),
    ensures
        binary_rows(res@) == values_at(binary_rows(v@), rows@),
{
    let mut res: Vec<Option<Vec<u8>>> = Vec::new();
    for k in 0..rows.len()
        invariant
            forall|j: int| 0 <= j < rows@.len() ==> rows@[j] < v@.len(),
            res@.len() == k,
            forall|j: int| 0 <= j < k ==> binary_datum(#[trigger] res@[j]) == binary_datum(v@[rows@[j] as int]),
    {
        res.push(copy_bytes(&v[rows[k]]));
    }
    assert(binary_rows(res@) =~= values_at(binary_rows(v@), rows@));
    res
}

/// A copy of a vector of optional binary values.
pub fn copy_bytes_vec(v: &Vec<Option<Vec<u8>>>) -> (res: Vec<Option<Vec<u8>>>)
    ensures
        binary_rows(res@) == binary_rows(v@),
{
    let mut res: Vec<Option<Vec<u8>>> = Vec::new();
    for i in 0..v.len()
        invariant
            res@.len() == i,
            forall|j: int| 0 <= j < i ==> binary_datum(#[trigger] res@[j]) == binary_datum(v@[j]),
    {
        res.push(copy_bytes(&v[i]));
    }
    assert(binary_rows(res@) =~= binary_rows(v@));
    res
}

/// `len` copies of an optional binary value.
pub fn repeat_bytes(x: &Option<Vec<u8>>, len: usize) -> (res: Vec<Option<Vec<u8>>>)
    ensures
        binary_rows(res@) == Seq::new(len as nat, |i: int| binary_datum(*x)),
{
    let mut res: Vec<Option<Vec<u8>>> = Vec::new();
    for i in 0..len
        invariant
            res@.len() == i,
            forall|j: int| 0 <= j < i ==> binary_datum(#[trigger] res@[j]) == binary_datum(*x),
    {
        res.push(copy_bytes(x));
    }
    assert(binary_rows(res@) =~= Seq::new(len as nat, |i: int| binary_datum(*x)));
    res
}

/// Broadcasting a scalar to `n` rows keeps its data type and gives `n` rows,
/// each holding the scalar's value; a scalar whose value is not held gives a
/// column of `n` rows whose values are not held either.
pub proof fn law_repeat_keeps_scalar(s: ScalarData, n: nat)
    ensures
        ColumnData::repeat(s, n).data_type() == s.data_type(),
        ColumnData::repeat(s, n).len() == n,
        ColumnarData::Scalar(s).into_array(n) == ColumnData::repeat(s, n),
        match s {
            ScalarData::Held(t, d) => ColumnData::repeat(s, n) is Held && forall|i: int|
                0 <= i < n ==> #[trigger] ColumnData::repeat(s, n).rows()[i] == d,
            ScalarData::Opaque(t) => ColumnData::repeat(s, n) is Opaque,
        },
{
}

/// A column has a null where one of its rows is null, whatever its type; and
/// a column that has a null holds its values and has a null row.
pub proof fn law_has_null_rows(c: ColumnData)
    ensures
        forall|k: int| 0 <= k < c.rows().len() && (#[trigger] c.rows()[k]) is None ==> c.has_null(),
        c.has_null() ==> c is Held && exists|k: int| 0 <= k < c.rows().len() && (#[trigger] c.rows()[k]) is None,
{
}

/// Whether some element of the vector is `None`.
pub fn any_none<T>(v: &Vec<Option<T>>) -> (res: bool)
    ensures
        res == exists|k: int| 0 <= k < v@.len() && (#[trigger] v@[k]) is None,
{
    for i in 0..v.len()
        invariant
            forall|k: int| 0 <= k < i ==> !((#[trigger] v@[k]) is None),
    {
        if v[i].is_none() {
            return true;
        }
    }
    false
}

/// Rows that are null exactly where the values are `None`.
proof fn lemma_nulls_match<T>(rows: Seq<Option<Datum>>, v: Seq<Option<T>>)
    requires
        rows.len() == v.len(),
        forall|k: int| 0 <= k < v.len() ==> ((#[trigger] rows[k]) is None <==> v[k] is None),
    ensures
        (exists|k: int| 0 <= k < rows.len() && (#[trigger] rows[k]) is None) == (exists|k: int|
            0 <= k < v.len() && (#[trigger] v[k]) is None),
{
    if exists|k: int| 0 <= k < v.len() && (#[trigger] v[k]) is None {
        let k = choose|k: int| 0 <= k < v.len() && (#[trigger] v[k]) is None;
        assert(rows[k] is None);
    }
    if exists|k: int| 0 <= k < rows.len() && (#[trigger] rows[k]) is None {
        let k = choose|k: int| 0 <= k < rows.len() && (#[trigger] rows[k]) is None;
        assert(v[k] is None);
    }
}

impl ScalarValue {
    pub fn data_type(&self) -> (res: DataType)
        ensures
            res == self@.data_type(),
    {
        match self {
            ScalarValue::Boolean(_) => DataType::Boolean,
            ScalarValue::Int8(_) => DataType::Int8,
            ScalarValue::Int16(_) => DataType::Int16,
            ScalarValue::Int32(_) => DataType::Int32,
            ScalarValue::Date32(_) => DataType::Date32,
            ScalarValue::Int64(_) => DataType::Int64,
            ScalarValue::Date64(_) => DataType::Date64,
            ScalarValue::UInt8(_) => DataType::UInt8,
            ScalarValue::UInt16(_) => DataType::UInt16,
            ScalarValue::UInt32(_) => DataType::UInt32,
            ScalarValue::UInt64(_) => DataType::UInt64,
            ScalarValue::Utf8(_) => DataType::Utf8,
            ScalarValue::LargeUtf8(_) => DataType::LargeUtf8,
            ScalarValue::Utf8View(_) => DataType::Utf8View,
            ScalarValue::Binary(_) => DataType::Binary,
            ScalarValue::LargeBinary(_) => DataType::LargeBinary,
            ScalarValue::BinaryView(_) => DataType::BinaryView,
            ScalarValue::Other(t) => *t,
        }
    }

    pub fn duplicate(&self) -> (res: ScalarValue)
        ensures
            res@ == self@,
    {
        match self {
            ScalarValue::Boolean(x) => ScalarValue::Boolean(*x),
            ScalarValue::Int8(x) => ScalarValue::Int8(*x),
            ScalarValue::Int16(x) => ScalarValue::Int16(*x),
            ScalarValue::Int32(x) => ScalarValue::Int32(*x),
            ScalarValue::Date32(x) => ScalarValue::Date32(*x),
            ScalarValue::Int64(x) => ScalarValue::Int64(*x),
            ScalarValue::Date64(x) => ScalarValue::Date64(*x),
            ScalarValue::UInt8(x) => ScalarValue::UInt8(*x),
            ScalarValue::UInt16(x) => ScalarValue::UInt16(*x),
            ScalarValue::UInt32(x) => ScalarValue::UInt32(*x),
            ScalarValue::UInt64(x) => ScalarValue::UInt64(*x),
            ScalarValue::Utf8(x) => ScalarValue::Utf8(copy_text(x)),
            ScalarValue::LargeUtf8(x) => ScalarValue::LargeUtf8(copy_text(x)),
            ScalarValue::Utf8View(x) => ScalarValue::Utf8View(copy_text(x)),
            ScalarValue::Binary(x) => ScalarValue::Binary(copy_bytes(x)),
            ScalarValue::LargeBinary(x) => ScalarValue::LargeBinary(copy_bytes(x)),
            ScalarValue::BinaryView(x) => ScalarValue::BinaryView(copy_bytes(x)),
            ScalarValue::Other(t) => ScalarValue::Other(*t),
        }
    }

    /// `len` copies of the scalar as an array.
    pub fn to_array(&self, len: usize) -> (res: Column)
        ensures
            res@ == ColumnData::repeat(self@, len as nat),
            res@.data_type() == self@.data_type(),
            res@.len() == len,
            self@ matches ScalarData::Held(_, d) ==> res@ is Held && forall|i: int| 0 <= i < len ==> #[trigger] res@.rows()[i] == d,
    {
        match self {
            ScalarValue::Boolean(x) => {
                let r = repeat_value(*x, len);
                assert(boolean_rows(r@) =~= ColumnData::repeat(self@, len as nat).rows());
                Column::Values(ArrayValues::Boolean(r))
            },
            ScalarValue::Int8(x) => {
                let r = repeat_value(*x, len);
                assert(int8_rows(r@) =~= ColumnData::repeat(self@, len as nat).rows());
                Column::Values(ArrayValues::Int8(r))
            },
            ScalarValue::Int16(x) => {
                let r = repeat_value(*x, len);
                assert(int16_rows(r@) =~= ColumnData::repeat(self@, len as nat).rows());
                Column::Values(ArrayValues::Int16(r))
            },
            ScalarValue::Int32(x) => {
                let r = repeat_value(*x, len);
                assert(int32_rows(r@) =~= ColumnData::repeat(self@, len as nat).rows());
                Column::Values(ArrayValues::Int32(r))
            },
            ScalarValue::Date32(x) => {
                let r = repeat_value(*x, len);
                assert(int32_rows(r@) =~= ColumnData::repeat(self@, len as nat).rows());
                Column::Values(ArrayValues::Date32(r))
            },
            ScalarValue::Int64(x) => {
                let r = repeat_value(*x, len);
                assert(int64_rows(r@) =~= ColumnData::repeat(self@, len as nat).rows());
                Column::Values(ArrayValues::Int64(r))
            },
            ScalarValue::Date64(x) => {
                let r = repeat_value(*x, len);
                assert(int64_rows(r@) =~= ColumnData::repeat(self@, len as nat).rows());
                Column::Values(ArrayValues::Date64(r))
            },
            ScalarValue::UInt8(x) => {
                let r = repeat_value(*x, len);
                assert(uint8_rows(r@) =~= ColumnData::repeat(self@, len as nat).rows());
                Column::Values(ArrayValues::UInt8(r))
            },
            ScalarValue::UInt16(x) => {
                let r = repeat_value(*x, len);
                assert(uint16_rows(r@) =~= ColumnData::repeat(self@, len as nat).rows());
                Column::Values(ArrayValues::UInt16(r))
            },
            ScalarValue::UInt32(x) => {
                let r = repeat_value(*x, len);
                assert(uint32_rows(r@) =~= ColumnData::repeat(self@, len as nat).rows());
                Column::Values(ArrayValues::UInt32(r))
            },
            ScalarValue::UInt64(x) => {
                let r = repeat_value(*x, len);
                assert(uint64_rows(r@) =~= ColumnData::repeat(self@, len as nat).rows());
                Column::Values(ArrayValues::UInt64(r))
            },
            ScalarValue::Utf8(x) => {
                let r = repeat_text(x, len);
                assert(utf8_rows(r@) =~= ColumnData::repeat(self@, len as nat).rows());
                Column::Values(ArrayValues::Utf8(r))
            },
            ScalarValue::LargeUtf8(x) => {
                let r = repeat_text(x, len);
                assert(utf8_rows(r@) =~= ColumnData::repeat(self@, len as nat).rows());
                Column::Values(ArrayValues::LargeUtf8(r))
            },
            ScalarValue::Utf8View(x) => {
                let r = repeat_text(x, len);
                assert(utf8_rows(r@) =~= ColumnData::repeat(self@, len as nat).rows());
                Column::Values(ArrayValues::Utf8View(r))
            },
            ScalarValue::Binary(x) => {
                let r = repeat_bytes(x, len);
                assert(binary_rows(r@) =~= ColumnData::repeat(self@, len as nat).rows());
                Column::Values(ArrayValues::Binary(r))
            },
            ScalarValue::LargeBinary(x) => {
                let r = repeat_bytes(x, len);
                assert(binary_rows(r@) =~= ColumnData::repeat(self@, len as nat).rows());
                Column::Values(ArrayValues::LargeBinary(r))
            },
            ScalarValue::BinaryView(x) => {
                let r = repeat_bytes(x, len);
                assert(binary_rows(r@) =~= ColumnData::repeat(self@, len as nat).rows());
                Column::Values(ArrayValues::BinaryView(r))
            },
            ScalarValue::Other(t) => Column::Opaque { data_type: *t, len },
        }
    }
}

impl ArrayValues {
    pub fn len(&self) -> (res: usize)
        ensures
            res == self@.len(),
    {
        match self {
            ArrayValues::Boolean(v) => v.len(),
            ArrayValues::Int8(v) => v.len(),
            ArrayValues::Int16(v) => v.len(),
            ArrayValues::Int32(v) => v.len(),
            ArrayValues::Date32(v) => v.len(),
            ArrayValues::Int64(v) => v.len(),
            ArrayValues::Date64(v) => v.len(),
            ArrayValues::UInt8(v) => v.len(),
            ArrayValues::UInt16(v) => v.len(),
            ArrayValues::UInt32(v) => v.len(),
            ArrayValues::UInt64(v) => v.len(),
            ArrayValues::Utf8(v) => v.len(),
            ArrayValues::LargeUtf8(v) => v.len(),
            ArrayValues::Utf8View(v) => v.len(),
            ArrayValues::Binary(v) => v.len(),
            ArrayValues::LargeBinary(v) => v.len(),
            ArrayValues::BinaryView(v) => v.len(),
        }
    }

    pub fn data_type(&self) -> (res: DataType)
        ensures
            res == self@.data_type(),
    {
        match self {
            ArrayValues::Boolean(_) => DataType::Boolean,
            ArrayValues::Int8(_) => DataType::Int8,
            ArrayValues::Int16(_) => DataType::Int16,
            ArrayValues::Int32(_) => DataType::Int32,
            ArrayValues::Date32(_) => DataType::Date32,
            ArrayValues::Int64(_) => DataType::Int64,
            ArrayValues::Date64(_) => DataType::Date64,
            ArrayValues::UInt8(_) => DataType::UInt8,
            ArrayValues::UInt16(_) => DataType::UInt16,
            ArrayValues::UInt32(_) => DataType::UInt32,
            ArrayValues::UInt64(_) => DataType::UInt64,
            ArrayValues::Utf8(_) => DataType::Utf8,
            ArrayValues::LargeUtf8(_) => DataType::LargeUtf8,
            ArrayValues::Utf8View(_) => DataType::Utf8View,
            ArrayValues::Binary(_) => DataType::Binary,
            ArrayValues::LargeBinary(_) => DataType::LargeBinary,
            ArrayValues::BinaryView(_) => DataType::BinaryView,
        }
    }

    pub fn duplicate(&self) -> (res: ArrayValues)
        ensures
            res@ == self@,
    {
        match self {
            ArrayValues::Boolean(v) => ArrayValues::Boolean(copy_vec(v)),
            ArrayValues::Int8(v) => ArrayValues::Int8(copy_vec(v)),
            ArrayValues::Int16(v) => ArrayValues::Int16(copy_vec(v)),
            ArrayValues::Int32(v) => ArrayValues::Int32(copy_vec(v)),
            ArrayValues::Date32(v) => ArrayValues::Date32(copy_vec(v)),
            ArrayValues::Int64(v) => ArrayValues::Int64(copy_vec(v)),
            ArrayValues::Date64(v) => ArrayValues::Date64(copy_vec(v)),
            ArrayValues::UInt8(v) => ArrayValues::UInt8(copy_vec(v)),
            ArrayValues::UInt16(v) => ArrayValues::UInt16(copy_vec(v)),
            ArrayValues::UInt32(v) => ArrayValues::UInt32(copy_vec(v)),
            ArrayValues::UInt64(v) => ArrayValues::UInt64(copy_vec(v)),
            ArrayValues::Utf8(v) => ArrayValues::Utf8(copy_texts(v)),
            ArrayValues::LargeUtf8(v) => ArrayValues::LargeUtf8(copy_texts(v)),
            ArrayValues::Utf8View(v) => ArrayValues::Utf8View(copy_texts(v)),
            ArrayValues::Binary(v) => ArrayValues::Binary(copy_bytes_vec(v)),
            ArrayValues::LargeBinary(v) => ArrayValues::LargeBinary(copy_bytes_vec(v)),
            ArrayValues::BinaryView(v) => ArrayValues::BinaryView(copy_bytes_vec(v)),
        }
    }

    /// Whether some row of the array is null.
    pub fn has_null(&self) -> (res: bool)
        ensures
            res == self@.has_null(),
    {
        match self {
            ArrayValues::Boolean(v) => {
                proof { lemma_nulls_match(boolean_rows(v@), v@); }
                any_none(v)
            },
            ArrayValues::Int8(v) => {
                proof { lemma_nulls_match(int8_rows(v@), v@); }
                any_none(v)
            },
            ArrayValues::Int16(v) => {
                proof { lemma_nulls_match(int16_rows(v@), v@); }
                any_none(v)
            },
            ArrayValues::Int32(v) => {
                proof { lemma_nulls_match(int32_rows(v@), v@); }
                any_none(v)
            },
            ArrayValues::Date32(v) => {
                proof { lemma_nulls_match(int32_rows(v@), v@); }
                any_none(v)
            },
            ArrayValues::Int64(v) => {
                proof { lemma_nulls_match(int64_rows(v@), v@); }
                any_none(v)
            },
            ArrayValues::Date64(v) => {
                proof { lemma_nulls_match(int64_rows(v@), v@); }
                any_none(v)
            },
            ArrayValues::UInt8(v) => {
                proof { lemma_nulls_match(uint8_rows(v@), v@); }
                any_none(v)
            },
            ArrayValues::UInt16(v) => {
                proof { lemma_nulls_match(uint16_rows(v@), v@); }
                any_none(v)
            },
            ArrayValues::UInt32(v) => {
                proof { lemma_nulls_match(uint32_rows(v@), v@); }
                any_none(v)
            },
            ArrayValues::UInt64(v) => {
                proof { lemma_nulls_match(uint64_rows(v@), v@); }
                any_none(v)
            },
            ArrayValues::Utf8(v) => {
                proof { lemma_nulls_match(utf8_rows(v@), v@); }
                any_none(v)
            },
            ArrayValues::LargeUtf8(v) => {
                proof { lemma_nulls_match(utf8_rows(v@), v@); }
                any_none(v)
            },
            ArrayValues::Utf8View(v) => {
                proof { lemma_nulls_match(utf8_rows(v@), v@); }
                any_none(v)
            },
            ArrayValues::Binary(v) => {
                proof { lemma_nulls_match(binary_rows(v@), v@); }
                any_none(v)
            },
            ArrayValues::LargeBinary(v) => {
                proof { lemma_nulls_match(binary_rows(v@), v@); }
                any_none(v)
            },
            ArrayValues::BinaryView(v) => {
                proof { lemma_nulls_match(binary_rows(v@), v@); }
                any_none(v)
            },
        }
    }

    /// The array made of the rows at `rows`, in that order.
    pub fn take(&self, rows: &Vec<usize>) -> (res: ArrayValues)
        requires
            forall|k: int| 0 <= k < rows@.len() ==> rows@[k] < self@.len(),
        ensures
            res@ == self@.take(rows@),
    {
        match self {
            ArrayValues::Boolean(v) => {
                let r = take_values(v, rows);
                assert(boolean_rows(r@) =~= values_at(boolean_rows(v@), rows@));
                ArrayValues::Boolean(r)
            },
            ArrayValues::Int8(v) => {
                let r = take_values(v, rows);
                assert(int8_rows(r@) =~= values_at(int8_rows(v@), rows@));
                ArrayValues::Int8(r)
            },
            ArrayValues::Int16(v) => {
                let r = take_values(v, rows);
                assert(int16_rows(r@) =~= values_at(int16_rows(v@), rows@));
                ArrayValues::Int16(r)
            },
            ArrayValues::Int32(v) => {
                let r = take_values(v, rows);
                assert(int32_rows(r@) =~= values_at(int32_rows(v@), rows@));
                ArrayValues::Int32(r)
            },
            ArrayValues::Date32(v) => {
                let r = take_values(v, rows);
                assert(int32_rows(r@) =~= values_at(int32_rows(v@), rows@));
                ArrayValues::Date32(r)
            },
            ArrayValues::Int64(v) => {
                let r = take_values(v, rows);
                assert(int64_rows(r@) =~= values_at(int64_rows(v@), rows@));
                ArrayValues::Int64(r)
            },
            ArrayValues::Date64(v) => {
                let r = take_values(v, rows);
                assert(int64_rows(r@) =~= values_at(int64_rows(v@), rows@));
                ArrayValues::Date64(r)
            },
            ArrayValues::UInt8(v) => {
                let r = take_values(v, rows);
                assert(uint8_rows(r@) =~= values_at(uint8_rows(v@), rows@));
                ArrayValues::UInt8(r)
            },
            ArrayValues::UInt16(v) => {
                let r = take_values(v, rows);
                assert(uint16_rows(r@) =~= values_at(uint16_rows(v@), rows@));
                ArrayValues::UInt16(r)
            },
            ArrayValues::UInt32(v) => {
                let r = take_values(v, rows);
                assert(uint32_rows(r@) =~= values_at(uint32_rows(v@), rows@));
                ArrayValues::UInt32(r)
            },
            ArrayValues::UInt64(v) => {
                let r = take_values(v, rows);
                assert(uint64_rows(r@) =~= values_at(uint64_rows(v@), rows@));
                ArrayValues::UInt64(r)
            },
            ArrayValues::Utf8(v) => {
                let r = take_texts(v, rows);
                assert(utf8_rows(r@) =~= values_at(utf8_rows(v@), rows@));
                ArrayValues::Utf8(r)
            },
            ArrayValues::LargeUtf8(v) => {
                let r = take_texts(v, rows);
                assert(utf8_rows(r@) =~= values_at(utf8_rows(v@), rows@));
                ArrayValues::LargeUtf8(r)
            },
            ArrayValues::Utf8View(v) => {
                let r = take_texts(v, rows);
                assert(utf8_rows(r@) =~= values_at(utf8_rows(v@), rows@));
                ArrayValues::Utf8View(r)
            },
            ArrayValues::Binary(v) => ArrayValues::Binary(take_bytes(v, rows)),
            ArrayValues::LargeBinary(v) => ArrayValues::LargeBinary(take_bytes(v, rows)),
            ArrayValues::BinaryView(v) => ArrayValues::BinaryView(take_bytes(v, rows)),
        }
    }
}

impl Column {
    pub fn len(&self) -> (res: usize)
        ensures
            res == self@.len(),
    {
        match self {
            Column::Values(a) => a.len(),
            Column::Opaque { len, .. } => *len,
        }
    }

    pub fn data_type(&self) -> (res: DataType)
        ensures
            res == self@.data_type(),
    {
        match self {
            Column::Values(a) => a.data_type(),
            Column::Opaque { data_type, .. } => *data_type,
        }
    }

    pub fn duplicate(&self) -> (res: Column)
        ensures
            res@ == self@,
    {
        match self {
            Column::Values(a) => Column::Values(a.duplicate()),
            Column::Opaque { data_type, len } => Column::Opaque { data_type: *data_type, len: *len },
        }
    }

    /// Whether some row of the column is known to be null; the rows of a
    /// column whose values are not held are not known.
    pub fn has_null(&self) -> (res: bool)
        ensures
            res == self@.has_null(),
    {
        match self {
            Column::Values(a) => a.has_null(),
            Column::Opaque { .. } => false,
        }
    }

    /// The column made of the rows at `rows`, in that order.
    pub fn take(&self, rows: &Vec<usize>) -> (res: Column)
        requires
            forall|k: int| 0 <= k < rows@.len() ==> rows@[k] < self@.len(),
        ensures
            res@ == self@.take(rows@),
    {
        match self {
            Column::Values(a) => Column::Values(a.take(rows)),
            Column::Opaque { data_type, .. } => Column::Opaque { data_type: *data_type, len: rows.len() },
        }
    }
}

/// The result of evaluating an expression: an array, or one scalar that
/// stands for every row.
#[derive(Debug)]
pub enum ColumnarValue {
    Array(Column),
    Scalar(ScalarValue),
}

/// The mathematical value of a `ColumnarValue`.
pub enum ColumnarData {
    Array(ColumnData),
    Scalar(ScalarData),
}

impl View for ColumnarValue {
    type V = ColumnarData;

    open spec fn view(&self) -> ColumnarData {
        match self {
            ColumnarValue::Array(c) => ColumnarData::Array(c@),
            ColumnarValue::Scalar(s) => ColumnarData::Scalar(s@),
        }
    }
}

impl ColumnarData {
    /// An array is kept as it is; a scalar becomes `len` copies of itself.
    pub open spec fn into_array(self, len: nat) -> ColumnData {
        match self {
            ColumnarData::Array(c) => c,
            ColumnarData::Scalar(s) => ColumnData::repeat(s, len),
        }
    }
}

impl ColumnarValue {
    /// Turns the value into an array: an array is kept as it is, a scalar
    /// becomes `len` copies of itself.
    pub fn into_array(self, len: usize) -> (res: Column)
        ensures
            res@ == self@.into_array(len as nat),
    {
        match self {
            ColumnarValue::Array(c) => c,
            ColumnarValue::Scalar(s) => s.to_array(len),
        }
    }
}

/// Equal-length columns, as the library sees a batch of rows.
#[derive(Debug)]
pub struct RecordBatch {
    columns: Vec<Column>,
    num_rows: usize,
}

/// The mathematical value of a record batch.
pub struct BatchData {
    pub columns: Seq<ColumnData>,
    pub num_rows: nat,
}

impl View for RecordBatch {
    type V = BatchData;

    closed spec fn view(&self) -> BatchData {
        BatchData { columns: self.columns@.map_values(|c: Column| c@), num_rows: self.num_rows as nat }
    }
}

impl BatchData {
    /// Every column has `num_rows` rows, a count that a `usize` holds.
    pub open spec fn wf(self) -> bool {
        &&& self.num_rows <= usize::MAX
        &&& forall|i: int| 0 <= i < self.columns.len() ==> (#[trigger] self.columns[i]).len() == self.num_rows
    }

    pub open spec fn column_types(self) -> Seq<DataType> {
        self.columns.map_values(|c: ColumnData| c.data_type())
    }

    /// The batch made of the rows at `rows`, in that order.
    pub open spec fn take(self, rows: Seq<usize>) -> BatchData {
        BatchData {
            columns: self.columns.map_values(|c: ColumnData| c.take(rows)),
            num_rows: rows.len(),
        }
    }
}

impl RecordBatch {
    #[verifier::type_invariant]
    spec fn inv(self) -> bool {
        self@.wf()
    }

    /// A batch of the given columns and row count; `None` where a column's
    /// length is not `num_rows`.
    pub fn try_new(columns: Vec<Column>, num_rows: usize) -> (res: Option<RecordBatch>)
        ensures
            res is Some <==> (forall|i: int| 0 <= i < columns@.len() ==> (#[trigger] columns@[i])@.len() == num_rows),
            res matches Some(b) ==> b@.wf() && b@.columns == columns@.map_values(|c: Column| c@) && b@.num_rows == num_rows,
    {
        let mut i: usize = 0;
        while i < columns.len()
            invariant
                i <= columns@.len(),
                forall|j: int| 0 <= j < i ==> (#[trigger] columns@[j])@.len() == num_rows,
            decreases columns@.len() - i,
        {
            if columns[i].len() != num_rows {
                return None;
            }
            i = i + 1;
        }
        Some(RecordBatch { columns, num_rows })
    }

    pub fn num_rows(&self) -> (res: usize)
        ensures
            res == self@.num_rows,
            self@.wf(),
    {
        proof { use_type_invariant(self); }
        self.num_rows
    }

    pub fn num_columns(&self) -> (res: usize)
        ensures
            res == self@.columns.len(),
            self@.wf(),
    {
        proof { use_type_invariant(self); }
        self.columns.len()
    }

    /// The column at `index`.
    pub fn column(&self, index: usize) -> (res: &Column)
        requires
            index < self@.columns.len(),
        ensures
            res@ == self@.columns[index as int],
            self@.wf(),
    {
        proof { use_type_invariant(self); }
        &self.columns[index]
    }

    /// The batch made of the rows at `rows`, in that order.
    pub fn take(&self, rows: &Vec<usize>) -> (res: RecordBatch)
        requires
            forall|k: int| 0 <= k < rows@.len() ==> rows@[k] < self@.num_rows,
        ensures
            res@ == self@.take(rows@),
            res@.wf(),
    {
        proof { use_type_invariant(self); }
        let mut columns: Vec<Column> = Vec::new();
        for i in 0..self.columns.len()
            invariant
                self@.wf(),
                forall|k: int| 0 <= k < rows@.len() ==> rows@[k] < self@.num_rows,
                columns@.len() == i,
                i <= self.columns@.len(),
                forall|j: int| 0 <= j < i ==> (#[trigger] columns@[j])@ == self.columns@[j]@.take(rows@),
        {
            assert(self@.columns[i as int] == self.columns@[i as int]@);
            columns.push(self.columns[i].take(rows));
        }
        let res = RecordBatch { columns, num_rows: rows.len() };
        assert(res@.columns =~= self@.take(rows@).columns);
        res
    }
}

} // verus!
