//! Column data types, fields and schemas.

use vstd::prelude::*;

verus! {

/// The data type of a column or of a scalar value.
#[derive(Debug, Clone, Copy, PartialEq, Eq, Structural)]
pub enum DataType {
    Boolean,
    Int8,
    Int16,
    Int32,
    Int64,
    UInt8,
    UInt16,
    UInt32,
    UInt64,
    Float32,
    Float64,
    /// Days since the epoch, as an `i32`.
    Date32,
    /// Milliseconds since the epoch, as an `i64`.
    Date64,
    Utf8,
    LargeUtf8,
    Utf8View,
    Binary,
    LargeBinary,
    BinaryView,
    /// Any type that the library does not distinguish further.
    Other,
}

/// A named, typed column of a schema.
#[derive(Debug)]
pub struct Field {
    pub name: String,
    pub data_type: DataType,
    pub nullable: bool,
}

/// The fields of a table or of a record batch, in column order.
#[derive(Debug)]
pub struct Schema {
    pub fields: Vec<Field>,
}

impl Field {
    pub fn new(name: &str, data_type: DataType, nullable: bool) -> (res: Field)
        ensures
            res.name@ == name@,
            res.data_type == data_type,
            res.nullable == nullable,
    {
        Field { name: String::from_str(name), data_type, nullable }
    }

    /// A copy of this field.
    pub fn duplicate(&self) -> (res: Field)
        ensures
            res.name@ == self.name@,
            res.data_type == self.data_type,
            res.nullable == self.nullable,
    {
        Field { name: self.name.clone(), data_type: self.data_type, nullable: self.nullable }
    }
}

impl Schema {
    /// The data types of the fields, in column order.
    pub open spec fn types(self) -> Seq<DataType> {
        self.fields@.map_values(|f: Field| f.data_type)
    }

    /// The names of the fields, in column order.
    pub open spec fn names(self) -> Seq<Seq<char>> {
        self.fields@.map_values(|f: Field| f.name@)
    }

    /// Whether each field may hold nulls, in column order.
    pub open spec fn nullables(self) -> Seq<bool> {
        self.fields@.map_values(|f: Field| f.nullable)
    }

    /// Two schemas have the same fields in the same order.
    pub open spec fn same_fields(self, other: Schema) -> bool {
        self.types() == other.types() && self.names() == other.names() && self.nullables() == other.nullables()
    }

    pub fn new(fields: Vec<Field>) -> (res: Schema)
        ensures
            res.fields@ == fields@,
    {
        Schema { fields }
    }

    pub fn len(&self) -> (res: usize)
        ensures
            res == self.fields@.len(),
    {
        self.fields.len()
    }

    /// The data type of the field at `index`.
    pub fn field_type(&self, index: usize) -> (res: DataType)
        requires
            index < self.fields@.len(),
        ensures
            res == self.types()[index as int],
    {
        self.fields[index].data_type
    }

    /// A copy of this schema.
    pub fn duplicate(&self) -> (res: Schema)
        ensures
            res.same_fields(*self),
    {
        let mut fields: Vec<Field> = Vec::new();
        for i in 0..self.fields.len()
            invariant
                fields@.len() == i,
                i <= self.fields@.len(),
                forall|j: int| 0 <= j < i ==> (#[trigger] fields@[j]).data_type == self.fields@[j].data_type
                    && fields@[j].name@ == self.fields@[j].name@ && fields@[j].nullable == self.fields@[j].nullable,
        {
            fields.push(self.fields[i].duplicate());
        }
        let res = Schema { fields };
        assert(res.types() =~= self.types());
        assert(res.names() =~= self.names());
        assert(res.nullables() =~= self.nullables());
        res
    }
}

} // verus!
