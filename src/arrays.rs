//! Columnar model of a record batch, and typed, null-aware access to it.
use vstd::prelude::*;

use crate::error::{DataType, Error};

verus! {

/// Fixed-width values that a primitive column can hold, with their default.
pub trait NativeValue: Copy + Sized {
    spec fn spec_zero() -> Self;

    fn zero() -> (r: Self)
        ensures
            r == Self::spec_zero(),
    ;
}

impl NativeValue for bool {
    open spec fn spec_zero() -> bool {
        false
    }

    fn zero() -> (r: bool) {
        false
    }
}

impl NativeValue for u8 {
    open spec fn spec_zero() -> u8 {
        0
    }

    fn zero() -> (r: u8) {
        0
    }
}

impl NativeValue for u16 {
    open spec fn spec_zero() -> u16 {
        0
    }

    fn zero() -> (r: u16) {
        0
    }
}

impl NativeValue for u32 {
    open spec fn spec_zero() -> u32 {
        0
    }

    fn zero() -> (r: u32) {
        0
    }
}

impl NativeValue for u64 {
    open spec fn spec_zero() -> u64 {
        0
    }

    fn zero() -> (r: u64) {
        0
    }
}

impl NativeValue for i8 {
    open spec fn spec_zero() -> i8 {
        0
    }

    fn zero() -> (r: i8) {
        0
    }
}

impl NativeValue for i16 {
    open spec fn spec_zero() -> i16 {
        0
    }

    fn zero() -> (r: i16) {
        0
    }
}

impl NativeValue for i32 {
    open spec fn spec_zero() -> i32 {
        0
    }

    fn zero() -> (r: i32) {
        0
    }
}

impl NativeValue for i64 {
    open spec fn spec_zero() -> i64 {
        0
    }

    fn zero() -> (r: i64) {
        0
    }
}

/// A nullable column of fixed-width values; `None` is a null cell.
///
/// Floating-point columns hold the IEEE-754 bit pattern of each value.
pub struct PrimitiveArray<T> {
    pub values: Vec<Option<T>>,
}

/// A nullable column of UTF-8 strings.
pub struct StringArray {
    pub values: Vec<Option<String>>,
}

/// A nullable column of byte strings.
pub struct BinaryArray {
    pub values: Vec<Option<Vec<u8>>>,
}

/// A column of structs, one child column per field.
pub struct StructArray {
    pub columns: Vec<Column>,
}

/// A column of lists: row `i` holds the child values in `offsets[i]..offsets[i + 1]`.
pub struct ListArray {
    pub offsets: Vec<usize>,
    pub validity: Vec<bool>,
    pub values: Box<ArrayData>,
}

/// A dictionary-encoded column: each cell is an index into `values`.
pub struct DictionaryArray {
    pub keys: Vec<Option<usize>>,
    pub values: Box<ArrayData>,
}

/// The data of one column, tagged with its logical type.
pub enum ArrayData {
    Boolean(PrimitiveArray<bool>),
    Int8(PrimitiveArray<i8>),
    Int16(PrimitiveArray<i16>),
    Int32(PrimitiveArray<i32>),
    Int64(PrimitiveArray<i64>),
    UInt8(PrimitiveArray<u8>),
    UInt16(PrimitiveArray<u16>),
    UInt32(PrimitiveArray<u32>),
    UInt64(PrimitiveArray<u64>),
    Float32(PrimitiveArray<u32>),
    Float64(PrimitiveArray<u64>),
    Utf8(StringArray),
    Binary(BinaryArray),
    TimestampNanosecond(PrimitiveArray<i64>),
    Struct(StructArray),
    List(ListArray),
    Dictionary(DictionaryArray),
    /// A column of a type that no table of this library has; it can be
    /// present, but is never read.
    Other,
}

/// A named column.
pub struct Column {
    pub name: String,
    pub data: ArrayData,
}

/// A table fragment: named columns over `num_rows` rows.
pub struct RecordBatch {
    pub num_rows: usize,
    pub columns: Vec<Column>,
}

impl ArrayData {
    pub open spec fn spec_data_type(&self) -> DataType {
        match self {
            ArrayData::Boolean(_) => DataType::Boolean,
            ArrayData::Int8(_) => DataType::Int8,
            ArrayData::Int16(_) => DataType::Int16,
            ArrayData::Int32(_) => DataType::Int32,
            ArrayData::Int64(_) => DataType::Int64,
            ArrayData::UInt8(_) => DataType::UInt8,
            ArrayData::UInt16(_) => DataType::UInt16,
            ArrayData::UInt32(_) => DataType::UInt32,
            ArrayData::UInt64(_) => DataType::UInt64,
            ArrayData::Float32(_) => DataType::Float32,
            ArrayData::Float64(_) => DataType::Float64,
            ArrayData::Utf8(_) => DataType::Utf8,
            ArrayData::Binary(_) => DataType::Binary,
            ArrayData::TimestampNanosecond(_) => DataType::TimestampNanosecond,
            ArrayData::Struct(_) => DataType::Struct,
            ArrayData::List(_) => DataType::List,
            ArrayData::Dictionary(_) => DataType::Dictionary,
            ArrayData::Other => DataType::Other,
        }
    }

    pub fn data_type(&self) -> (r: DataType)
        ensures
            r == self.spec_data_type(),
    {
        match self {
            ArrayData::Boolean(_) => DataType::Boolean,
            ArrayData::Int8(_) => DataType::Int8,
            ArrayData::Int16(_) => DataType::Int16,
            ArrayData::Int32(_) => DataType::Int32,
            ArrayData::Int64(_) => DataType::Int64,
            ArrayData::UInt8(_) => DataType::UInt8,
            ArrayData::UInt16(_) => DataType::UInt16,
            ArrayData::UInt32(_) => DataType::UInt32,
            ArrayData::UInt64(_) => DataType::UInt64,
            ArrayData::Float32(_) => DataType::Float32,
            ArrayData::Float64(_) => DataType::Float64,
            ArrayData::Utf8(_) => DataType::Utf8,
            ArrayData::Binary(_) => DataType::Binary,
            ArrayData::TimestampNanosecond(_) => DataType::TimestampNanosecond,
            ArrayData::Struct(_) => DataType::Struct,
            ArrayData::List(_) => DataType::List,
            ArrayData::Dictionary(_) => DataType::Dictionary,
            ArrayData::Other => DataType::Other,
        }
    }
}

/// Index of the first column at or after `i` whose name is `name`.
pub open spec fn first_named_from(cols: Seq<Column>, name: Seq<char>, i: int) -> Option<int>
    decreases cols.len() - i,
{
    if 0 <= i < cols.len() {
        if cols[i].name@ == name {
            Some(i)
        } else {
            first_named_from(cols, name, i + 1)
        }
    } else {
        None
    }
}

/// The data of the first column named `name`, if any.
pub open spec fn spec_column(cols: Seq<Column>, name: Seq<char>) -> Option<ArrayData> {
    match first_named_from(cols, name, 0) {
        Some(i) => Some(cols[i].data),
        None => None,
    }
}

proof fn lemma_first_named_bounds(cols: Seq<Column>, name: Seq<char>, i: int)
    ensures
        first_named_from(cols, name, i) matches Some(j) ==> 0 <= j < cols.len() && i <= j,
    decreases cols.len() - i,
{
    if 0 <= i < cols.len() && cols[i].name@ != name {
        lemma_first_named_bounds(cols, name, i + 1);
    }
}

/// Finds the first column named `name` among `cols`.
pub fn column_by_name<'a>(cols: &'a Vec<Column>, name: &str) -> (r: Option<&'a ArrayData>)
    ensures
        r == (match spec_column(cols@, name@) {
            Some(d) => Some(&d),
            None => None::<&ArrayData>,
        }),
{
    let key = name.to_string();
    let mut i: usize = 0;
    proof {
        lemma_first_named_bounds(cols@, name@, 0);
    }
    while i < cols.len()
        invariant
            0 <= i <= cols.len(),
            key@ == name@,
            first_named_from(cols@, name@, 0) == first_named_from(cols@, name@, i as int),
        decreases cols.len() - i,
    {
        if cols[i].name == key {
            return Some(&cols[i].data);
        }
        i += 1;
    }
    None
}

/// Typed, null-aware reads of the cells of a column.
pub trait NullableArrayAccessor {
    type Native;

    /// The cell at `idx`; a null cell, or one past the end, is absent.
    spec fn spec_value_at(&self, idx: int) -> Option<Self::Native>;

    /// Whether `v` is the default value of the native type.
    spec fn is_default(v: Self::Native) -> bool;

    fn value_at(&self, idx: usize) -> (r: Option<Self::Native>)
        ensures
            r == self.spec_value_at(idx as int),
    ;

    fn value_at_or_default(&self, idx: usize) -> (r: Self::Native)
        ensures
            match self.spec_value_at(idx as int) {
                Some(v) => r == v,
                None => Self::is_default(r),
            },
    ;
}

impl<T: NativeValue> NullableArrayAccessor for PrimitiveArray<T> {
    type Native = T;

    open spec fn spec_value_at(&self, idx: int) -> Option<T> {
        if 0 <= idx < self.values.len() {
            self.values@[idx]
        } else {
            None
        }
    }

    open spec fn is_default(v: T) -> bool {
        v == T::spec_zero()
    }

    fn value_at(&self, idx: usize) -> (r: Option<T>) {
        if idx < self.values.len() {
            self.values[idx]
        } else {
            None
        }
    }

    fn value_at_or_default(&self, idx: usize) -> (r: T) {
        match self.value_at(idx) {
            Some(v) => v,
            None => T::zero(),
        }
    }
}

impl NullableArrayAccessor for StringArray {
    type Native = String;

    open spec fn spec_value_at(&self, idx: int) -> Option<String> {
        if 0 <= idx < self.values.len() {
            self.values@[idx]
        } else {
            None
        }
    }

    open spec fn is_default(v: String) -> bool {
        v@ == Seq::<char>::empty()
    }

    fn value_at(&self, idx: usize) -> (r: Option<String>) {
        if idx < self.values.len() {
            match &self.values[idx] {
                Some(s) => Some(s.clone()),
                None => None,
            }
        } else {
            None
        }
    }

    fn value_at_or_default(&self, idx: usize) -> (r: String) {
        match self.value_at(idx) {
            Some(v) => v,
            None => String::new(),
        }
    }
}

impl BinaryArray {
    /// The bytes of the cell at `idx`; a null cell, or one past the end, is absent.
    pub open spec fn spec_bytes_at(&self, idx: int) -> Option<Seq<u8>> {
        if 0 <= idx < self.values.len() {
            match self.values@[idx] {
                Some(b) => Some(b@),
                None => None,
            }
        } else {
            None
        }
    }

    pub fn value_at(&self, idx: usize) -> (r: Option<Vec<u8>>)
        ensures
            match self.spec_bytes_at(idx as int) {
                Some(b) => r matches Some(v) && v@ == b,
                None => r is None,
            },
    {
        if idx < self.values.len() {
            match &self.values[idx] {
                Some(b) => {
                    let c = b.clone();
                    assert(c@ =~= b@);
                    Some(c)
                },
                None => None,
            }
        } else {
            None
        }
    }

    pub fn value_at_or_default(&self, idx: usize) -> (r: Vec<u8>)
        ensures
            r@ == (match self.spec_bytes_at(idx as int) {
                Some(b) => b,
                None => Seq::<u8>::empty(),
            }),
    {
        match self.value_at(idx) {
            Some(v) => v,
            None => Vec::new(),
        }
    }
}

/// The cell of an optional column: an absent column reads as null everywhere.
pub open spec fn opt_value_at<A: NullableArrayAccessor>(a: Option<&A>, idx: int) -> Option<A::Native> {
    match a {
        Some(a) => a.spec_value_at(idx),
        None => None,
    }
}

/// The `UInt8` column named `name`: missing is an error.
pub fn get_u8_array<'a>(cols: &'a Vec<Column>, name: &str) -> (r: Result<&'a PrimitiveArray<u8>, Error>)
    ensures
        match spec_column(cols@, name@) {
            None => r matches Err(e) && e.is_column_not_found(name@),
            Some(ArrayData::UInt8(a)) => r == Ok::<&PrimitiveArray<u8>, Error>(&a),
            Some(d) => r matches Err(e) && e.is_type_mismatch(name@, DataType::UInt8, d.spec_data_type()),
        },
{
    match column_by_name(cols, name) {
        None => Err(Error::ColumnNotFound { name: name.to_string() }),
        Some(ArrayData::UInt8(a)) => Ok(a),
        Some(d) => Err(
            Error::ColumnDataTypeMismatch {
                name: name.to_string(),
                expect: DataType::UInt8,
                actual: d.data_type(),
            },
        ),
    }
}

/// The `UInt8` column named `name`: missing reads as absent.
pub fn get_u8_array_opt<'a>(cols: &'a Vec<Column>, name: &str) -> (r: Result<Option<&'a PrimitiveArray<u8>>, Error>)
    ensures
        match spec_column(cols@, name@) {
            None => r == Ok::<Option<&PrimitiveArray<u8>>, Error>(None),
            Some(ArrayData::UInt8(a)) => r == Ok::<Option<&PrimitiveArray<u8>>, Error>(Some(&a)),
            Some(d) => r matches Err(e) && e.is_type_mismatch(name@, DataType::UInt8, d.spec_data_type()),
        },
{
    match column_by_name(cols, name) {
        None => Ok(None),
        Some(ArrayData::UInt8(a)) => Ok(Some(a)),
        Some(d) => Err(
            Error::ColumnDataTypeMismatch {
                name: name.to_string(),
                expect: DataType::UInt8,
                actual: d.data_type(),
            },
        ),
    }
}

/// The `UInt16` column named `name`: missing is an error.
pub fn get_u16_array<'a>(cols: &'a Vec<Column>, name: &str) -> (r: Result<&'a PrimitiveArray<u16>, Error>)
    ensures
        match spec_column(cols@, name@) {
            None => r matches Err(e) && e.is_column_not_found(name@),
            Some(ArrayData::UInt16(a)) => r == Ok::<&PrimitiveArray<u16>, Error>(&a),
            Some(d) => r matches Err(e) && e.is_type_mismatch(name@, DataType::UInt16, d.spec_data_type()),
        },
{
    match column_by_name(cols, name) {
        None => Err(Error::ColumnNotFound { name: name.to_string() }),
        Some(ArrayData::UInt16(a)) => Ok(a),
        Some(d) => Err(
            Error::ColumnDataTypeMismatch {
                name: name.to_string(),
                expect: DataType::UInt16,
                actual: d.data_type(),
            },
        ),
    }
}

/// The `UInt16` column named `name`: missing reads as absent.
pub fn get_u16_array_opt<'a>(cols: &'a Vec<Column>, name: &str) -> (r: Result<Option<&'a PrimitiveArray<u16>>, Error>)
    ensures
        match spec_column(cols@, name@) {
            None => r == Ok::<Option<&PrimitiveArray<u16>>, Error>(None),
            Some(ArrayData::UInt16(a)) => r == Ok::<Option<&PrimitiveArray<u16>>, Error>(Some(&a)),
            Some(d) => r matches Err(e) && e.is_type_mismatch(name@, DataType::UInt16, d.spec_data_type()),
        },
{
    match column_by_name(cols, name) {
        None => Ok(None),
        Some(ArrayData::UInt16(a)) => Ok(Some(a)),
        Some(d) => Err(
            Error::ColumnDataTypeMismatch {
                name: name.to_string(),
                expect: DataType::UInt16,
                actual: d.data_type(),
            },
        ),
    }
}

/// The `UInt32` column named `name`: missing is an error.
pub fn get_u32_array<'a>(cols: &'a Vec<Column>, name: &str) -> (r: Result<&'a PrimitiveArray<u32>, Error>)
    ensures
        match spec_column(cols@, name@) {
            None => r matches Err(e) && e.is_column_not_found(name@),
            Some(ArrayData::UInt32(a)) => r == Ok::<&PrimitiveArray<u32>, Error>(&a),
            Some(d) => r matches Err(e) && e.is_type_mismatch(name@, DataType::UInt32, d.spec_data_type()),
        },
{
    match column_by_name(cols, name) {
        None => Err(Error::ColumnNotFound { name: name.to_string() }),
        Some(ArrayData::UInt32(a)) => Ok(a),
        Some(d) => Err(
            Error::ColumnDataTypeMismatch {
                name: name.to_string(),
                expect: DataType::UInt32,
                actual: d.data_type(),
            },
        ),
    }
}

/// The `UInt32` column named `name`: missing reads as absent.
pub fn get_u32_array_opt<'a>(cols: &'a Vec<Column>, name: &str) -> (r: Result<Option<&'a PrimitiveArray<u32>>, Error>)
    ensures
        match spec_column(cols@, name@) {
            None => r == Ok::<Option<&PrimitiveArray<u32>>, Error>(None),
            Some(ArrayData::UInt32(a)) => r == Ok::<Option<&PrimitiveArray<u32>>, Error>(Some(&a)),
            Some(d) => r matches Err(e) && e.is_type_mismatch(name@, DataType::UInt32, d.spec_data_type()),
        },
{
    match column_by_name(cols, name) {
        None => Ok(None),
        Some(ArrayData::UInt32(a)) => Ok(Some(a)),
        Some(d) => Err(
            Error::ColumnDataTypeMismatch {
                name: name.to_string(),
                expect: DataType::UInt32,
                actual: d.data_type(),
            },
        ),
    }
}

/// The `UInt64` column named `name`: missing is an error.
pub fn get_u64_array<'a>(cols: &'a Vec<Column>, name: &str) -> (r: Result<&'a PrimitiveArray<u64>, Error>)
    ensures
        match spec_column(cols@, name@) {
            None => r matches Err(e) && e.is_column_not_found(name@),
            Some(ArrayData::UInt64(a)) => r == Ok::<&PrimitiveArray<u64>, Error>(&a),
            Some(d) => r matches Err(e) && e.is_type_mismatch(name@, DataType::UInt64, d.spec_data_type()),
        },
{
    match column_by_name(cols, name) {
        None => Err(Error::ColumnNotFound { name: name.to_string() }),
        Some(ArrayData::UInt64(a)) => Ok(a),
        Some(d) => Err(
            Error::ColumnDataTypeMismatch {
                name: name.to_string(),
                expect: DataType::UInt64,
                actual: d.data_type(),
            },
        ),
    }
}

/// The `UInt64` column named `name`: missing reads as absent.
pub fn get_u64_array_opt<'a>(cols: &'a Vec<Column>, name: &str) -> (r: Result<Option<&'a PrimitiveArray<u64>>, Error>)
    ensures
        match spec_column(cols@, name@) {
            None => r == Ok::<Option<&PrimitiveArray<u64>>, Error>(None),
            Some(ArrayData::UInt64(a)) => r == Ok::<Option<&PrimitiveArray<u64>>, Error>(Some(&a)),
            Some(d) => r matches Err(e) && e.is_type_mismatch(name@, DataType::UInt64, d.spec_data_type()),
        },
{
    match column_by_name(cols, name) {
        None => Ok(None),
        Some(ArrayData::UInt64(a)) => Ok(Some(a)),
        Some(d) => Err(
            Error::ColumnDataTypeMismatch {
                name: name.to_string(),
                expect: DataType::UInt64,
                actual: d.data_type(),
            },
        ),
    }
}

/// The `Int8` column named `name`: missing is an error.
pub fn get_i8_array<'a>(cols: &'a Vec<Column>, name: &str) -> (r: Result<&'a PrimitiveArray<i8>, Error>)
    ensures
        match spec_column(cols@, name@) {
            None => r matches Err(e) && e.is_column_not_found(name@),
            Some(ArrayData::Int8(a)) => r == Ok::<&PrimitiveArray<i8>, Error>(&a),
            Some(d) => r matches Err(e) && e.is_type_mismatch(name@, DataType::Int8, d.spec_data_type()),
        },
{
    match column_by_name(cols, name) {
        None => Err(Error::ColumnNotFound { name: name.to_string() }),
        Some(ArrayData::Int8(a)) => Ok(a),
        Some(d) => Err(
            Error::ColumnDataTypeMismatch {
                name: name.to_string(),
                expect: DataType::Int8,
                actual: d.data_type(),
            },
        ),
    }
}

/// The `Int8` column named `name`: missing reads as absent.
pub fn get_i8_array_opt<'a>(cols: &'a Vec<Column>, name: &str) -> (r: Result<Option<&'a PrimitiveArray<i8>>, Error>)
    ensures
        match spec_column(cols@, name@) {
            None => r == Ok::<Option<&PrimitiveArray<i8>>, Error>(None),
            Some(ArrayData::Int8(a)) => r == Ok::<Option<&PrimitiveArray<i8>>, Error>(Some(&a)),
            Some(d) => r matches Err(e) && e.is_type_mismatch(name@, DataType::Int8, d.spec_data_type()),
        },
{
    match column_by_name(cols, name) {
        None => Ok(None),
        Some(ArrayData::Int8(a)) => Ok(Some(a)),
        Some(d) => Err(
            Error::ColumnDataTypeMismatch {
                name: name.to_string(),
                expect: DataType::Int8,
                actual: d.data_type(),
            },
        ),
    }
}

/// The `Int16` column named `name`: missing is an error.
pub fn get_i16_array<'a>(cols: &'a Vec<Column>, name: &str) -> (r: Result<&'a PrimitiveArray<i16>, Error>)
    ensures
        match spec_column(cols@, name@) {
            None => r matches Err(e) && e.is_column_not_found(name@),
            Some(ArrayData::Int16(a)) => r == Ok::<&PrimitiveArray<i16>, Error>(&a),
            Some(d) => r matches Err(e) && e.is_type_mismatch(name@, DataType::Int16, d.spec_data_type()),
        },
{
    match column_by_name(cols, name) {
        None => Err(Error::ColumnNotFound { name: name.to_string() }),
        Some(ArrayData::Int16(a)) => Ok(a),
        Some(d) => Err(
            Error::ColumnDataTypeMismatch {
                name: name.to_string(),
                expect: DataType::Int16,
                actual: d.data_type(),
            },
        ),
    }
}

/// The `Int16` column named `name`: missing reads as absent.
pub fn get_i16_array_opt<'a>(cols: &'a Vec<Column>, name: &str) -> (r: Result<Option<&'a PrimitiveArray<i16>>, Error>)
    ensures
        match spec_column(cols@, name@) {
            None => r == Ok::<Option<&PrimitiveArray<i16>>, Error>(None),
            Some(ArrayData::Int16(a)) => r == Ok::<Option<&PrimitiveArray<i16>>, Error>(Some(&a)),
            Some(d) => r matches Err(e) && e.is_type_mismatch(name@, DataType::Int16, d.spec_data_type()),
        },
{
    match column_by_name(cols, name) {
        None => Ok(None),
        Some(ArrayData::Int16(a)) => Ok(Some(a)),
        Some(d) => Err(
            Error::ColumnDataTypeMismatch {
                name: name.to_string(),
                expect: DataType::Int16,
                actual: d.data_type(),
            },
        ),
    }
}

/// The `Int32` column named `name`: missing is an error.
pub fn get_i32_array<'a>(cols: &'a Vec<Column>, name: &str) -> (r: Result<&'a PrimitiveArray<i32>, Error>)
    ensures
        match spec_column(cols@, name@) {
            None => r matches Err(e) && e.is_column_not_found(name@),
            Some(ArrayData::Int32(a)) => r == Ok::<&PrimitiveArray<i32>, Error>(&a),
            Some(d) => r matches Err(e) && e.is_type_mismatch(name@, DataType::Int32, d.spec_data_type()),
        },
{
    match column_by_name(cols, name) {
        None => Err(Error::ColumnNotFound { name: name.to_string() }),
        Some(ArrayData::Int32(a)) => Ok(a),
        Some(d) => Err(
            Error::ColumnDataTypeMismatch {
                name: name.to_string(),
                expect: DataType::Int32,
                actual: d.data_type(),
            },
        ),
    }
}

/// The `Int32` column named `name`: missing reads as absent.
pub fn get_i32_array_opt<'a>(cols: &'a Vec<Column>, name: &str) -> (r: Result<Option<&'a PrimitiveArray<i32>>, Error>)
    ensures
        match spec_column(cols@, name@) {
            None => r == Ok::<Option<&PrimitiveArray<i32>>, Error>(None),
            Some(ArrayData::Int32(a)) => r == Ok::<Option<&PrimitiveArray<i32>>, Error>(Some(&a)),
            Some(d) => r matches Err(e) && e.is_type_mismatch(name@, DataType::Int32, d.spec_data_type()),
        },
{
    match column_by_name(cols, name) {
        None => Ok(None),
        Some(ArrayData::Int32(a)) => Ok(Some(a)),
        Some(d) => Err(
            Error::ColumnDataTypeMismatch {
                name: name.to_string(),
                expect: DataType::Int32,
                actual: d.data_type(),
            },
        ),
    }
}

/// The `Int64` column named `name`: missing is an error.
pub fn get_i64_array<'a>(cols: &'a Vec<Column>, name: &str) -> (r: Result<&'a PrimitiveArray<i64>, Error>)
    ensures
        match spec_column(cols@, name@) {
            None => r matches Err(e) && e.is_column_not_found(name@),
            Some(ArrayData::Int64(a)) => r == Ok::<&PrimitiveArray<i64>, Error>(&a),
            Some(d) => r matches Err(e) && e.is_type_mismatch(name@, DataType::Int64, d.spec_data_type()),
        },
{
    match column_by_name(cols, name) {
        None => Err(Error::ColumnNotFound { name: name.to_string() }),
        Some(ArrayData::Int64(a)) => Ok(a),
        Some(d) => Err(
            Error::ColumnDataTypeMismatch {
                name: name.to_string(),
                expect: DataType::Int64,
                actual: d.data_type(),
            },
        ),
    }
}

/// The `Int64` column named `name`: missing reads as absent.
pub fn get_i64_array_opt<'a>(cols: &'a Vec<Column>, name: &str) -> (r: Result<Option<&'a PrimitiveArray<i64>>, Error>)
    ensures
        match spec_column(cols@, name@) {
            None => r == Ok::<Option<&PrimitiveArray<i64>>, Error>(None),
            Some(ArrayData::Int64(a)) => r == Ok::<Option<&PrimitiveArray<i64>>, Error>(Some(&a)),
            Some(d) => r matches Err(e) && e.is_type_mismatch(name@, DataType::Int64, d.spec_data_type()),
        },
{
    match column_by_name(cols, name) {
        None => Ok(None),
        Some(ArrayData::Int64(a)) => Ok(Some(a)),
        Some(d) => Err(
            Error::ColumnDataTypeMismatch {
                name: name.to_string(),
                expect: DataType::Int64,
                actual: d.data_type(),
            },
        ),
    }
}

/// The `Boolean` column named `name`: missing is an error.
pub fn get_bool_array<'a>(cols: &'a Vec<Column>, name: &str) -> (r: Result<&'a PrimitiveArray<bool>, Error>)
    ensures
        match spec_column(cols@, name@) {
            None => r matches Err(e) && e.is_column_not_found(name@),
            Some(ArrayData::Boolean(a)) => r == Ok::<&PrimitiveArray<bool>, Error>(&a),
            Some(d) => r matches Err(e) && e.is_type_mismatch(name@, DataType::Boolean, d.spec_data_type()),
        },
{
    match column_by_name(cols, name) {
        None => Err(Error::ColumnNotFound { name: name.to_string() }),
        Some(ArrayData::Boolean(a)) => Ok(a),
        Some(d) => Err(
            Error::ColumnDataTypeMismatch {
                name: name.to_string(),
                expect: DataType::Boolean,
                actual: d.data_type(),
            },
        ),
    }
}

/// The `Boolean` column named `name`: missing reads as absent.
pub fn get_bool_array_opt<'a>(cols: &'a Vec<Column>, name: &str) -> (r: Result<Option<&'a PrimitiveArray<bool>>, Error>)
    ensures
        match spec_column(cols@, name@) {
            None => r == Ok::<Option<&PrimitiveArray<bool>>, Error>(None),
            Some(ArrayData::Boolean(a)) => r == Ok::<Option<&PrimitiveArray<bool>>, Error>(Some(&a)),
            Some(d) => r matches Err(e) && e.is_type_mismatch(name@, DataType::Boolean, d.spec_data_type()),
        },
{
    match column_by_name(cols, name) {
        None => Ok(None),
        Some(ArrayData::Boolean(a)) => Ok(Some(a)),
        Some(d) => Err(
            Error::ColumnDataTypeMismatch {
                name: name.to_string(),
                expect: DataType::Boolean,
                actual: d.data_type(),
            },
        ),
    }
}

/// The `Float32` column named `name`: missing is an error.
pub fn get_f32_array<'a>(cols: &'a Vec<Column>, name: &str) -> (r: Result<&'a PrimitiveArray<u32>, Error>)
    ensures
        match spec_column(cols@, name@) {
            None => r matches Err(e) && e.is_column_not_found(name@),
            Some(ArrayData::Float32(a)) => r == Ok::<&PrimitiveArray<u32>, Error>(&a),
            Some(d) => r matches Err(e) && e.is_type_mismatch(name@, DataType::Float32, d.spec_data_type()),
        },
{
    match column_by_name(cols, name) {
        None => Err(Error::ColumnNotFound { name: name.to_string() }),
        Some(ArrayData::Float32(a)) => Ok(a),
        Some(d) => Err(
            Error::ColumnDataTypeMismatch {
                name: name.to_string(),
                expect: DataType::Float32,
                actual: d.data_type(),
            },
        ),
    }
}

/// The `Float32` column named `name`: missing reads as absent.
pub fn get_f32_array_opt<'a>(cols: &'a Vec<Column>, name: &str) -> (r: Result<Option<&'a PrimitiveArray<u32>>, Error>)
    ensures
        match spec_column(cols@, name@) {
            None => r == Ok::<Option<&PrimitiveArray<u32>>, Error>(None),
            Some(ArrayData::Float32(a)) => r == Ok::<Option<&PrimitiveArray<u32>>, Error>(Some(&a)),
            Some(d) => r matches Err(e) && e.is_type_mismatch(name@, DataType::Float32, d.spec_data_type()),
        },
{
    match column_by_name(cols, name) {
        None => Ok(None),
        Some(ArrayData::Float32(a)) => Ok(Some(a)),
        Some(d) => Err(
            Error::ColumnDataTypeMismatch {
                name: name.to_string(),
                expect: DataType::Float32,
                actual: d.data_type(),
            },
        ),
    }
}

/// The `Float64` column named `name`: missing is an error.
pub fn get_f64_array<'a>(cols: &'a Vec<Column>, name: &str) -> (r: Result<&'a PrimitiveArray<u64>, Error>)
    ensures
        match spec_column(cols@, name@) {
            None => r matches Err(e) && e.is_column_not_found(name@),
            Some(ArrayData::Float64(a)) => r == Ok::<&PrimitiveArray<u64>, Error>(&a),
            Some(d) => r matches Err(e) && e.is_type_mismatch(name@, DataType::Float64, d.spec_data_type()),
        },
{
    match column_by_name(cols, name) {
        None => Err(Error::ColumnNotFound { name: name.to_string() }),
        Some(ArrayData::Float64(a)) => Ok(a),
        Some(d) => Err(
            Error::ColumnDataTypeMismatch {
                name: name.to_string(),
                expect: DataType::Float64,
                actual: d.data_type(),
            },
        ),
    }
}

/// The `Float64` column named `name`: missing reads as absent.
pub fn get_f64_array_opt<'a>(cols: &'a Vec<Column>, name: &str) -> (r: Result<Option<&'a PrimitiveArray<u64>>, Error>)
    ensures
        match spec_column(cols@, name@) {
            None => r == Ok::<Option<&PrimitiveArray<u64>>, Error>(None),
            Some(ArrayData::Float64(a)) => r == Ok::<Option<&PrimitiveArray<u64>>, Error>(Some(&a)),
            Some(d) => r matches Err(e) && e.is_type_mismatch(name@, DataType::Float64, d.spec_data_type()),
        },
{
    match column_by_name(cols, name) {
        None => Ok(None),
        Some(ArrayData::Float64(a)) => Ok(Some(a)),
        Some(d) => Err(
            Error::ColumnDataTypeMismatch {
                name: name.to_string(),
                expect: DataType::Float64,
                actual: d.data_type(),
            },
        ),
    }
}

/// The `Utf8` column named `name`: missing is an error.
pub fn get_string_array<'a>(cols: &'a Vec<Column>, name: &str) -> (r: Result<&'a StringArray, Error>)
    ensures
        match spec_column(cols@, name@) {
            None => r matches Err(e) && e.is_column_not_found(name@),
            Some(ArrayData::Utf8(a)) => r == Ok::<&StringArray, Error>(&a),
            Some(d) => r matches Err(e) && e.is_type_mismatch(name@, DataType::Utf8, d.spec_data_type()),
        },
{
    match column_by_name(cols, name) {
        None => Err(Error::ColumnNotFound { name: name.to_string() }),
        Some(ArrayData::Utf8(a)) => Ok(a),
        Some(d) => Err(
            Error::ColumnDataTypeMismatch {
                name: name.to_string(),
                expect: DataType::Utf8,
                actual: d.data_type(),
            },
        ),
    }
}

/// The `Utf8` column named `name`: missing reads as absent.
pub fn get_string_array_opt<'a>(cols: &'a Vec<Column>, name: &str) -> (r: Result<Option<&'a StringArray>, Error>)
    ensures
        match spec_column(cols@, name@) {
            None => r == Ok::<Option<&StringArray>, Error>(None),
            Some(ArrayData::Utf8(a)) => r == Ok::<Option<&StringArray>, Error>(Some(&a)),
            Some(d) => r matches Err(e) && e.is_type_mismatch(name@, DataType::Utf8, d.spec_data_type()),
        },
{
    match column_by_name(cols, name) {
        None => Ok(None),
        Some(ArrayData::Utf8(a)) => Ok(Some(a)),
        Some(d) => Err(
            Error::ColumnDataTypeMismatch {
                name: name.to_string(),
                expect: DataType::Utf8,
                actual: d.data_type(),
            },
        ),
    }
}

/// The `Binary` column named `name`: missing is an error.
pub fn get_binary_array<'a>(cols: &'a Vec<Column>, name: &str) -> (r: Result<&'a BinaryArray, Error>)
    ensures
        match spec_column(cols@, name@) {
            None => r matches Err(e) && e.is_column_not_found(name@),
            Some(ArrayData::Binary(a)) => r == Ok::<&BinaryArray, Error>(&a),
            Some(d) => r matches Err(e) && e.is_type_mismatch(name@, DataType::Binary, d.spec_data_type()),
        },
{
    match column_by_name(cols, name) {
        None => Err(Error::ColumnNotFound { name: name.to_string() }),
        Some(ArrayData::Binary(a)) => Ok(a),
        Some(d) => Err(
            Error::ColumnDataTypeMismatch {
                name: name.to_string(),
                expect: DataType::Binary,
                actual: d.data_type(),
            },
        ),
    }
}

/// The `Binary` column named `name`: missing reads as absent.
pub fn get_binary_array_opt<'a>(cols: &'a Vec<Column>, name: &str) -> (r: Result<Option<&'a BinaryArray>, Error>)
    ensures
        match spec_column(cols@, name@) {
            None => r == Ok::<Option<&BinaryArray>, Error>(None),
            Some(ArrayData::Binary(a)) => r == Ok::<Option<&BinaryArray>, Error>(Some(&a)),
            Some(d) => r matches Err(e) && e.is_type_mismatch(name@, DataType::Binary, d.spec_data_type()),
        },
{
    match column_by_name(cols, name) {
        None => Ok(None),
        Some(ArrayData::Binary(a)) => Ok(Some(a)),
        Some(d) => Err(
            Error::ColumnDataTypeMismatch {
                name: name.to_string(),
                expect: DataType::Binary,
                actual: d.data_type(),
            },
        ),
    }
}

/// The `TimestampNanosecond` column named `name`: missing is an error.
pub fn get_timestamp_nanosecond_array<'a>(cols: &'a Vec<Column>, name: &str) -> (r: Result<&'a PrimitiveArray<i64>, Error>)
    ensures
        match spec_column(cols@, name@) {
            None => r matches Err(e) && e.is_column_not_found(name@),
            Some(ArrayData::TimestampNanosecond(a)) => r == Ok::<&PrimitiveArray<i64>, Error>(&a),
            Some(d) => r matches Err(e) && e.is_type_mismatch(name@, DataType::TimestampNanosecond, d.spec_data_type()),
        },
{
    match column_by_name(cols, name) {
        None => Err(Error::ColumnNotFound { name: name.to_string() }),
        Some(ArrayData::TimestampNanosecond(a)) => Ok(a),
        Some(d) => Err(
            Error::ColumnDataTypeMismatch {
                name: name.to_string(),
                expect: DataType::TimestampNanosecond,
                actual: d.data_type(),
            },
        ),
    }
}

/// The `TimestampNanosecond` column named `name`: missing reads as absent.
pub fn get_timestamp_nanosecond_array_opt<'a>(cols: &'a Vec<Column>, name: &str) -> (r: Result<Option<&'a PrimitiveArray<i64>>, Error>)
    ensures
        match spec_column(cols@, name@) {
            None => r == Ok::<Option<&PrimitiveArray<i64>>, Error>(None),
            Some(ArrayData::TimestampNanosecond(a)) => r == Ok::<Option<&PrimitiveArray<i64>>, Error>(Some(&a)),
            Some(d) => r matches Err(e) && e.is_type_mismatch(name@, DataType::TimestampNanosecond, d.spec_data_type()),
        },
{
    match column_by_name(cols, name) {
        None => Ok(None),
        Some(ArrayData::TimestampNanosecond(a)) => Ok(Some(a)),
        Some(d) => Err(
            Error::ColumnDataTypeMismatch {
                name: name.to_string(),
                expect: DataType::TimestampNanosecond,
                actual: d.data_type(),
            },
        ),
    }
}

/// The `Struct` column named `name`: missing is an error.
pub fn get_struct_array<'a>(cols: &'a Vec<Column>, name: &str) -> (r: Result<&'a StructArray, Error>)
    ensures
        match spec_column(cols@, name@) {
            None => r matches Err(e) && e.is_column_not_found(name@),
            Some(ArrayData::Struct(a)) => r == Ok::<&StructArray, Error>(&a),
            Some(d) => r matches Err(e) && e.is_type_mismatch(name@, DataType::Struct, d.spec_data_type()),
        },
{
    match column_by_name(cols, name) {
        None => Err(Error::ColumnNotFound { name: name.to_string() }),
        Some(ArrayData::Struct(a)) => Ok(a),
        Some(d) => Err(
            Error::ColumnDataTypeMismatch {
                name: name.to_string(),
                expect: DataType::Struct,
                actual: d.data_type(),
            },
        ),
    }
}

/// The `Struct` column named `name`: missing reads as absent.
pub fn get_struct_array_opt<'a>(cols: &'a Vec<Column>, name: &str) -> (r: Result<Option<&'a StructArray>, Error>)
    ensures
        match spec_column(cols@, name@) {
            None => r == Ok::<Option<&StructArray>, Error>(None),
            Some(ArrayData::Struct(a)) => r == Ok::<Option<&StructArray>, Error>(Some(&a)),
            Some(d) => r matches Err(e) && e.is_type_mismatch(name@, DataType::Struct, d.spec_data_type()),
        },
{
    match column_by_name(cols, name) {
        None => Ok(None),
        Some(ArrayData::Struct(a)) => Ok(Some(a)),
        Some(d) => Err(
            Error::ColumnDataTypeMismatch {
                name: name.to_string(),
                expect: DataType::Struct,
                actual: d.data_type(),
            },
        ),
    }
}

/// The `List` column named `name`: missing is an error.
pub fn get_list_array<'a>(cols: &'a Vec<Column>, name: &str) -> (r: Result<&'a ListArray, Error>)
    ensures
        match spec_column(cols@, name@) {
            None => r matches Err(e) && e.is_column_not_found(name@),
            Some(ArrayData::List(a)) => r == Ok::<&ListArray, Error>(&a),
            Some(d) => r matches Err(e) && e.is_type_mismatch(name@, DataType::List, d.spec_data_type()),
        },
{
    match column_by_name(cols, name) {
        None => Err(Error::ColumnNotFound { name: name.to_string() }),
        Some(ArrayData::List(a)) => Ok(a),
        Some(d) => Err(
            Error::ColumnDataTypeMismatch {
                name: name.to_string(),
                expect: DataType::List,
                actual: d.data_type(),
            },
        ),
    }
}

/// The `List` column named `name`: missing reads as absent.
pub fn get_list_array_opt<'a>(cols: &'a Vec<Column>, name: &str) -> (r: Result<Option<&'a ListArray>, Error>)
    ensures
        match spec_column(cols@, name@) {
            None => r == Ok::<Option<&ListArray>, Error>(None),
            Some(ArrayData::List(a)) => r == Ok::<Option<&ListArray>, Error>(Some(&a)),
            Some(d) => r matches Err(e) && e.is_type_mismatch(name@, DataType::List, d.spec_data_type()),
        },
{
    match column_by_name(cols, name) {
        None => Ok(None),
        Some(ArrayData::List(a)) => Ok(Some(a)),
        Some(d) => Err(
            Error::ColumnDataTypeMismatch {
                name: name.to_string(),
                expect: DataType::List,
                actual: d.data_type(),
            },
        ),
    }
}

/// A numeric column that may be dictionary-encoded; dictionary keys are
/// resolved to their value transparently and a null key reads as absent.
pub enum NumericColumn<'a, T> {
    Plain(&'a PrimitiveArray<T>),
    Dictionary(&'a Vec<Option<usize>>, &'a PrimitiveArray<T>),
}

impl<'a, T: NativeValue> NumericColumn<'a, T> {
    pub open spec fn spec_value_at(&self, idx: int) -> Option<T> {
        match self {
            NumericColumn::Plain(a) => a.spec_value_at(idx),
            NumericColumn::Dictionary(keys, values) => {
                if 0 <= idx < keys.len() {
                    match keys@[idx] {
                        Some(k) => values.spec_value_at(k as int),
                        None => None,
                    }
                } else {
                    None
                }
            },
        }
    }

    pub fn value_at(&self, idx: usize) -> (r: Option<T>)
        ensures
            r == self.spec_value_at(idx as int),
    {
        match self {
            NumericColumn::Plain(a) => a.value_at(idx),
            NumericColumn::Dictionary(keys, values) => {
                if idx < keys.len() {
                    match keys[idx] {
                        Some(k) => values.value_at(k),
                        None => None,
                    }
                } else {
                    None
                }
            },
        }
    }
}

pub open spec fn int64_of(d: ArrayData) -> Option<PrimitiveArray<i64>> {
    match d {
        ArrayData::Int64(a) => Some(a),
        _ => None,
    }
}

pub open spec fn float64_of(d: ArrayData) -> Option<PrimitiveArray<u64>> {
    match d {
        ArrayData::Float64(a) => Some(a),
        _ => None,
    }
}

/// What reading a possibly dictionary-encoded column yields: absent when the
/// column is missing, its cells when it holds (a dictionary of) the expected
/// type, a type mismatch otherwise.
pub open spec fn numeric_column_ok<T: NativeValue>(
    cols: Seq<Column>,
    name: Seq<char>,
    expect: DataType,
    pick: spec_fn(ArrayData) -> Option<PrimitiveArray<T>>,
    r: Result<Option<NumericColumn<T>>, Error>,
) -> bool {
    match spec_column(cols, name) {
        None => r == Ok::<Option<NumericColumn<T>>, Error>(None),
        Some(d) => {
            let usable = match d {
                ArrayData::Dictionary(dict) => pick(*dict.values) is Some,
                _ => pick(d) is Some,
            };
            if usable {
                r matches Ok(Some(c)) && forall|i: int| #[trigger] c.spec_value_at(i) == dict_cell(d, pick, i)
            } else {
                r matches Err(e) && e.is_type_mismatch(name, expect, d.spec_data_type())
            }
        },
    }
}

/// The `Int64` column named `name`, plain or dictionary-encoded; missing reads as absent.
pub fn get_i64_column_opt<'a>(cols: &'a Vec<Column>, name: &str) -> (r: Result<Option<NumericColumn<'a, i64>>, Error>)
    ensures
        numeric_column_ok(cols@, name@, DataType::Int64, |d: ArrayData| int64_of(d), r),
{
    match column_by_name(cols, name) {
        None => Ok(None),
        Some(ArrayData::Int64(a)) => Ok(Some(NumericColumn::Plain(a))),
        Some(ArrayData::Dictionary(dict)) => match &*dict.values {
            ArrayData::Int64(a) => Ok(Some(NumericColumn::Dictionary(&dict.keys, a))),
            _ => Err(
                Error::ColumnDataTypeMismatch {
                    name: name.to_string(),
                    expect: DataType::Int64,
                    actual: DataType::Dictionary,
                },
            ),
        },
        Some(d) => Err(
            Error::ColumnDataTypeMismatch {
                name: name.to_string(),
                expect: DataType::Int64,
                actual: d.data_type(),
            },
        ),
    }
}

/// The `Float64` column named `name`, plain or dictionary-encoded; missing reads as absent.
pub fn get_f64_column_opt<'a>(cols: &'a Vec<Column>, name: &str) -> (r: Result<Option<NumericColumn<'a, u64>>, Error>)
    ensures
        numeric_column_ok(cols@, name@, DataType::Float64, |d: ArrayData| float64_of(d), r),
{
    match column_by_name(cols, name) {
        None => Ok(None),
        Some(ArrayData::Float64(a)) => Ok(Some(NumericColumn::Plain(a))),
        Some(ArrayData::Dictionary(dict)) => match &*dict.values {
            ArrayData::Float64(a) => Ok(Some(NumericColumn::Dictionary(&dict.keys, a))),
            _ => Err(
                Error::ColumnDataTypeMismatch {
                    name: name.to_string(),
                    expect: DataType::Float64,
                    actual: DataType::Dictionary,
                },
            ),
        },
        Some(d) => Err(
            Error::ColumnDataTypeMismatch {
                name: name.to_string(),
                expect: DataType::Float64,
                actual: d.data_type(),
            },
        ),
    }
}

/// The cell of an optional numeric column: an absent column reads as null everywhere.
pub open spec fn opt_numeric_at<T: NativeValue>(c: Option<NumericColumn<T>>, idx: int) -> Option<T> {
    match c {
        Some(c) => c.spec_value_at(idx),
        None => None,
    }
}

/// The first name of `names`, from index `i` on, that no column of `cols` has.
pub open spec fn first_missing_from(cols: Seq<Column>, names: Seq<&str>, i: int) -> Option<int>
    decreases names.len() - i,
{
    if 0 <= i < names.len() {
        if spec_column(cols, names[i]@) is None {
            Some(i)
        } else {
            first_missing_from(cols, names, i + 1)
        }
    } else {
        None
    }
}

pub proof fn lemma_first_missing_is_missing(cols: Seq<Column>, names: Seq<&str>, i: int)
    ensures
        first_missing_from(cols, names, i) matches Some(j) ==> 0 <= j < names.len() && spec_column(
            cols,
            names[j]@,
        ) is None,
    decreases names.len() - i,
{
    if 0 <= i < names.len() && spec_column(cols, names[i]@) is Some {
        lemma_first_missing_is_missing(cols, names, i + 1);
    }
}

pub proof fn lemma_none_missing(cols: Seq<Column>, names: Seq<&str>, i: int)
    requires
        0 <= i,
        first_missing_from(cols, names, i) is None,
    ensures
        forall|j: int| i <= j < names.len() ==> spec_column(cols, #[trigger] names[j]@) is Some,
    decreases names.len() - i,
{
    if i < names.len() {
        lemma_none_missing(cols, names, i + 1);
    }
}

/// Checks that every column of `names` is present, before any type is
/// looked at: the error names the first missing column.
pub fn require_columns(cols: &Vec<Column>, names: &[&str]) -> (r: Result<(), Error>)
    ensures
        match first_missing_from(cols@, names@, 0) {
            None => r is Ok,
            Some(j) => r matches Err(e) && e.is_column_not_found(names@[j]@),
        },
{
    let mut i: usize = 0;
    proof {
        lemma_first_missing_is_missing(cols@, names@, 0);
    }
    while i < names.len()
        invariant
            0 <= i <= names.len(),
            first_missing_from(cols@, names@, 0) == first_missing_from(cols@, names@, i as int),
        decreases names.len() - i,
    {
        if column_by_name(cols, names[i]).is_none() {
            return Err(Error::ColumnNotFound { name: names[i].to_string() });
        }
        i += 1;
    }
    Ok(())
}

/// The `UInt8` cell at row `i` of the column named `name`; absent when
/// the column is missing, has another type, or the cell is null.
pub open spec fn cell_u8(cols: Seq<Column>, name: Seq<char>, i: int) -> Option<u8> {
    match spec_column(cols, name) {
        Some(ArrayData::UInt8(a)) => a.spec_value_at(i),
        _ => None,
    }
}

/// The `UInt16` cell at row `i` of the column named `name`; absent when
/// the column is missing, has another type, or the cell is null.
pub open spec fn cell_u16(cols: Seq<Column>, name: Seq<char>, i: int) -> Option<u16> {
    match spec_column(cols, name) {
        Some(ArrayData::UInt16(a)) => a.spec_value_at(i),
        _ => None,
    }
}

/// The `UInt32` cell at row `i` of the column named `name`; absent when
/// the column is missing, has another type, or the cell is null.
pub open spec fn cell_u32(cols: Seq<Column>, name: Seq<char>, i: int) -> Option<u32> {
    match spec_column(cols, name) {
        Some(ArrayData::UInt32(a)) => a.spec_value_at(i),
        _ => None,
    }
}

/// The `UInt64` cell at row `i` of the column named `name`; absent when
/// the column is missing, has another type, or the cell is null.
pub open spec fn cell_u64(cols: Seq<Column>, name: Seq<char>, i: int) -> Option<u64> {
    match spec_column(cols, name) {
        Some(ArrayData::UInt64(a)) => a.spec_value_at(i),
        _ => None,
    }
}

/// The `Int32` cell at row `i` of the column named `name`; absent when
/// the column is missing, has another type, or the cell is null.
pub open spec fn cell_i32(cols: Seq<Column>, name: Seq<char>, i: int) -> Option<i32> {
    match spec_column(cols, name) {
        Some(ArrayData::Int32(a)) => a.spec_value_at(i),
        _ => None,
    }
}

/// The `Boolean` cell at row `i` of the column named `name`; absent when
/// the column is missing, has another type, or the cell is null.
pub open spec fn cell_bool(cols: Seq<Column>, name: Seq<char>, i: int) -> Option<bool> {
    match spec_column(cols, name) {
        Some(ArrayData::Boolean(a)) => a.spec_value_at(i),
        _ => None,
    }
}

/// The `TimestampNanosecond` cell at row `i` of the column named `name`; absent when
/// the column is missing, has another type, or the cell is null.
pub open spec fn cell_timestamp(cols: Seq<Column>, name: Seq<char>, i: int) -> Option<i64> {
    match spec_column(cols, name) {
        Some(ArrayData::TimestampNanosecond(a)) => a.spec_value_at(i),
        _ => None,
    }
}

/// The string cell at row `i` of the column named `name`.
pub open spec fn cell_str(cols: Seq<Column>, name: Seq<char>, i: int) -> Option<Seq<char>> {
    match spec_column(cols, name) {
        Some(ArrayData::Utf8(a)) => match a.spec_value_at(i) {
            Some(s) => Some(s@),
            None => None,
        },
        _ => None,
    }
}

/// The string cell at row `i`, or the empty string.
pub open spec fn cell_str_or_empty(cols: Seq<Column>, name: Seq<char>, i: int) -> Seq<char> {
    match cell_str(cols, name, i) {
        Some(s) => s,
        None => Seq::empty(),
    }
}

/// The byte-string cell at row `i` of the column named `name`.
pub open spec fn cell_bytes(cols: Seq<Column>, name: Seq<char>, i: int) -> Option<Seq<u8>> {
    match spec_column(cols, name) {
        Some(ArrayData::Binary(a)) => a.spec_bytes_at(i),
        _ => None,
    }
}

/// A cell of a possibly dictionary-encoded numeric column.
pub open spec fn dict_cell<T: NativeValue>(
    d: ArrayData,
    pick: spec_fn(ArrayData) -> Option<PrimitiveArray<T>>,
    i: int,
) -> Option<T> {
    match d {
        ArrayData::Dictionary(dict) => if 0 <= i < dict.keys.len() {
            match (dict.keys@[i], pick(*dict.values)) {
                (Some(k), Some(a)) => a.spec_value_at(k as int),
                _ => None,
            }
        } else {
            None
        },
        _ => match pick(d) {
            Some(a) => a.spec_value_at(i),
            None => None,
        },
    }
}

/// The `Int64` cell at row `i`, plain or dictionary-encoded.
pub open spec fn cell_i64(cols: Seq<Column>, name: Seq<char>, i: int) -> Option<i64> {
    match spec_column(cols, name) {
        Some(d) => dict_cell(d, |d: ArrayData| int64_of(d), i),
        None => None,
    }
}

/// The `Float64` cell (bit pattern) at row `i`, plain or dictionary-encoded.
pub open spec fn cell_f64(cols: Seq<Column>, name: Seq<char>, i: int) -> Option<u64> {
    match spec_column(cols, name) {
        Some(d) => dict_cell(d, |d: ArrayData| float64_of(d), i),
        None => None,
    }
}


/// The first name of `names`, from index `i` on, whose column is present
/// with a type other than the one `types` gives at the same index.
pub open spec fn first_mistyped_from(cols: Seq<Column>, names: Seq<&str>, types: Seq<DataType>, i: int) -> Option<
    int,
>
    decreases names.len() - i,
{
    if 0 <= i < names.len() {
        if spec_column(cols, names[i]@) matches Some(d) && d.spec_data_type() != types[i] {
            Some(i)
        } else {
            first_mistyped_from(cols, names, types, i + 1)
        }
    } else {
        None
    }
}

pub proof fn lemma_first_mistyped(cols: Seq<Column>, names: Seq<&str>, types: Seq<DataType>, i: int)
    requires
        0 <= i,
    ensures
        first_mistyped_from(cols, names, types, i) matches Some(j) ==> (i <= j < names.len() && (spec_column(
            cols,
            names[j]@,
        ) matches Some(d) && d.spec_data_type() != types[j])),
        first_mistyped_from(cols, names, types, i) is None ==> forall|j: int|
            i <= j < names.len() ==> (spec_column(cols, #[trigger] names[j]@) matches Some(d) ==> d.spec_data_type()
                == types[j]),
    decreases names.len() - i,
{
    if i < names.len() {
        lemma_first_mistyped(cols, names, types, i + 1);
    }
}

/// Whether the columns of `required` are all present, and every present
/// column of `typed` has the type `types` gives it.
pub open spec fn columns_ok(cols: Seq<Column>, required: Seq<&str>, typed: Seq<&str>, types: Seq<DataType>) -> bool {
    first_missing_from(cols, required, 0) is None && first_mistyped_from(cols, typed, types, 0) is None
}

/// The error of reading columns that are not `columns_ok`: the first missing
/// required column; when none is missing, the first column of a wrong type,
/// with its expected and actual type.
pub open spec fn is_columns_error(
    e: Error,
    cols: Seq<Column>,
    required: Seq<&str>,
    typed: Seq<&str>,
    types: Seq<DataType>,
) -> bool {
    match first_missing_from(cols, required, 0) {
        Some(j) => e.is_column_not_found(required[j]@),
        None => match first_mistyped_from(cols, typed, types, 0) {
            Some(j) => match spec_column(cols, typed[j]@) {
                Some(d) => e.is_type_mismatch(typed[j]@, types[j], d.spec_data_type()),
                None => false,
            },
            None => false,
        },
    }
}

/// Checks that the columns of `required` are present, then that the present
/// columns of `typed` have their types; a missing column is reported before
/// any type.
pub fn check_columns(cols: &Vec<Column>, required: &[&str], typed: &[&str], types: &[DataType]) -> (r: Result<
    (),
    Error,
>)
    requires
        typed@.len() == types@.len(),
    ensures
        r is Ok <==> columns_ok(cols@, required@, typed@, types@),
        r matches Err(e) ==> is_columns_error(e, cols@, required@, typed@, types@),
{
    if let Err(e) = require_columns(cols, required) {
        return Err(e);
    }
    proof {
        lemma_first_mistyped(cols@, typed@, types@, 0);
    }
    let mut i: usize = 0;
    while i < typed.len()
        invariant
            0 <= i <= typed.len(),
            typed@.len() == types@.len(),
            first_missing_from(cols@, required@, 0) is None,
            first_mistyped_from(cols@, typed@, types@, 0) == first_mistyped_from(cols@, typed@, types@, i as int),
        decreases typed.len() - i,
    {
        if let Some(d) = column_by_name(cols, typed[i]) {
            let actual = d.data_type();
            if actual != types[i] {
                return Err(
                    Error::ColumnDataTypeMismatch { name: typed[i].to_string(), expect: types[i], actual },
                );
            }
        }
        i += 1;
    }
    Ok(())
}

proof fn lemma_no_missing_from(cols: Seq<Column>, names: Seq<&str>, i: int)
    requires
        0 <= i,
        forall|j: int| 0 <= j < names.len() ==> spec_column(cols, #[trigger] names[j]@) is Some,
    ensures
        first_missing_from(cols, names, i) is None,
    decreases names.len() - i,
{
    if i < names.len() {
        lemma_no_missing_from(cols, names, i + 1);
    }
}

proof fn lemma_no_mistyped_from(cols: Seq<Column>, names: Seq<&str>, types: Seq<DataType>, i: int)
    requires
        0 <= i,
        forall|j: int|
            0 <= j < names.len() ==> (spec_column(cols, #[trigger] names[j]@) matches Some(d) ==> d.spec_data_type()
                == types[j]),
    ensures
        first_mistyped_from(cols, names, types, i) is None,
    decreases names.len() - i,
{
    if i < names.len() {
        lemma_no_mistyped_from(cols, names, types, i + 1);
    }
}

/// Columns that are all present with their types are `columns_ok`.
pub proof fn lemma_columns_ok_intro(cols: Seq<Column>, required: Seq<&str>, typed: Seq<&str>, types: Seq<DataType>)
    requires
        forall|j: int| 0 <= j < required.len() ==> spec_column(cols, #[trigger] required[j]@) is Some,
        forall|j: int|
            0 <= j < typed.len() ==> (spec_column(cols, #[trigger] typed[j]@) matches Some(d) ==> d.spec_data_type()
                == types[j]),
    ensures
        columns_ok(cols, required, typed, types),
{
    lemma_no_missing_from(cols, required, 0);
    lemma_no_mistyped_from(cols, typed, types, 0);
}
} // verus!
