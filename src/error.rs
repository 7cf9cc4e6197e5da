use vstd::prelude::*;

verus! {

/// Logical type of a column, as reported when a column has an unexpected type.
#[derive(Clone, Copy, Debug, PartialEq, Eq, Structural)]
pub enum DataType {
    Boolean,
    Int8,
    Int16,
    Int32,
    Int64,
    UInt8,
    UInt16,
    UInt32,
    UInt64,
    Float32,
    Float64,
    Utf8,
    Binary,
    TimestampNanosecond,
    Struct,
    List,
    Dictionary,
    /// A type that no table of this library has.
    Other,
}

/// Everything that can make the decoding of a batch fail.
#[derive(Debug)]
pub enum Error {
    /// A required column is absent from a record batch.
    ColumnNotFound { name: String },
    /// A column exists but holds another logical type.
    ColumnDataTypeMismatch { name: String, expect: DataType, actual: DataType },
    /// The payload type is unknown, or is not a metrics main table.
    UnsupportedPayloadType { actual: i32 },
    /// The batch carries no payload.
    EmptyBatch,
    /// The IPC stream reader refused the initial bytes of a schema.
    BuildStreamReader { message: String },
    /// The IPC stream reader failed while reading a record batch.
    ReadRecordBatch { message: String },
    /// The summary `quantile` column is not a list of `{f64, f64}` structs.
    InvalidQuantileType { message: String },
    /// A number data point row holds both an integer and a double value.
    ConflictingNumberValue,
    /// The `metric_type` column holds a value outside `0..=5`.
    UnrecognizedMetricType { metric_type: i32 },
    /// The `metric_type` column holds `0`.
    EmptyMetricType,
    /// No main metrics table was found in the batch.
    MetricRecordNotFound,
}

impl DataType {
    /// The name of the type, for messages.
    pub(crate) fn name(&self) -> &'static str {
        match self {
            DataType::Boolean => "Boolean",
            DataType::Int8 => "Int8",
            DataType::Int16 => "Int16",
            DataType::Int32 => "Int32",
            DataType::Int64 => "Int64",
            DataType::UInt8 => "UInt8",
            DataType::UInt16 => "UInt16",
            DataType::UInt32 => "UInt32",
            DataType::UInt64 => "UInt64",
            DataType::Float32 => "Float32",
            DataType::Float64 => "Float64",
            DataType::Utf8 => "Utf8",
            DataType::Binary => "Binary",
            DataType::TimestampNanosecond => "Timestamp(Nanosecond)",
            DataType::Struct => "Struct",
            DataType::List => "List",
            DataType::Dictionary => "Dictionary",
            DataType::Other => "Other",
        }
    }
}

impl Error {
    pub open spec fn is_column_not_found(self, name: Seq<char>) -> bool {
        self matches Error::ColumnNotFound { name: n } && n@ == name
    }

    pub open spec fn is_type_mismatch(self, name: Seq<char>, expect: DataType, actual: DataType) -> bool {
        self matches Error::ColumnDataTypeMismatch { name: n, expect: e, actual: a } && n@ == name
            && e == expect && a == actual
    }

    /// Whether the error is one that reading a table can give.
    pub open spec fn is_table_error(self) -> bool {
        ||| self is ColumnNotFound
        ||| self is ColumnDataTypeMismatch
        ||| self is InvalidQuantileType
        ||| self is ConflictingNumberValue
    }

    pub open spec fn is_invalid_quantile_type(self) -> bool {
        self is InvalidQuantileType
    }
}

} // verus!
