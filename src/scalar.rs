use vstd::prelude::*;

verus! {

/// The logical type of a value or of a column.
#[derive(Clone, Copy, Debug, PartialEq, Eq, Structural)]
pub enum DataType {
    Null,
    Boolean,
    Int8,
    Int16,
    Int32,
    Int64,
    UInt8,
    UInt16,
    UInt32,
    UInt64,
    Utf8,
}

/// One typed constant. Every variant but `Null` may hold no value (`None`),
/// and such a null still carries the variant's type.
#[derive(Clone, Debug, PartialEq, Eq)]
pub enum ScalarValue {
    Null,
    Boolean(Option<bool>),
    Int8(Option<i8>),
    Int16(Option<i16>),
    Int32(Option<i32>),
    Int64(Option<i64>),
    UInt8(Option<u8>),
    UInt16(Option<u16>),
    UInt32(Option<u32>),
    UInt64(Option<u64>),
    Utf8(Option<String>),
}

/// The type that a scalar's variant tag stands for.
pub open spec fn type_of(v: ScalarValue) -> DataType {
    match v {
        ScalarValue::Null => DataType::Null,
        ScalarValue::Boolean(_) => DataType::Boolean,
        ScalarValue::Int8(_) => DataType::Int8,
        ScalarValue::Int16(_) => DataType::Int16,
        ScalarValue::Int32(_) => DataType::Int32,
        ScalarValue::Int64(_) => DataType::Int64,
        ScalarValue::UInt8(_) => DataType::UInt8,
        ScalarValue::UInt16(_) => DataType::UInt16,
        ScalarValue::UInt32(_) => DataType::UInt32,
        ScalarValue::UInt64(_) => DataType::UInt64,
        ScalarValue::Utf8(_) => DataType::Utf8,
    }
}

/// Whether a scalar holds no value.
pub open spec fn is_null_value(v: ScalarValue) -> bool {
    match v {
        ScalarValue::Null => true,
        ScalarValue::Boolean(x) => x is None,
        ScalarValue::Int8(x) => x is None,
        ScalarValue::Int16(x) => x is None,
        ScalarValue::Int32(x) => x is None,
        ScalarValue::Int64(x) => x is None,
        ScalarValue::UInt8(x) => x is None,
        ScalarValue::UInt16(x) => x is None,
        ScalarValue::UInt32(x) => x is None,
        ScalarValue::UInt64(x) => x is None,
        ScalarValue::Utf8(x) => x is None,
    }
}

/// The null of a given type.
pub open spec fn null_of(t: DataType) -> ScalarValue {
    match t {
        DataType::Null => ScalarValue::Null,
        DataType::Boolean => ScalarValue::Boolean(None),
        DataType::Int8 => ScalarValue::Int8(None),
        DataType::Int16 => ScalarValue::Int16(None),
        DataType::Int32 => ScalarValue::Int32(None),
        DataType::Int64 => ScalarValue::Int64(None),
        DataType::UInt8 => ScalarValue::UInt8(None),
        DataType::UInt16 => ScalarValue::UInt16(None),
        DataType::UInt32 => ScalarValue::UInt32(None),
        DataType::UInt64 => ScalarValue::UInt64(None),
        DataType::Utf8 => ScalarValue::Utf8(None),
    }
}

impl ScalarValue {
    /// The logical type of this value, fixed by its variant.
    pub fn get_datatype(&self) -> (r: DataType)
        ensures
            r == type_of(*self),
    {
        match self {
            ScalarValue::Null => DataType::Null,
            ScalarValue::Boolean(_) => DataType::Boolean,
            ScalarValue::Int8(_) => DataType::Int8,
            ScalarValue::Int16(_) => DataType::Int16,
            ScalarValue::Int32(_) => DataType::Int32,
            ScalarValue::Int64(_) => DataType::Int64,
            ScalarValue::UInt8(_) => DataType::UInt8,
            ScalarValue::UInt16(_) => DataType::UInt16,
            ScalarValue::UInt32(_) => DataType::UInt32,
            ScalarValue::UInt64(_) => DataType::UInt64,
            ScalarValue::Utf8(_) => DataType::Utf8,
        }
    }

    /// Whether this value is a null of its type.
    pub fn is_null(&self) -> (r: bool)
        ensures
            r == is_null_value(*self),
    {
        match self {
            ScalarValue::Null => true,
            ScalarValue::Boolean(x) => x.is_none(),
            ScalarValue::Int8(x) => x.is_none(),
            ScalarValue::Int16(x) => x.is_none(),
            ScalarValue::Int32(x) => x.is_none(),
            ScalarValue::Int64(x) => x.is_none(),
            ScalarValue::UInt8(x) => x.is_none(),
            ScalarValue::UInt16(x) => x.is_none(),
            ScalarValue::UInt32(x) => x.is_none(),
            ScalarValue::UInt64(x) => x.is_none(),
            ScalarValue::Utf8(x) => x.is_none(),
        }
    }

    /// An identical copy of this value.
    pub fn duplicate(&self) -> (r: ScalarValue)
        ensures
            r == *self,
    {
        match self {
            ScalarValue::Utf8(Some(s)) => ScalarValue::Utf8(Some(s.clone())),
            ScalarValue::Utf8(None) => ScalarValue::Utf8(None),
            ScalarValue::Null => ScalarValue::Null,
            ScalarValue::Boolean(x) => ScalarValue::Boolean(*x),
            ScalarValue::Int8(x) => ScalarValue::Int8(*x),
            ScalarValue::Int16(x) => ScalarValue::Int16(*x),
            ScalarValue::Int32(x) => ScalarValue::Int32(*x),
            ScalarValue::Int64(x) => ScalarValue::Int64(*x),
            ScalarValue::UInt8(x) => ScalarValue::UInt8(*x),
            ScalarValue::UInt16(x) => ScalarValue::UInt16(*x),
            ScalarValue::UInt32(x) => ScalarValue::UInt32(*x),
            ScalarValue::UInt64(x) => ScalarValue::UInt64(*x),
        }
    }

    /// The null of the given type.
    pub fn new_null(t: DataType) -> (r: ScalarValue)
        ensures
            r == null_of(t),
    {
        match t {
            DataType::Null => ScalarValue::Null,
            DataType::Boolean => ScalarValue::Boolean(None),
            DataType::Int8 => ScalarValue::Int8(None),
            DataType::Int16 => ScalarValue::Int16(None),
            DataType::Int32 => ScalarValue::Int32(None),
            DataType::Int64 => ScalarValue::Int64(None),
            DataType::UInt8 => ScalarValue::UInt8(None),
            DataType::UInt16 => ScalarValue::UInt16(None),
            DataType::UInt32 => ScalarValue::UInt32(None),
            DataType::UInt64 => ScalarValue::UInt64(None),
            DataType::Utf8 => ScalarValue::Utf8(None),
        }
    }
}

} // verus!
