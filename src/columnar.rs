use vstd::prelude::*;

use crate::scalar::{type_of, DataType, ScalarValue};

verus! {

/// `n` copies of one value: a scalar broadcast to `n` rows.
pub open spec fn broadcast(v: ScalarValue, n: nat) -> Seq<ScalarValue> {
    Seq::new(n, |_i: int| v)
}

/// Whether every value of `rows` has type `t`.
pub open spec fn all_of_type(rows: Seq<ScalarValue>, t: DataType) -> bool {
    forall|i: int| 0 <= i < rows.len() ==> type_of(#[trigger] rows[i]) == t
}

/// A column of values that share one type; each row holds a value of that
/// type or a null of it.
#[derive(Clone, Debug, PartialEq, Eq)]
pub struct Array {
    data_type: DataType,
    values: Vec<ScalarValue>,
}

impl Array {
    /// The element type of the column.
    pub closed spec fn elem_type(&self) -> DataType {
        self.data_type
    }

    /// The rows of the column, in order.
    pub closed spec fn rows(&self) -> Seq<ScalarValue> {
        self.values@
    }

    /// Every row has the column's element type.
    pub open spec fn wf(&self) -> bool {
        all_of_type(self.rows(), self.elem_type())
    }

    /// A column of type `t` over the given rows, or `None` when a row has
    /// another type.
    pub fn try_new(t: DataType, values: Vec<ScalarValue>) -> (r: Option<Array>)
        ensures
            r is Some <==> all_of_type(values@, t),
            r matches Some(a) ==> a.wf() && a.elem_type() == t && a.rows() == values@,
    {
        let mut i: usize = 0;
        while i < values.len()
            invariant
                0 <= i <= values@.len(),
                all_of_type(values@.subrange(0, i as int), t),
            decreases values@.len() - i,
        {
            if values[i].get_datatype() != t {
                assert(values@.subrange(0, i as int + 1)[i as int] == values@[i as int]);
                return None;
            }
            assert forall|k: int| 0 <= k < i + 1 implies type_of(
                #[trigger] values@.subrange(0, i as int + 1)[k],
            ) == t by {
                if k < i {
                    assert(values@.subrange(0, i as int + 1)[k] == values@.subrange(0, i as int)[k]);
                }
            }
            i = i + 1;
        }
        assert(values@.subrange(0, values@.len() as int) =~= values@);
        Some(Array { data_type: t, values })
    }

    /// A 32-bit integer column; `None` entries are nulls.
    pub fn from_int32(items: Vec<Option<i32>>) -> (r: Array)
        ensures
            r.wf(),
            r.elem_type() == DataType::Int32,
            r.rows() == items@.map_values(|x: Option<i32>| ScalarValue::Int32(x)),
    {
        let mut values: Vec<ScalarValue> = Vec::new();
        let mut i: usize = 0;
        while i < items.len()
            invariant
                0 <= i <= items@.len(),
                values@ =~= items@.subrange(0, i as int).map_values(
                    |x: Option<i32>| ScalarValue::Int32(x),
                ),
            decreases items@.len() - i,
        {
            values.push(ScalarValue::Int32(items[i]));
            i = i + 1;
            assert(values@ =~= items@.subrange(0, i as int).map_values(
                |x: Option<i32>| ScalarValue::Int32(x),
            ));
        }
        assert(items@.subrange(0, items@.len() as int) =~= items@);
        Array { data_type: DataType::Int32, values }
    }

    /// `n` rows, each equal to `v`; the column takes `v`'s type.
    pub fn from_scalar(v: &ScalarValue, n: usize) -> (r: Array)
        ensures
            r.wf(),
            r.elem_type() == type_of(*v),
            r.rows() == broadcast(*v, n as nat),
    {
        let mut values: Vec<ScalarValue> = Vec::new();
        let mut i: usize = 0;
        while i < n
            invariant
                0 <= i <= n,
                values@ =~= broadcast(*v, i as nat),
            decreases n - i,
        {
            values.push(v.duplicate());
            i = i + 1;
            assert(values@ =~= broadcast(*v, i as nat));
        }
        Array { data_type: v.get_datatype(), values }
    }

    /// The number of rows.
    pub fn len(&self) -> (r: usize)
        ensures
            r == self.rows().len(),
    {
        self.values.len()
    }

    /// The element type of the column.
    pub fn data_type(&self) -> (r: DataType)
        ensures
            r == self.elem_type(),
    {
        self.data_type
    }

    /// The value at row `i`.
    pub fn value(&self, i: usize) -> (r: ScalarValue)
        requires
            i < self.rows().len(),
        ensures
            r == self.rows()[i as int],
    {
        self.values[i].duplicate()
    }

    /// Whether row `i` is null.
    pub fn is_null(&self, i: usize) -> (r: bool)
        requires
            i < self.rows().len(),
        ensures
            r == crate::scalar::is_null_value(self.rows()[i as int]),
    {
        self.values[i].is_null()
    }
}

/// The result of evaluating an expression on a batch: one value per row, or
/// one value that stands for every row.
#[derive(Clone, Debug, PartialEq, Eq)]
pub enum ColumnarValue {
    Array(Array),
    Scalar(ScalarValue),
}

/// The logical type of an evaluation result.
pub open spec fn columnar_type(c: ColumnarValue) -> DataType {
    match c {
        ColumnarValue::Array(a) => a.elem_type(),
        ColumnarValue::Scalar(v) => type_of(v),
    }
}

/// The rows that an evaluation result stands for in a batch of `n` rows.
pub open spec fn columnar_rows(c: ColumnarValue, n: nat) -> Seq<ScalarValue> {
    match c {
        ColumnarValue::Array(a) => a.rows(),
        ColumnarValue::Scalar(v) => broadcast(v, n),
    }
}

impl ColumnarValue {
    /// The logical type of the value: the array's element type, or the
    /// scalar's own type.
    pub fn data_type(&self) -> (r: DataType)
        ensures
            r == columnar_type(*self),
    {
        match self {
            ColumnarValue::Array(a) => a.data_type(),
            ColumnarValue::Scalar(v) => v.get_datatype(),
        }
    }

    /// The value as a column of `num_rows` rows. An array is handed back as
    /// it is and must already have that many rows; a scalar is broadcast.
    pub fn into_array(self, num_rows: usize) -> (r: Array)
        requires
            self matches ColumnarValue::Array(a) ==> a.rows().len() == num_rows,
        ensures
            r.elem_type() == columnar_type(self),
            r.rows() == columnar_rows(self, num_rows as nat),
            r.rows().len() == num_rows,
            self matches ColumnarValue::Array(a) ==> r == a,
            self matches ColumnarValue::Scalar(v) ==> r.wf(),
    {
        match self {
            ColumnarValue::Array(a) => a,
            ColumnarValue::Scalar(v) => Array::from_scalar(&v, num_rows),
        }
    }
}

} // verus!
