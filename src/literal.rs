use vstd::prelude::*;

use crate::columnar::{columnar_rows, columnar_type, ColumnarValue};
use crate::expr::{ExprError, PhysicalExpr};
use crate::render::scalar_text;
use crate::scalar::{is_null_value, type_of, DataType, ScalarValue};
use crate::schema::{FieldView, RecordBatch, Schema};
use crate::stats::{lemma_bounds_ordered_reflexive, ColumnStatistics, ExprBoundaries, PhysicalExprStats};

verus! {

/// An expression that is one constant value, whatever the rows.
#[derive(Clone, Debug, PartialEq, Eq)]
pub struct Literal {
    value: ScalarValue,
}

impl View for Literal {
    type V = ScalarValue;

    closed spec fn view(&self) -> ScalarValue {
        self.value
    }
}

impl Literal {
    pub fn new(value: ScalarValue) -> (r: Literal)
        ensures
            r@ == value,
    {
        Literal { value }
    }

    pub fn value(&self) -> (r: &ScalarValue)
        ensures
            *r == self@,
    {
        &self.value
    }
}

impl PhysicalExpr for Literal {
    type Stats = LiteralExprStats;

    open spec fn output_type(&self, schema: Seq<FieldView>) -> Option<DataType> {
        Some(type_of(self@))
    }

    open spec fn output_nullable(&self, schema: Seq<FieldView>) -> bool {
        is_null_value(self@)
    }

    fn as_literal(&self) -> (r: Option<&Literal>)
        ensures
            r == Some(self),
    {
        Some(self)
    }

    fn data_type(&self, input_schema: &Schema) -> (r: Result<DataType, ExprError>)
        ensures
            r == Ok::<DataType, ExprError>(type_of(self@)),
    {
        Ok(self.value.get_datatype())
    }

    fn nullable(&self, input_schema: &Schema) -> (r: Result<bool, ExprError>)
        ensures
            r == Ok::<bool, ExprError>(is_null_value(self@)),
    {
        Ok(self.value.is_null())
    }

    fn evaluate(&self, batch: &RecordBatch) -> (r: Result<ColumnarValue, ExprError>)
        ensures
            r == Ok::<ColumnarValue, ExprError>(literal_output(self@)),
    {
        Ok(ColumnarValue::Scalar(self.value.duplicate()))
    }

    fn expr_stats(&self) -> (r: LiteralExprStats)
        ensures
            r@ == self@,
    {
        LiteralExprStats { value: self.value.duplicate() }
    }

    fn render(&self) -> (r: String)
        ensures
            r@ == scalar_text(self@),
    {
        self.value.render()
    }
}

/// What evaluating a literal of value `v` gives on any batch.
pub open spec fn literal_output(v: ScalarValue) -> ColumnarValue {
    ColumnarValue::Scalar(v)
}

/// Evaluating a literal on a batch of `n` rows and materializing the result
/// for those rows gives `n` rows, each equal to the literal's value (so each
/// null exactly when the value is null), of the literal's type.
pub proof fn law_literal_rows(l: Literal, batch: RecordBatch)
    ensures
        columnar_rows(literal_output(l@), batch.row_count()).len() == batch.row_count(),
        forall|i: int|
            0 <= i < batch.row_count() ==> {
                &&& #[trigger] columnar_rows(literal_output(l@), batch.row_count())[i] == l@
                &&& is_null_value(columnar_rows(literal_output(l@), batch.row_count())[i])
                    == is_null_value(l@)
            },
        columnar_type(literal_output(l@)) == type_of(l@),
{
}

/// A literal's estimate is well formed whatever its value: both bounds are
/// the value, it has one distinct value and no selectivity.
pub proof fn law_literal_boundaries(v: ScalarValue)
    ensures
        literal_boundaries(v).wf(),
        literal_boundaries(v).min_value == v,
        literal_boundaries(v).max_value == v,
        literal_boundaries(v).distinct_count == Some(1usize),
        literal_boundaries(v).selectivity is None,
{
    lemma_bounds_ordered_reflexive(v);
}

/// The estimate of a constant: exactly its own value, once.
pub open spec fn literal_boundaries(v: ScalarValue) -> ExprBoundaries {
    ExprBoundaries { min_value: v, max_value: v, distinct_count: Some(1), selectivity: None }
}

/// The estimator of a literal; it holds the literal's value.
#[derive(Clone, Debug, PartialEq, Eq)]
pub struct LiteralExprStats {
    value: ScalarValue,
}

impl View for LiteralExprStats {
    type V = ScalarValue;

    closed spec fn view(&self) -> ScalarValue {
        self.value
    }
}

impl PhysicalExprStats for LiteralExprStats {
    /// The literal's value is both bounds and its only distinct value; the
    /// column statistics play no part.
    fn boundaries(&self, columns: &[ColumnStatistics]) -> (r: Option<ExprBoundaries>)
        ensures
            r == Some(literal_boundaries(self@)),
    {
        proof {
            lemma_bounds_ordered_reflexive(self.value);
        }
        Some(ExprBoundaries::new(self.value.duplicate(), self.value.duplicate(), Some(1)))
    }
}

/// A Rust value that can be written as a constant of the expression
/// language.
pub trait LiteralValue: Sized {
    /// The scalar that the value stands for.
    spec fn as_scalar(&self) -> ScalarValue;

    fn to_scalar(self) -> (r: ScalarValue)
        ensures
            r == self.as_scalar(),
    ;
}

impl LiteralValue for ScalarValue {
    open spec fn as_scalar(&self) -> ScalarValue {
        *self
    }

    fn to_scalar(self) -> (r: ScalarValue) {
        self
    }
}

impl LiteralValue for bool {
    open spec fn as_scalar(&self) -> ScalarValue {
        ScalarValue::Boolean(Some(*self))
    }

    fn to_scalar(self) -> (r: ScalarValue) {
        ScalarValue::Boolean(Some(self))
    }
}

impl LiteralValue for String {
    open spec fn as_scalar(&self) -> ScalarValue {
        ScalarValue::Utf8(Some(*self))
    }

    fn to_scalar(self) -> (r: ScalarValue) {
        ScalarValue::Utf8(Some(self))
    }
}

impl LiteralValue for i8 {
    open spec fn as_scalar(&self) -> ScalarValue {
        ScalarValue::Int8(Some(*self))
    }

    fn to_scalar(self) -> (r: ScalarValue) {
        ScalarValue::Int8(Some(self))
    }
}

impl LiteralValue for i16 {
    open spec fn as_scalar(&self) -> ScalarValue {
        ScalarValue::Int16(Some(*self))
    }

    fn to_scalar(self) -> (r: ScalarValue) {
        ScalarValue::Int16(Some(self))
    }
}

impl LiteralValue for i32 {
    open spec fn as_scalar(&self) -> ScalarValue {
        ScalarValue::Int32(Some(*self))
    }

    fn to_scalar(self) -> (r: ScalarValue) {
        ScalarValue::Int32(Some(self))
    }
}

impl LiteralValue for i64 {
    open spec fn as_scalar(&self) -> ScalarValue {
        ScalarValue::Int64(Some(*self))
    }

    fn to_scalar(self) -> (r: ScalarValue) {
        ScalarValue::Int64(Some(self))
    }
}

impl LiteralValue for u8 {
    open spec fn as_scalar(&self) -> ScalarValue {
        ScalarValue::UInt8(Some(*self))
    }

    fn to_scalar(self) -> (r: ScalarValue) {
        ScalarValue::UInt8(Some(self))
    }
}

impl LiteralValue for u16 {
    open spec fn as_scalar(&self) -> ScalarValue {
        ScalarValue::UInt16(Some(*self))
    }

    fn to_scalar(self) -> (r: ScalarValue) {
        ScalarValue::UInt16(Some(self))
    }
}

impl LiteralValue for u32 {
    open spec fn as_scalar(&self) -> ScalarValue {
        ScalarValue::UInt32(Some(*self))
    }

    fn to_scalar(self) -> (r: ScalarValue) {
        ScalarValue::UInt32(Some(self))
    }
}

impl LiteralValue for u64 {
    open spec fn as_scalar(&self) -> ScalarValue {
        ScalarValue::UInt64(Some(*self))
    }

    fn to_scalar(self) -> (r: ScalarValue) {
        ScalarValue::UInt64(Some(self))
    }
}

/// The literal expression of a value.
pub fn lit<T: LiteralValue>(value: T) -> (r: Literal)
    ensures
        r@ == value.as_scalar(),
{
    Literal::new(value.to_scalar())
}

} // verus!
