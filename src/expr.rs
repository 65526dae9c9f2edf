use vstd::prelude::*;

use crate::columnar::{columnar_rows, columnar_type, ColumnarValue};
use crate::literal::Literal;
use crate::scalar::{is_null_value, DataType};
use crate::schema::{FieldView, RecordBatch, Schema};
use crate::stats::PhysicalExprStats;

verus! {

/// A recoverable failure of an expression.
#[derive(Clone, Debug, PartialEq, Eq)]
pub enum ExprError {
    /// The schema does not fit the expression: a field is missing, or the
    /// operand types cannot be reconciled.
    Type(String),
    /// Evaluation failed on a batch's data.
    Execution(String),
}

/// An expression of a physical plan, evaluated batch by batch.
pub trait PhysicalExpr {
    /// The estimator attached to the expression.
    type Stats: PhysicalExprStats;

    /// The type of the output over an input schema; `None` where the schema
    /// does not fit the expression.
    spec fn output_type(&self, schema: Seq<FieldView>) -> Option<DataType>;

    /// Whether the output over an input schema may hold a null.
    spec fn output_nullable(&self, schema: Seq<FieldView>) -> bool;

    /// The expression as a literal, when it is one.
    fn as_literal(&self) -> Option<&Literal>;

    /// The type of the expression's output, from the input schema alone.
    fn data_type(&self, input_schema: &Schema) -> (r: Result<DataType, ExprError>)
        ensures
            r is Ok <==> self.output_type(input_schema@) is Some,
            r matches Ok(t) ==> self.output_type(input_schema@) == Some(t),
            r matches Err(e) ==> e is Type,
    ;

    /// Whether the output may hold a null, from the input schema alone.
    fn nullable(&self, input_schema: &Schema) -> (r: Result<bool, ExprError>)
        ensures
            r is Ok <==> self.output_type(input_schema@) is Some,
            r matches Ok(b) ==> b == self.output_nullable(input_schema@),
            r matches Err(e) ==> e is Type,
    ;

    /// The output on one batch: an array with one row per row of the batch,
    /// or a scalar that stands for every row. It has the type that
    /// `data_type` gives for the batch's schema, and holds no null where
    /// `nullable` says that none occurs.
    fn evaluate(&self, batch: &RecordBatch) -> (r: Result<ColumnarValue, ExprError>)
        requires
            batch.wf(),
        ensures
            r matches Ok(ColumnarValue::Array(a)) ==> a.rows().len() == batch.row_count(),
            r matches Ok(c) ==> self.output_type(batch.schema_view()) == Some(columnar_type(c)),
            r matches Ok(c) ==> (!self.output_nullable(batch.schema_view()) ==> forall|i: int|
                0 <= i < batch.row_count() ==> !is_null_value(
                    #[trigger] columnar_rows(c, batch.row_count())[i],
                )),
            r matches Err(e) ==> e is Execution,
    ;

    /// The boundary estimator of this expression.
    fn expr_stats(&self) -> Self::Stats;

    /// The canonical text of the expression.
    fn render(&self) -> String;
}

} // verus!
