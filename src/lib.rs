//! Physical expressions over columnar batches: the literal expression, the
//! scalar and columnar values it produces, and the boundary statistics that a
//! cost-based optimizer reads without touching row data.

pub mod scalar;
pub mod render;
pub mod columnar;
pub mod schema;
pub mod stats;
pub mod expr;
pub mod literal;

pub use columnar::{Array, ColumnarValue};
pub use expr::{ExprError, PhysicalExpr};
pub use literal::{lit, Literal, LiteralExprStats, LiteralValue};
pub use scalar::{DataType, ScalarValue};
pub use schema::{BatchError, Field, RecordBatch, Schema};
pub use stats::{ColumnStatistics, ExprBoundaries, PhysicalExprStats, Selectivity};
