use physical_literal::{
    lit, Array, BatchError, ColumnStatistics, ColumnarValue, DataType, ExprBoundaries, Field,
    Literal, PhysicalExpr, PhysicalExprStats, RecordBatch, ScalarValue, Schema, Selectivity,
};

fn int32_batch() -> RecordBatch {
    let schema = Schema::new(vec![Field::new("a", DataType::Int32, true)]);
    let a = Array::from_int32(vec![Some(1), None, Some(3), Some(4), Some(5)]);
    RecordBatch::try_new(schema, vec![a]).unwrap()
}

#[test]
fn literal_i32() {
    // an arbitrary record batch
    let batch = int32_batch();

    // create and evaluate a literal expression
    let literal_expr = lit(42i32);
    assert_eq!("42", literal_expr.render());

    let literal_array = literal_expr.evaluate(&batch).unwrap().into_array(batch.num_rows());
    assert_eq!(literal_array.data_type(), DataType::Int32);

    // the contents are unrelated to the batch's, but for the number of rows
    assert_eq!(literal_array.len(), 5);
    for i in 0..literal_array.len() {
        assert_eq!(literal_array.value(i), ScalarValue::Int32(Some(42)));
    }
}

#[test]
fn literal_stats() {
    let literal_expr = lit(42i32);
    let stats = literal_expr.expr_stats();
    let boundaries = stats.boundaries(&[]).unwrap();
    assert_eq!(boundaries.min_value, ScalarValue::Int32(Some(42)));
    assert_eq!(boundaries.max_value, ScalarValue::Int32(Some(42)));
    assert_eq!(boundaries.distinct_count, Some(1));
    assert_eq!(boundaries.selectivity, None);
}

#[test]
fn literal_evaluates_to_scalar() {
    let batch = int32_batch();
    let result = lit(42i32).evaluate(&batch).unwrap();
    assert_eq!(result, ColumnarValue::Scalar(ScalarValue::Int32(Some(42))));
    assert_eq!(result.data_type(), DataType::Int32);
}

#[test]
fn null_boolean_literal() {
    let batch = int32_batch();
    let expr = Literal::new(ScalarValue::Boolean(None));
    assert_eq!(expr.nullable(batch.schema()), Ok(true));
    assert_eq!(expr.data_type(batch.schema()), Ok(DataType::Boolean));
    let result = expr.evaluate(&batch).unwrap();
    assert_eq!(result, ColumnarValue::Scalar(ScalarValue::Boolean(None)));
    let array = result.into_array(3);
    assert_eq!(array.len(), 3);
    assert_eq!(array.data_type(), DataType::Boolean);
    for i in 0..3 {
        assert!(array.is_null(i));
        assert_eq!(array.value(i), ScalarValue::Boolean(None));
    }
    assert_eq!(expr.render(), "NULL");
}

#[test]
fn into_array_of_no_rows() {
    let array = lit(42i32).evaluate(&int32_batch()).unwrap().into_array(0);
    assert_eq!(array.len(), 0);
    let array = ColumnarValue::Scalar(ScalarValue::Null).into_array(0);
    assert_eq!(array.len(), 0);
    assert_eq!(array.data_type(), DataType::Null);
}

#[test]
fn into_array_keeps_an_array() {
    let a = Array::from_int32(vec![Some(7), None]);
    let out = ColumnarValue::Array(a.clone()).into_array(2);
    assert_eq!(out, a);
    assert_eq!(ColumnarValue::Array(a).data_type(), DataType::Int32);
}

#[test]
fn literal_type_ignores_schema() {
    let empty = Schema::empty();
    assert_eq!(empty.num_fields(), 0);
    let other = Schema::new(vec![
        Field::new("x", DataType::Utf8, false),
        Field::new("y", DataType::Boolean, true),
    ]);
    let expr = lit(7u16);
    assert_eq!(expr.data_type(&empty), Ok(DataType::UInt16));
    assert_eq!(expr.data_type(&other), Ok(DataType::UInt16));
    assert_eq!(lit(true).data_type(&empty), Ok(DataType::Boolean));
    assert_eq!(lit(String::from("s")).data_type(&other), Ok(DataType::Utf8));
    assert_eq!(Literal::new(ScalarValue::Null).data_type(&empty), Ok(DataType::Null));
}

#[test]
fn literal_nullable_iff_null() {
    let empty = Schema::empty();
    assert_eq!(lit(0i64).nullable(&empty), Ok(false));
    assert_eq!(lit(false).nullable(&empty), Ok(false));
    assert_eq!(Literal::new(ScalarValue::Int64(None)).nullable(&empty), Ok(true));
    assert_eq!(Literal::new(ScalarValue::Null).nullable(&empty), Ok(true));
    assert_eq!(Literal::new(ScalarValue::Utf8(None)).nullable(&empty), Ok(true));
}

#[test]
fn literal_boundaries_ignore_column_statistics() {
    let stats = vec![ColumnStatistics {
        null_count: Some(1),
        max_value: Some(ScalarValue::Int32(Some(5))),
        min_value: Some(ScalarValue::Int32(Some(1))),
        distinct_count: Some(4),
    }];
    let estimator = lit(String::from("abc")).expr_stats();
    let with_stats = estimator.boundaries(&stats).unwrap();
    let without = estimator.boundaries(&[]).unwrap();
    assert_eq!(with_stats, without);
    assert_eq!(with_stats.min_value, ScalarValue::Utf8(Some(String::from("abc"))));
    assert_eq!(with_stats.max_value, ScalarValue::Utf8(Some(String::from("abc"))));
    assert_eq!(with_stats.distinct_count, Some(1));
    assert_eq!(with_stats.selectivity, None);

    let null_stats = Literal::new(ScalarValue::Null).expr_stats().boundaries(&stats).unwrap();
    assert_eq!(null_stats.min_value, ScalarValue::Null);
    assert_eq!(null_stats.distinct_count, Some(1));
}

#[test]
fn rendering() {
    assert_eq!(lit(42i32).render(), "42");
    assert_eq!(lit(0u8).render(), "0");
    assert_eq!(lit(-305i16).render(), "-305");
    assert_eq!(lit(i64::MIN).render(), "-9223372036854775808");
    assert_eq!(lit(u64::MAX).render(), "18446744073709551615");
    assert_eq!(lit(true).render(), "true");
    assert_eq!(lit(false).render(), "false");
    assert_eq!(lit(String::from("hello")).render(), "hello");
    assert_eq!(Literal::new(ScalarValue::UInt32(None)).render(), "NULL");
    assert_eq!(ScalarValue::Int8(Some(-8)).render(), "-8");
}

#[test]
fn as_literal_gives_the_literal() {
    let expr = lit(3u32);
    let found = expr.as_literal().unwrap();
    assert_eq!(found.value(), &ScalarValue::UInt32(Some(3)));
}

#[test]
fn scalar_type_and_nulls() {
    assert_eq!(ScalarValue::Int8(Some(1)).get_datatype(), DataType::Int8);
    assert_eq!(ScalarValue::Utf8(None).get_datatype(), DataType::Utf8);
    assert!(ScalarValue::Null.is_null());
    assert!(!ScalarValue::UInt64(Some(0)).is_null());
    assert_eq!(ScalarValue::new_null(DataType::Int16), ScalarValue::Int16(None));
    let s = ScalarValue::Utf8(Some(String::from("x")));
    assert_eq!(s.duplicate(), s);
}

#[test]
fn batch_accepts_matching_columns() {
    let batch = int32_batch();
    assert_eq!(batch.num_rows(), 5);
    assert_eq!(batch.num_columns(), 1);
    assert_eq!(batch.column(0).len(), 5);
    assert!(batch.column(0).is_null(1));
    assert_eq!(batch.schema().field(0).name(), "a");
    assert_eq!(batch.schema().field(0).data_type(), DataType::Int32);
    assert!(batch.schema().field(0).is_nullable());
}

#[test]
fn batch_errors() {
    let one = || Schema::new(vec![Field::new("a", DataType::Int32, true)]);
    let col = || Array::from_int32(vec![Some(1), Some(2)]);
    assert_eq!(
        RecordBatch::try_new(one(), vec![col(), col()]),
        Err(BatchError::ColumnCountMismatch)
    );
    assert_eq!(RecordBatch::try_new(Schema::empty(), vec![]), Err(BatchError::NoColumns));
    let strict = Schema::new(vec![Field::new("a", DataType::Int32, false)]);
    assert_eq!(
        RecordBatch::try_new(strict, vec![Array::from_int32(vec![None])]),
        Err(BatchError::NullInNonNullable)
    );
    let two = Schema::new(vec![
        Field::new("a", DataType::Int32, true),
        Field::new("b", DataType::Int32, true),
    ]);
    assert_eq!(
        RecordBatch::try_new(two, vec![col(), Array::from_int32(vec![Some(1)])]),
        Err(BatchError::LengthMismatch)
    );
    let wrong = Schema::new(vec![Field::new("a", DataType::Int64, true)]);
    assert_eq!(RecordBatch::try_new(wrong, vec![col()]), Err(BatchError::TypeMismatch));
}

#[test]
fn array_try_new_checks_types() {
    let ok = Array::try_new(
        DataType::Boolean,
        vec![ScalarValue::Boolean(Some(true)), ScalarValue::Boolean(None)],
    )
    .unwrap();
    assert_eq!(ok.len(), 2);
    assert_eq!(ok.value(0), ScalarValue::Boolean(Some(true)));
    assert!(ok.is_null(1));
    assert!(Array::try_new(
        DataType::Boolean,
        vec![ScalarValue::Boolean(Some(true)), ScalarValue::Int8(Some(1))]
    )
    .is_none());
    assert_eq!(Array::try_new(DataType::Utf8, vec![]).unwrap().len(), 0);
}

#[test]
fn broadcast_from_scalar() {
    let a = Array::from_scalar(&ScalarValue::UInt8(Some(9)), 4);
    assert_eq!(a.len(), 4);
    assert_eq!(a.data_type(), DataType::UInt8);
    for i in 0..4 {
        assert_eq!(a.value(i), ScalarValue::UInt8(Some(9)));
        assert!(!a.is_null(i));
    }
}

#[test]
fn selectivity_is_a_fraction() {
    let s = Selectivity::new(1, 4).unwrap();
    assert_eq!((s.retained(), s.total()), (1, 4));
    assert!(Selectivity::new(5, 4).is_none());
    assert!(Selectivity::new(0, 0).is_none());
    assert!(Selectivity::new(0, 1).is_some());
}

#[test]
fn boundaries_new_has_no_selectivity() {
    let b = ExprBoundaries::new(ScalarValue::Int32(Some(1)), ScalarValue::Int32(Some(9)), Some(3));
    assert_eq!(b.min_value, ScalarValue::Int32(Some(1)));
    assert_eq!(b.max_value, ScalarValue::Int32(Some(9)));
    assert_eq!(b.distinct_count, Some(3));
    assert_eq!(b.selectivity, None);
}
