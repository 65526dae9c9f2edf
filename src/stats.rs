use vstd::prelude::*;

use crate::scalar::{is_null_value, type_of, ScalarValue};

verus! {

/// Lexicographic order on character sequences, by code point.
pub open spec fn chars_le(a: Seq<char>, b: Seq<char>) -> bool
    decreases a.len(),
{
    if a.len() == 0 {
        true
    } else if b.len() == 0 {
        false
    } else if a[0] != b[0] {
        (a[0] as u32) < (b[0] as u32)
    } else {
        chars_le(a.drop_first(), b.drop_first())
    }
}

/// The natural order of two non-null values of one type: `false < true`,
/// integers by value, strings lexicographically. Values of different types,
/// or nulls, are not ordered.
pub open spec fn scalar_le(a: ScalarValue, b: ScalarValue) -> bool {
    match (a, b) {
        (ScalarValue::Boolean(Some(x)), ScalarValue::Boolean(Some(y))) => !x || y,
        (ScalarValue::Int8(Some(x)), ScalarValue::Int8(Some(y))) => x <= y,
        (ScalarValue::Int16(Some(x)), ScalarValue::Int16(Some(y))) => x <= y,
        (ScalarValue::Int32(Some(x)), ScalarValue::Int32(Some(y))) => x <= y,
        (ScalarValue::Int64(Some(x)), ScalarValue::Int64(Some(y))) => x <= y,
        (ScalarValue::UInt8(Some(x)), ScalarValue::UInt8(Some(y))) => x <= y,
        (ScalarValue::UInt16(Some(x)), ScalarValue::UInt16(Some(y))) => x <= y,
        (ScalarValue::UInt32(Some(x)), ScalarValue::UInt32(Some(y))) => x <= y,
        (ScalarValue::UInt64(Some(x)), ScalarValue::UInt64(Some(y))) => x <= y,
        (ScalarValue::Utf8(Some(x)), ScalarValue::Utf8(Some(y))) => chars_le(x@, y@),
        _ => false,
    }
}

/// When both bounds hold a value, they have one type and the lower one is
/// at most the upper one.
pub open spec fn bounds_ordered(min: ScalarValue, max: ScalarValue) -> bool {
    (!is_null_value(min) && !is_null_value(max)) ==> (type_of(min) == type_of(max) && scalar_le(
        min,
        max,
    ))
}

/// Every sequence is at most itself.
pub proof fn lemma_chars_le_reflexive(a: Seq<char>)
    ensures
        chars_le(a, a),
    decreases a.len(),
{
    if a.len() > 0 {
        lemma_chars_le_reflexive(a.drop_first());
    }
}

/// Every non-null value is at most itself, so a single value bounds itself.
pub proof fn lemma_bounds_ordered_reflexive(v: ScalarValue)
    ensures
        bounds_ordered(v, v),
{
    if let ScalarValue::Utf8(Some(s)) = v {
        lemma_chars_le_reflexive(s@);
    }
}

/// A summary of one column; `None` in a field means that it is unknown.
#[derive(Clone, Debug, PartialEq, Eq)]
pub struct ColumnStatistics {
    pub null_count: Option<usize>,
    pub max_value: Option<ScalarValue>,
    pub min_value: Option<ScalarValue>,
    pub distinct_count: Option<usize>,
}

/// A fraction of rows, `retained / total`, between zero and one.
#[derive(Clone, Copy, Debug, PartialEq, Eq, Structural)]
pub struct Selectivity {
    retained: u64,
    total: u64,
}

impl Selectivity {
    pub closed spec fn numerator(&self) -> nat {
        self.retained as nat
    }

    pub closed spec fn denominator(&self) -> nat {
        self.total as nat
    }

    /// The fraction lies in [0, 1] and has a positive denominator.
    pub open spec fn wf(&self) -> bool {
        0 < self.denominator() && self.numerator() <= self.denominator()
    }

    /// The fraction `retained / total`, or `None` when it is not in [0, 1].
    pub fn new(retained: u64, total: u64) -> (r: Option<Selectivity>)
        ensures
            r is Some <==> (0 < total && retained <= total),
            r matches Some(s) ==> s.wf() && s.numerator() == retained && s.denominator() == total,
    {
        if 0 < total && retained <= total {
            Some(Selectivity { retained, total })
        } else {
            None
        }
    }

    pub fn retained(&self) -> (r: u64)
        ensures
            r == self.numerator(),
    {
        self.retained
    }

    pub fn total(&self) -> (r: u64)
        ensures
            r == self.denominator(),
    {
        self.total
    }
}

/// An estimate of an expression's output: its range, how many distinct
/// values it takes and, for a predicate, the fraction of rows it keeps.
#[derive(Clone, Debug, PartialEq, Eq)]
pub struct ExprBoundaries {
    pub min_value: ScalarValue,
    pub max_value: ScalarValue,
    pub distinct_count: Option<usize>,
    pub selectivity: Option<Selectivity>,
}

impl ExprBoundaries {
    /// The estimate's invariant: the bounds are ordered and the selectivity,
    /// when present, is a fraction in [0, 1].
    pub open spec fn wf(&self) -> bool {
        &&& bounds_ordered(self.min_value, self.max_value)
        &&& self.selectivity matches Some(s) ==> s.wf()
    }

    /// Bounds without a selectivity.
    pub fn new(min_value: ScalarValue, max_value: ScalarValue, distinct_count: Option<usize>) -> (r:
        ExprBoundaries)
        requires
            bounds_ordered(min_value, max_value),
        ensures
            r.wf(),
            r == (ExprBoundaries { min_value, max_value, distinct_count, selectivity: None }),
    {
        ExprBoundaries { min_value, max_value, distinct_count, selectivity: None }
    }
}

/// Estimates an expression's output from the statistics of its input
/// columns alone, without reading any row.
pub trait PhysicalExprStats {
    /// The estimate, given one entry per column of the input schema, in
    /// schema order; `None` when the statistics do not bound the output.
    fn boundaries(&self, columns: &[ColumnStatistics]) -> (r: Option<ExprBoundaries>)
        ensures
            r matches Some(b) ==> b.wf(),
    ;
}

} // verus!
