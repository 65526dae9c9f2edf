use vstd::prelude::*;

use crate::columnar::Array;
use crate::scalar::{is_null_value, DataType};

verus! {

/// What a field descriptor says: a name, a type and whether nulls may occur.
pub ghost struct FieldView {
    pub name: Seq<char>,
    pub data_type: DataType,
    pub nullable: bool,
}

/// A column descriptor of a schema.
#[derive(Clone, Debug, PartialEq, Eq)]
pub struct Field {
    name: String,
    data_type: DataType,
    nullable: bool,
}

impl View for Field {
    type V = FieldView;

    closed spec fn view(&self) -> FieldView {
        FieldView { name: self.name@, data_type: self.data_type, nullable: self.nullable }
    }
}

impl Field {
    pub fn new(name: &str, data_type: DataType, nullable: bool) -> (r: Field)
        ensures
            r@ == (FieldView { name: name@, data_type, nullable }),
    {
        Field { name: name.to_owned(), data_type, nullable }
    }

    pub fn name(&self) -> (r: &String)
        ensures
            r@ == self@.name,
    {
        &self.name
    }

    pub fn data_type(&self) -> (r: DataType)
        ensures
            r == self@.data_type,
    {
        self.data_type
    }

    pub fn is_nullable(&self) -> (r: bool)
        ensures
            r == self@.nullable,
    {
        self.nullable
    }
}

/// An ordered sequence of field descriptors; the order is the column order
/// of every batch built against it.
#[derive(Clone, Debug, PartialEq, Eq)]
pub struct Schema {
    fields: Vec<Field>,
}

impl View for Schema {
    type V = Seq<FieldView>;

    closed spec fn view(&self) -> Seq<FieldView> {
        self.fields@.map_values(|f: Field| f@)
    }
}

impl Schema {
    pub fn new(fields: Vec<Field>) -> (r: Schema)
        ensures
            r@ == fields@.map_values(|f: Field| f@),
    {
        Schema { fields }
    }

    /// The schema with no fields.
    pub fn empty() -> (r: Schema)
        ensures
            r@.len() == 0,
    {
        let r = Schema { fields: Vec::new() };
        assert(r@ =~= Seq::<FieldView>::empty());
        r
    }

    pub fn num_fields(&self) -> (r: usize)
        ensures
            r == self@.len(),
    {
        self.fields.len()
    }

    pub fn field(&self, i: usize) -> (r: &Field)
        requires
            i < self@.len(),
        ensures
            r@ == self@[i as int],
    {
        &self.fields[i]
    }
}

/// Why a set of columns does not make a batch.
#[derive(Clone, Copy, Debug, PartialEq, Eq, Structural)]
pub enum BatchError {
    /// The number of columns differs from the number of fields.
    ColumnCountMismatch,
    /// There is no column to take the row count from.
    NoColumns,
    /// A column holds a null where its field admits none.
    NullInNonNullable,
    /// The columns do not all have the same number of rows.
    LengthMismatch,
    /// A column's type differs from its field's type.
    TypeMismatch,
}

/// Whether some row is null.
pub open spec fn has_null(a: Array) -> bool {
    exists|j: int| 0 <= j < a.rows().len() && is_null_value(#[trigger] a.rows()[j])
}

/// Column `i` holds a null that its field forbids.
pub open spec fn forbidden_null(fields: Seq<FieldView>, cols: Seq<Array>, i: int) -> bool {
    !fields[i].nullable && has_null(cols[i])
}

/// Column `i` does not have as many rows as the first.
pub open spec fn length_differs(cols: Seq<Array>, i: int) -> bool {
    cols[i].rows().len() != cols[0].rows().len()
}

/// Column `i` does not have its field's type.
pub open spec fn type_differs(fields: Seq<FieldView>, cols: Seq<Array>, i: int) -> bool {
    cols[i].elem_type() != fields[i].data_type
}

/// The first rule that the columns break against the fields, in the order
/// the rules are tested; `None` when they make a batch.
pub open spec fn batch_fault(fields: Seq<FieldView>, cols: Seq<Array>) -> Option<BatchError> {
    if fields.len() != cols.len() {
        Some(BatchError::ColumnCountMismatch)
    } else if cols.len() == 0 {
        Some(BatchError::NoColumns)
    } else if exists|i: int| 0 <= i < cols.len() && #[trigger] forbidden_null(fields, cols, i) {
        Some(BatchError::NullInNonNullable)
    } else if exists|i: int| 0 <= i < cols.len() && #[trigger] length_differs(cols, i) {
        Some(BatchError::LengthMismatch)
    } else if exists|i: int| 0 <= i < cols.len() && #[trigger] type_differs(fields, cols, i) {
        Some(BatchError::TypeMismatch)
    } else {
        None
    }
}

/// Equal-length columns paired with a schema of the same arity.
#[derive(Clone, Debug, PartialEq, Eq)]
pub struct RecordBatch {
    schema: Schema,
    columns: Vec<Array>,
    num_rows: usize,
}

impl RecordBatch {
    pub closed spec fn schema_view(&self) -> Seq<FieldView> {
        self.schema@
    }

    pub closed spec fn columns(&self) -> Seq<Array> {
        self.columns@
    }

    pub closed spec fn row_count(&self) -> nat {
        self.num_rows as nat
    }

    /// The batch's invariant: the columns break no rule against the
    /// schema, and the row count is that of each column.
    pub open spec fn wf(&self) -> bool {
        &&& batch_fault(self.schema_view(), self.columns()) is None
        &&& forall|i: int|
            0 <= i < self.columns().len() ==> (#[trigger] self.columns()[i]).rows().len()
                == self.row_count()
    }

    fn has_null_column(a: &Array) -> (r: bool)
        ensures
            r == has_null(*a),
    {
        let mut j: usize = 0;
        while j < a.len()
            invariant
                0 <= j <= a.rows().len(),
                forall|k: int| 0 <= k < j ==> !is_null_value(#[trigger] a.rows()[k]),
            decreases a.rows().len() - j,
        {
            if a.is_null(j) {
                return true;
            }
            j = j + 1;
        }
        false
    }

    /// Pairs the columns with the schema, or says which rule they break first.
    pub fn try_new(schema: Schema, columns: Vec<Array>) -> (r: Result<RecordBatch, BatchError>)
        ensures
            r is Ok <==> batch_fault(schema@, columns@) is None,
            r matches Err(e) ==> batch_fault(schema@, columns@) == Some(e),
            r matches Ok(b) ==> b.wf() && b.schema_view() == schema@ && b.columns() == columns@,
    {
        let ghost fields = schema@;
        if schema.num_fields() != columns.len() {
            return Err(BatchError::ColumnCountMismatch);
        }
        if columns.len() == 0 {
            return Err(BatchError::NoColumns);
        }
        let mut i: usize = 0;
        while i < columns.len()
            invariant
                0 <= i <= columns@.len(),
                fields == schema@,
                fields.len() == columns@.len(),
                forall|k: int| 0 <= k < i ==> !#[trigger] forbidden_null(fields, columns@, k),
            decreases columns@.len() - i,
        {
            if !schema.field(i).is_nullable() && Self::has_null_column(&columns[i]) {
                assert(forbidden_null(fields, columns@, i as int));
                return Err(BatchError::NullInNonNullable);
            }
            i = i + 1;
        }
        let row_count = columns[0].len();
        let mut i: usize = 0;
        while i < columns.len()
            invariant
                0 <= i <= columns@.len(),
                columns@.len() > 0,
                row_count == columns@[0].rows().len(),
                fields == schema@,
                fields.len() == columns@.len(),
                forall|k: int|
                    0 <= k < columns@.len() ==> !#[trigger] forbidden_null(fields, columns@, k),
                forall|k: int| 0 <= k < i ==> !#[trigger] length_differs(columns@, k),
            decreases columns@.len() - i,
        {
            if columns[i].len() != row_count {
                assert(length_differs(columns@, i as int));
                return Err(BatchError::LengthMismatch);
            }
            i = i + 1;
        }
        let mut i: usize = 0;
        while i < columns.len()
            invariant
                0 <= i <= columns@.len(),
                fields == schema@,
                fields.len() == columns@.len(),
                forall|k: int|
                    0 <= k < columns@.len() ==> !#[trigger] forbidden_null(fields, columns@, k),
                forall|k: int| 0 <= k < columns@.len() ==> !#[trigger] length_differs(columns@, k),
                forall|k: int| 0 <= k < i ==> !#[trigger] type_differs(fields, columns@, k),
            decreases columns@.len() - i,
        {
            if columns[i].data_type() != schema.field(i).data_type() {
                assert(type_differs(fields, columns@, i as int));
                return Err(BatchError::TypeMismatch);
            }
            i = i + 1;
        }
        let r = RecordBatch { schema, columns, num_rows: row_count };
        assert forall|k: int| 0 <= k < r.columns().len() implies (#[trigger] r.columns()[k]).rows().len()
            == r.row_count() by {
            assert(!length_differs(columns@, k));
        }
        Ok(r)
    }

    /// The number of rows, shared by every column.
    pub fn num_rows(&self) -> (r: usize)
        ensures
            r == self.row_count(),
    {
        self.num_rows
    }

    pub fn num_columns(&self) -> (r: usize)
        ensures
            r == self.columns().len(),
    {
        self.columns.len()
    }

    pub fn schema(&self) -> (r: &Schema)
        ensures
            r@ == self.schema_view(),
    {
        &self.schema
    }

    pub fn column(&self, i: usize) -> (r: &Array)
        requires
            i < self.columns().len(),
        ensures
            *r == self.columns()[i as int],
    {
        &self.columns[i]
    }
}

} // verus!
