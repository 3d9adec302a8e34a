//! Records: the decoded rows of a dataset, one typed cell per field.

use vstd::prelude::*;
use crate::model::views;
use crate::schema::{Field, FieldType, FieldView, Schema};

verus! {

/// One decoded value. A float is held as the bits of its double, so that two
/// cells are equal exactly where their encodings are.
#[derive(Debug, PartialEq, Eq)]
pub enum Cell {
    Missing,
    Integer(i64),
    Float(u64),
    Text(String),
}

/// A cell as the contracts see it.
pub enum CellView {
    Missing,
    Integer(i64),
    Float(u64),
    Text(Seq<char>),
}

impl View for Cell {
    type V = CellView;

    open spec fn view(&self) -> CellView {
        match self {
            Cell::Missing => CellView::Missing,
            Cell::Integer(value) => CellView::Integer(*value),
            Cell::Float(bits) => CellView::Float(*bits),
            Cell::Text(text) => CellView::Text(text@),
        }
    }
}

impl Clone for Cell {
    fn clone(&self) -> (r: Self)
        ensures
            r@ == self@,
    {
        match self {
            Cell::Missing => Cell::Missing,
            Cell::Integer(value) => Cell::Integer(*value),
            Cell::Float(bits) => Cell::Float(*bits),
            Cell::Text(text) => Cell::Text(text.clone()),
        }
    }
}

/// A cell is missing or holds a value of the given type.
pub open spec fn cell_has_kind(cell: CellView, kind: FieldType) -> bool {
    match cell {
        CellView::Missing => true,
        CellView::Integer(_) => kind == FieldType::Integer,
        CellView::Float(_) => kind == FieldType::Float,
        CellView::Text(_) => kind == FieldType::Text,
    }
}

/// A cell may stand under a field: a missing one where the field is nullable,
/// a value where it has the field's type.
pub open spec fn cell_fits(cell: CellView, field: FieldView) -> bool {
    &&& cell_has_kind(cell, field.kind)
    &&& cell is Missing ==> field.nullable
}

/// A row has one cell for each field of the schema, and each fits its field.
pub open spec fn conforms(cells: Seq<CellView>, schema: Seq<FieldView>) -> bool {
    &&& cells.len() == schema.len()
    &&& forall|j: int| 0 <= j < schema.len() ==> cell_fits(#[trigger] cells[j], schema[j])
}

/// One decoded row: the cells of the schema's fields, in the schema's order.
#[derive(Debug, PartialEq, Eq)]
pub struct Record {
    pub cells: Vec<Cell>,
}

impl View for Record {
    type V = Seq<CellView>;

    open spec fn view(&self) -> Seq<CellView> {
        views(self.cells@)
    }
}

/// Every row conforms to the schema.
pub open spec fn all_conform(rows: Seq<Seq<CellView>>, schema: Seq<FieldView>) -> bool {
    forall|i: int| 0 <= i < rows.len() ==> conforms(#[trigger] rows[i], schema)
}

impl Cell {
    /// Whether the cell may stand under the field.
    pub fn fits(&self, field: &Field) -> (r: bool)
        ensures
            r == cell_fits(self@, field@),
    {
        match self {
            Cell::Missing => field.nullable,
            Cell::Integer(_) => matches!(field.kind, FieldType::Integer),
            Cell::Float(_) => matches!(field.kind, FieldType::Float),
            Cell::Text(_) => matches!(field.kind, FieldType::Text),
        }
    }
}

impl Record {
    /// The number of cells.
    pub fn len(&self) -> (r: usize)
        ensures
            r == self@.len(),
    {
        self.cells.len()
    }

    /// Whether the record conforms to the schema.
    pub fn conforms_to(&self, schema: &Schema) -> (r: bool)
        ensures
            r == conforms(self@, schema@),
    {
        if self.cells.len() != schema.len() {
            return false;
        }
        let mut j: usize = 0;
        while j < self.cells.len()
            invariant
                j <= self.cells.len(),
                self.cells.len() == schema@.len(),
                forall|k: int| 0 <= k < j ==> cell_fits(#[trigger] self@[k], schema@[k]),
            decreases self.cells.len() - j,
        {
            if !self.cells[j].fits(schema.at(j)) {
                assert(!cell_fits(self@[j as int], schema@[j as int]));
                return false;
            }
            j += 1;
        }
        true
    }

    /// The cell under the field called `name`, where the schema has such a
    /// field and the record reaches that far.
    pub fn get(&self, schema: &Schema, name: &str) -> (r: Option<&Cell>)
        ensures
            match r {
                Some(cell) => exists|j: int|
                    0 <= j < schema@.len() && j < self@.len() && schema@[j].name == name@
                        && cell@ == self@[j],
                None => forall|j: int|
                    0 <= j < schema@.len() && j < self@.len() ==> schema@[j].name != name@,
            },
    {
        match schema.position(name) {
            Some(index) => {
                if index < self.cells.len() {
                    assert(schema@[index as int].name == name@ && self.cells[index as int]@
                        == self@[index as int]);
                    Some(&self.cells[index])
                } else {
                    None
                }
            },
            None => None,
        }
    }
}

} // verus!
