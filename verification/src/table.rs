//! Tables: the records of a dataset laid out by column.

use vstd::prelude::*;
use crate::model::views;
use crate::record::{all_conform, cell_has_kind, conforms, Cell, CellView, Record};
use crate::schema::{distinct_names, FieldType, FieldView, Schema};

verus! {

/// The values of one column, stored by the type of its field. A position
/// without a value holds `None`, which no value can be mistaken for.
#[derive(Debug, PartialEq, Eq)]
pub enum ColumnData {
    Integer(Vec<Option<i64>>),
    Float(Vec<Option<u64>>),
    Text(Vec<Option<String>>),
}

/// The cell that an entry of an integer column stands for.
pub open spec fn integer_cell(entry: Option<i64>) -> CellView {
    match entry {
        Some(value) => CellView::Integer(value),
        None => CellView::Missing,
    }
}

/// The cell that an entry of a float column stands for.
pub open spec fn float_cell(entry: Option<u64>) -> CellView {
    match entry {
        Some(bits) => CellView::Float(bits),
        None => CellView::Missing,
    }
}

/// The cell that an entry of a text column stands for.
pub open spec fn text_cell(entry: Option<String>) -> CellView {
    match entry {
        Some(text) => CellView::Text(text@),
        None => CellView::Missing,
    }
}

impl ColumnData {
    /// The type of the column's values.
    pub open spec fn kind_of(self) -> FieldType {
        match self {
            ColumnData::Integer(_) => FieldType::Integer,
            ColumnData::Float(_) => FieldType::Float,
            ColumnData::Text(_) => FieldType::Text,
        }
    }

    /// The cells of the column, from the first row to the last.
    pub open spec fn cells(self) -> Seq<CellView> {
        match self {
            ColumnData::Integer(entries) => Seq::new(
                entries@.len(),
                |i: int| integer_cell(entries@[i]),
            ),
            ColumnData::Float(entries) => Seq::new(
                entries@.len(),
                |i: int| float_cell(entries@[i]),
            ),
            ColumnData::Text(entries) => Seq::new(
                entries@.len(),
                |i: int| text_cell(entries@[i]),
            ),
        }
    }
}

/// One column: the name of its field and the field's values over all rows.
#[derive(Debug, PartialEq, Eq)]
pub struct Column {
    pub name: String,
    pub data: ColumnData,
}

/// A column as the contracts see it.
pub struct ColumnView {
    pub name: Seq<char>,
    pub kind: FieldType,
    pub cells: Seq<CellView>,
}

impl View for Column {
    type V = ColumnView;

    open spec fn view(&self) -> ColumnView {
        ColumnView { name: self.name@, kind: self.data.kind_of(), cells: self.data.cells() }
    }
}

/// A table as the contracts see it.
pub struct TableView {
    pub columns: Seq<ColumnView>,
    pub rows: nat,
}

/// No two columns share a name.
pub open spec fn distinct_columns(columns: Seq<ColumnView>) -> bool {
    forall|a: int, b: int| 0 <= a < b < columns.len() ==> columns[a].name != columns[b].name
}

/// Every cell of the column is missing or has the column's type.
pub open spec fn homogeneous(column: ColumnView) -> bool {
    forall|i: int|
        0 <= i < column.cells.len() ==> cell_has_kind(#[trigger] column.cells[i], column.kind)
}

/// What holds of every table: each column has one cell for each row, the
/// cells of a column share its type, and no two columns share a name.
pub open spec fn well_formed(table: TableView) -> bool {
    &&& forall|j: int|
        0 <= j < table.columns.len() ==> (#[trigger] table.columns[j]).cells.len() == table.rows
    &&& forall|j: int| 0 <= j < table.columns.len() ==> homogeneous(#[trigger] table.columns[j])
    &&& distinct_columns(table.columns)
}

/// The cells of a row of a table, one of each column in the columns' order.
pub open spec fn row_of(table: TableView, row: int) -> Seq<CellView> {
    Seq::new(table.columns.len(), |j: int| table.columns[j].cells[row])
}

/// The table of the records: one column for each field of the schema, in the
/// schema's order, and in each column the cells of the records in their order.
pub open spec fn materialized(records: Seq<Seq<CellView>>, schema: Seq<FieldView>) -> TableView {
    TableView {
        columns: Seq::new(
            schema.len(),
            |j: int|
                ColumnView {
                    name: schema[j].name,
                    kind: schema[j].kind,
                    cells: Seq::new(records.len(), |i: int| records[i][j]),
                },
        ),
        rows: records.len(),
    }
}

/// An ordered set of columns that share one row count.
#[derive(Debug, PartialEq, Eq)]
pub struct Table {
    columns: Vec<Column>,
    rows: usize,
}

impl View for Table {
    type V = TableView;

    closed spec fn view(&self) -> TableView {
        TableView { columns: views(self.columns@), rows: self.rows as nat }
    }
}

impl Table {
    /// What holds of every table.
    #[verifier::type_invariant]
    pub open spec fn valid(self) -> bool {
        well_formed(self@)
    }
}

impl ColumnData {
    /// The type of the column's values.
    pub fn kind(&self) -> (r: FieldType)
        ensures
            r == self.kind_of(),
    {
        match self {
            ColumnData::Integer(_) => FieldType::Integer,
            ColumnData::Float(_) => FieldType::Float,
            ColumnData::Text(_) => FieldType::Text,
        }
    }

    /// The number of cells.
    pub fn len(&self) -> (r: usize)
        ensures
            r == self.cells().len(),
    {
        match self {
            ColumnData::Integer(entries) => entries.len(),
            ColumnData::Float(entries) => entries.len(),
            ColumnData::Text(entries) => entries.len(),
        }
    }

    /// The cell of row `row`, where the column has that many rows.
    pub fn cell(&self, row: usize) -> (r: Option<Cell>)
        ensures
            match r {
                Some(cell) => row < self.cells().len() && cell@ == self.cells()[row as int],
                None => row >= self.cells().len(),
            },
    {
        if row >= self.len() {
            return None;
        }
        let cell = match self {
            ColumnData::Integer(entries) => match entries[row] {
                Some(value) => Cell::Integer(value),
                None => Cell::Missing,
            },
            ColumnData::Float(entries) => match entries[row] {
                Some(bits) => Cell::Float(bits),
                None => Cell::Missing,
            },
            ColumnData::Text(entries) => match &entries[row] {
                Some(text) => Cell::Text(text.clone()),
                None => Cell::Missing,
            },
        };
        Some(cell)
    }
}

impl Column {
    /// The number of cells.
    pub fn len(&self) -> (r: usize)
        ensures
            r == self@.cells.len(),
    {
        self.data.len()
    }

    /// The type of the column's values.
    pub fn kind(&self) -> (r: FieldType)
        ensures
            r == self@.kind,
    {
        self.data.kind()
    }

    /// The cell of row `row`, where the column has that many rows.
    pub fn cell(&self, row: usize) -> (r: Option<Cell>)
        ensures
            match r {
                Some(cell) => row < self@.cells.len() && cell@ == self@.cells[row as int],
                None => row >= self@.cells.len(),
            },
    {
        self.data.cell(row)
    }
}

impl Table {
    /// The table of the given columns, where each of them has `rows` cells
    /// and no two of them share a name.
    pub fn from_columns(columns: Vec<Column>, rows: usize) -> (r: Option<Table>)
        ensures
            match r {
                Some(table) => table@ == (TableView { columns: views(columns@), rows: rows as nat })
                    && well_formed(table@),
                None => !well_formed(TableView { columns: views(columns@), rows: rows as nat }),
            },
    {
        let ghost listed = views(columns@);
        let mut j: usize = 0;
        while j < columns.len()
            invariant
                j <= columns@.len(),
                listed == views(columns@),
                forall|k: int| 0 <= k < j ==> (#[trigger] listed[k]).cells.len() == rows,
                forall|a: int, b: int| 0 <= a < b < j ==> listed[a].name != listed[b].name,
            decreases columns@.len() - j,
        {
            if columns[j].len() != rows {
                return None;
            }
            let mut i: usize = 0;
            while i < j
                invariant
                    i <= j < columns@.len(),
                    listed == views(columns@),
                    forall|a: int| 0 <= a < i ==> listed[a].name != listed[j as int].name,
                decreases j - i,
            {
                if columns[i].name == columns[j].name {
                    assert(listed[i as int].name == listed[j as int].name);
                    return None;
                }
                i += 1;
            }
            j += 1;
        }
        Some(Table { columns, rows })
    }

    /// The number of rows.
    pub fn row_count(&self) -> (r: usize)
        ensures
            r == self@.rows,
    {
        self.rows
    }

    /// The number of columns.
    pub fn column_count(&self) -> (r: usize)
        ensures
            r == self@.columns.len(),
    {
        self.columns.len()
    }

    /// The columns, in the order of the fields they stand for.
    pub fn columns(&self) -> (r: &Vec<Column>)
        ensures
            views(r@) == self@.columns,
            well_formed(self@),
    {
        proof {
            use_type_invariant(self);
        }
        &self.columns
    }

    /// The column called `name`, where the table has one.
    pub fn column(&self, name: &str) -> (r: Option<&Column>)
        ensures
            match r {
                Some(column) => exists|j: int|
                    0 <= j < self@.columns.len() && self@.columns[j] == column@ && column@.name
                        == name@,
                None => forall|j: int|
                    0 <= j < self@.columns.len() ==> (#[trigger] self@.columns[j]).name != name@,
            },
    {
        let key = name.to_owned();
        let mut j: usize = 0;
        while j < self.columns.len()
            invariant
                j <= self.columns@.len(),
                key@ == name@,
                forall|k: int| 0 <= k < j ==> (#[trigger] self@.columns[k]).name != name@,
            decreases self.columns@.len() - j,
        {
            if self.columns[j].name == key {
                assert(self@.columns[j as int] == self.columns@[j as int]@);
                return Some(&self.columns[j]);
            }
            j += 1;
        }
        None
    }

    /// The cells of row `row`, one of each column in the columns' order, where
    /// the table has that many rows.
    pub fn row(&self, row: usize) -> (r: Option<Vec<Cell>>)
        ensures
            match r {
                Some(cells) => row < self@.rows && views(cells@) == row_of(self@, row as int),
                None => row >= self@.rows,
            },
    {
        proof {
            use_type_invariant(self);
        }
        if row >= self.rows {
            return None;
        }
        let mut cells: Vec<Cell> = Vec::new();
        let mut j: usize = 0;
        while j < self.columns.len()
            invariant
                j <= self.columns@.len(),
                row < self@.rows,
                well_formed(self@),
                cells@.len() == j,
                forall|k: int|
                    0 <= k < j ==> (#[trigger] cells@[k])@ == self@.columns[k].cells[row as int],
            decreases self.columns@.len() - j,
        {
            assert(self@.columns[j as int] == self.columns@[j as int]@);
            let cell = self.columns[j].cell(row).unwrap();
            cells.push(cell);
            j += 1;
        }
        Some(cells)
    }
}

/// Every record has a cell at position `j`, and the cell is missing or holds
/// a value of the given type.
pub open spec fn column_holds(records: Seq<Record>, j: int, kind: FieldType) -> bool {
    forall|i: int|
        0 <= i < records.len() ==> 0 <= j < (#[trigger] records[i])@.len() && cell_has_kind(
            records[i]@[j],
            kind,
        )
}

/// The values of field `j` over all records, for a field of integers.
fn gather_integers(records: &Vec<Record>, j: usize) -> (r: Vec<Option<i64>>)
    requires
        column_holds(records@, j as int, FieldType::Integer),
    ensures
        r@.len() == records@.len(),
        forall|i: int|
            0 <= i < records@.len() ==> integer_cell(#[trigger] r@[i]) == records@[i]@[j as int],
{
    let mut entries: Vec<Option<i64>> = Vec::new();
    let mut i: usize = 0;
    while i < records.len()
        invariant
            i <= records@.len(),
            entries@.len() == i,
            column_holds(records@, j as int, FieldType::Integer),
            forall|k: int|
                0 <= k < i ==> integer_cell(#[trigger] entries@[k]) == records@[k]@[j as int],
        decreases records@.len() - i,
    {
        let entry = match &records[i].cells[j] {
            Cell::Integer(value) => Some(*value),
            _ => None,
        };
        entries.push(entry);
        i += 1;
    }
    entries
}

/// The values of field `j` over all records, for a field of floats.
fn gather_floats(records: &Vec<Record>, j: usize) -> (r: Vec<Option<u64>>)
    requires
        column_holds(records@, j as int, FieldType::Float),
    ensures
        r@.len() == records@.len(),
        forall|i: int|
            0 <= i < records@.len() ==> float_cell(#[trigger] r@[i]) == records@[i]@[j as int],
{
    let mut entries: Vec<Option<u64>> = Vec::new();
    let mut i: usize = 0;
    while i < records.len()
        invariant
            i <= records@.len(),
            entries@.len() == i,
            column_holds(records@, j as int, FieldType::Float),
            forall|k: int|
                0 <= k < i ==> float_cell(#[trigger] entries@[k]) == records@[k]@[j as int],
        decreases records@.len() - i,
    {
        let entry = match &records[i].cells[j] {
            Cell::Float(bits) => Some(*bits),
            _ => None,
        };
        entries.push(entry);
        i += 1;
    }
    entries
}

/// The values of field `j` over all records, for a field of texts.
fn gather_texts(records: &Vec<Record>, j: usize) -> (r: Vec<Option<String>>)
    requires
        column_holds(records@, j as int, FieldType::Text),
    ensures
        r@.len() == records@.len(),
        forall|i: int|
            0 <= i < records@.len() ==> text_cell(#[trigger] r@[i]) == records@[i]@[j as int],
{
    let mut entries: Vec<Option<String>> = Vec::new();
    let mut i: usize = 0;
    while i < records.len()
        invariant
            i <= records@.len(),
            entries@.len() == i,
            column_holds(records@, j as int, FieldType::Text),
            forall|k: int|
                0 <= k < i ==> text_cell(#[trigger] entries@[k]) == records@[k]@[j as int],
        decreases records@.len() - i,
    {
        let entry = match &records[i].cells[j] {
            Cell::Text(text) => Some(text.clone()),
            _ => None,
        };
        entries.push(entry);
        i += 1;
    }
    entries
}

/// Lays the records out by column: one column for each field of the schema,
/// in the schema's order, each holding that field's cell of every record, in
/// the records' order. Nothing is sorted, dropped or decoded again.
pub fn materialize(records: &Vec<Record>, schema: &Schema) -> (r: Table)
    requires
        all_conform(views(records@), schema@),
    ensures
        r@ == materialized(views(records@), schema@),
{
    let ghost rows = views(records@);
    let ghost target = materialized(rows, schema@);
    let mut columns: Vec<Column> = Vec::new();
    let mut j: usize = 0;
    while j < schema.len()
        invariant
            j <= schema@.len(),
            rows == views(records@),
            target == materialized(rows, schema@),
            all_conform(rows, schema@),
            columns@.len() == j,
            forall|k: int| 0 <= k < j ==> (#[trigger] columns@[k])@ == target.columns[k],
        decreases schema@.len() - j,
    {
        let field = schema.at(j);
        assert(column_holds(records@, j as int, field.kind)) by {
            assert forall|i: int| 0 <= i < records@.len() implies 0 <= j < (
            #[trigger] records@[i])@.len() && cell_has_kind(records@[i]@[j as int], field.kind) by {
                assert(conforms(rows[i], schema@));
            }
        }
        let data = match field.kind {
            FieldType::Integer => ColumnData::Integer(gather_integers(records, j)),
            FieldType::Float => ColumnData::Float(gather_floats(records, j)),
            FieldType::Text => ColumnData::Text(gather_texts(records, j)),
        };
        assert(data.cells() =~= target.columns[j as int].cells);
        let column = Column { name: field.name.clone(), data };
        columns.push(column);
        j += 1;
    }
    proof {
        use_type_invariant(schema);
        assert(views(columns@) =~= target.columns);
    }
    Table { columns, rows: records.len() }
}

/// Lays the records out by column where every one of them conforms to the
/// schema, and gives nothing where one does not. For records of unknown
/// origin; those that the decoder gave conform.
pub fn try_materialize(records: &Vec<Record>, schema: &Schema) -> (r: Option<Table>)
    ensures
        match r {
            Some(table) => all_conform(views(records@), schema@) && table@ == materialized(
                views(records@),
                schema@,
            ),
            None => !all_conform(views(records@), schema@),
        },
{
    let mut i: usize = 0;
    while i < records.len()
        invariant
            i <= records@.len(),
            forall|k: int| 0 <= k < i ==> conforms(#[trigger] views(records@)[k], schema@),
        decreases records@.len() - i,
    {
        if !records[i].conforms_to(schema) {
            assert(!conforms(views(records@)[i as int], schema@));
            return None;
        }
        i += 1;
    }
    Some(materialize(records, schema))
}

/// The rows of the table of conforming records are the records, in their
/// order: nothing is sorted, dropped or added.
pub proof fn rows_of_a_table_are_its_records(
    records: Seq<Seq<CellView>>,
    schema: Seq<FieldView>,
    row: int,
)
    requires
        all_conform(records, schema),
        0 <= row < records.len(),
    ensures
        materialized(records, schema).rows == records.len(),
        row_of(materialized(records, schema), row) == records[row],
{
}

/// The table of conforming records under a schema of distinct names is well
/// formed.
pub proof fn materialized_is_well_formed(records: Seq<Seq<CellView>>, schema: Seq<FieldView>)
    requires
        all_conform(records, schema),
        distinct_names(schema),
    ensures
        well_formed(materialized(records, schema)),
{
    let table = materialized(records, schema);
}

} // verus!
