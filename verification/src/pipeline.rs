//! What holds of a payload that is decoded and then laid out by column.

use vstd::prelude::*;
use crate::decode::{
    coerced_at, decoded_json, decoded_rows, first_refusal, missing_required_field_fails, raw_at,
    row_number, DecodeErrorView,
};
use crate::record::CellView;
use crate::schema::FieldView;
use crate::source::{source_rows, RawCellView};
use crate::table::{materialized, TableView};

verus! {

/// The table of a JSON text that decodes: what decoding gives, laid out by
/// column.
pub open spec fn table_of(text: Seq<char>, schema: Seq<FieldView>) -> TableView {
    materialized(decoded_json(text, schema)->Ok_0, schema)
}

/// The table of the rows of a source that decode has one row for each of
/// them and one column for each field of the schema, in the schema's order,
/// under the field's name and of its type. The cell of a row in a column is
/// what the row's value under that field becomes.
pub proof fn table_has_the_shape_of_its_source(
    rows: Seq<Seq<RawCellView>>,
    schema: Seq<FieldView>,
)
    requires
        decoded_rows(rows, schema) is Ok,
    ensures
        ({
            let table = materialized(decoded_rows(rows, schema)->Ok_0, schema);
            &&& table.rows == rows.len()
            &&& table.columns.len() == schema.len()
            &&& forall|j: int|
                0 <= j < schema.len() ==> {
                    &&& (#[trigger] table.columns[j]).name == schema[j].name
                    &&& table.columns[j].kind == schema[j].kind
                    &&& table.columns[j].cells.len() == rows.len()
                }
            &&& forall|i: int, j: int|
                0 <= i < rows.len() && 0 <= j < schema.len() ==> #[trigger] coerced_at(
                    rows,
                    schema,
                    i,
                    j,
                ) == Ok::<CellView, DecodeErrorView>(table.columns[j].cells[i])
        }),
{
}

/// Decoding a payload and laying the records out gives a table with as many
/// rows as the payload has, and with one column for each field of the schema,
/// in the schema's order, under the field's name and of its type.
pub proof fn table_has_the_shape_of_its_payload(text: Seq<char>, schema: Seq<FieldView>)
    requires
        decoded_json(text, schema) is Ok,
    ensures
        source_rows(text, schema) is Some,
        table_of(text, schema).rows == source_rows(text, schema)->Some_0.len(),
        table_of(text, schema).columns.len() == schema.len(),
        forall|j: int|
            0 <= j < schema.len() ==> {
                &&& (#[trigger] table_of(text, schema).columns[j]).name == schema[j].name
                &&& table_of(text, schema).columns[j].kind == schema[j].kind
                &&& table_of(text, schema).columns[j].cells.len() == source_rows(
                    text,
                    schema,
                )->Some_0.len()
            },
{
}

/// Where a payload decodes, a row without a value under a field has a
/// missing cell in that field's column, and no value in its place; the field
/// is then nullable.
pub proof fn missing_value_stays_missing(
    text: Seq<char>,
    schema: Seq<FieldView>,
    row: int,
    field: int,
)
    requires
        decoded_json(text, schema) is Ok,
        0 <= row < source_rows(text, schema)->Some_0.len(),
        0 <= field < schema.len(),
        raw_at(source_rows(text, schema)->Some_0[row], field) is Absent || raw_at(
            source_rows(text, schema)->Some_0[row],
            field,
        ) is Null,
    ensures
        schema[field].nullable,
        table_of(text, schema).columns[field].cells[row] == CellView::Missing,
{
}

/// A payload with a row that has no value under a field that is not nullable
/// is refused: the row is never dropped. Where no value before it is refused,
/// rows taken in their order and in each row the fields in the schema's order,
/// the error names that field and that row.
pub proof fn missing_required_value_refuses_the_payload(
    text: Seq<char>,
    schema: Seq<FieldView>,
    row: int,
    field: int,
)
    requires
        source_rows(text, schema) is Some,
        0 <= row < source_rows(text, schema)->Some_0.len(),
        0 <= field < schema.len(),
        !schema[field].nullable,
        raw_at(source_rows(text, schema)->Some_0[row], field) is Absent || raw_at(
            source_rows(text, schema)->Some_0[row],
            field,
        ) is Null,
    ensures
        decoded_json(text, schema) is Err,
        first_refusal(source_rows(text, schema)->Some_0, schema, row, field) ==> decoded_json(
            text,
            schema,
        ) == Err::<Seq<Seq<CellView>>, DecodeErrorView>(
            DecodeErrorView::MissingRequiredField(schema[field].name, row_number(row)),
        ),
{
    missing_required_field_fails(source_rows(text, schema)->Some_0, schema, row, field);
}

} // verus!
