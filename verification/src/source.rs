//! Source rows: what a payload holds under the names of a schema's fields,
//! before any rule of the schema is applied.

use vstd::prelude::*;
use crate::json::{
    as_float_bits, as_integer, as_text, as_unsigned, elements, is_null, is_object, json_document,
    json_rendering, json_shape, member, parse, render, JsonShape,
};
use crate::model::{nested_views, views};
use crate::schema::{FieldView, Schema};

verus! {

/// What a row of the source holds under one name.
#[derive(Debug, PartialEq, Eq)]
pub enum RawCell {
    /// The row has no member of that name.
    Absent,
    /// The member is `null`.
    Null,
    /// A number that was read as an integer, with the bits of the double
    /// nearest to it.
    Integer { value: i128, bits: u64 },
    /// A number that was read as a double, as the bits of that double.
    Float { bits: u64 },
    /// A string.
    Text(String),
    /// Anything else, as the JSON text that stands for it.
    Other(String),
}

/// A raw cell as the contracts see it.
pub enum RawCellView {
    Absent,
    Null,
    Integer { value: i128, bits: u64 },
    Float { bits: u64 },
    Text(Seq<char>),
    Other(Seq<char>),
}

impl View for RawCell {
    type V = RawCellView;

    open spec fn view(&self) -> RawCellView {
        match self {
            RawCell::Absent => RawCellView::Absent,
            RawCell::Null => RawCellView::Null,
            RawCell::Integer { value, bits } => RawCellView::Integer { value: *value, bits: *bits },
            RawCell::Float { bits } => RawCellView::Float { bits: *bits },
            RawCell::Text(text) => RawCellView::Text(text@),
            RawCell::Other(text) => RawCellView::Other(text@),
        }
    }
}

impl Clone for RawCell {
    fn clone(&self) -> (r: Self)
        ensures
            r@ == self@,
    {
        match self {
            RawCell::Absent => RawCell::Absent,
            RawCell::Null => RawCell::Null,
            RawCell::Integer { value, bits } => RawCell::Integer { value: *value, bits: *bits },
            RawCell::Float { bits } => RawCell::Float { bits: *bits },
            RawCell::Text(text) => RawCell::Text(text.clone()),
            RawCell::Other(text) => RawCell::Other(text.clone()),
        }
    }
}

/// What the decoder sees of a JSON value.
pub open spec fn raw_cell_of(value: serde_json::Value) -> RawCellView {
    match json_shape(value) {
        JsonShape::Null => RawCellView::Null,
        JsonShape::Integer { value: number, bits } => if i64::MIN <= number <= u64::MAX {
            RawCellView::Integer { value: number as i128, bits }
        } else {
            RawCellView::Float { bits }
        },
        JsonShape::Float { bits } => RawCellView::Float { bits },
        JsonShape::Text(chars) => RawCellView::Text(chars),
        _ => RawCellView::Other(json_rendering(value)),
    }
}

/// What a row holds under a name: the member of that name where the row is an
/// object that has one.
pub open spec fn raw_member(row: serde_json::Value, name: Seq<char>) -> RawCellView {
    match json_shape(row) {
        JsonShape::Object(members) => if members.dom().contains(name) {
            raw_cell_of(members[name])
        } else {
            RawCellView::Absent
        },
        _ => RawCellView::Absent,
    }
}

/// What a row holds under the names of the schema's fields, in their order.
pub open spec fn raw_row_of(row: serde_json::Value, schema: Seq<FieldView>) -> Seq<RawCellView> {
    Seq::new(schema.len(), |j: int| raw_member(row, schema[j].name))
}

/// The rows of a document that is an array of objects; no other document has
/// rows.
pub open spec fn raw_rows_of(document: serde_json::Value, schema: Seq<FieldView>) -> Option<
    Seq<Seq<RawCellView>>,
> {
    match json_shape(document) {
        JsonShape::Array(items) => if forall|i: int|
            0 <= i < items.len() ==> json_shape(#[trigger] items[i]) is Object {
            Some(Seq::new(items.len(), |i: int| raw_row_of(items[i], schema)))
        } else {
            None
        },
        _ => None,
    }
}

/// The rows of a payload: those of the document it is the text of.
pub open spec fn source_rows(text: Seq<char>, schema: Seq<FieldView>) -> Option<
    Seq<Seq<RawCellView>>,
> {
    match json_document(text) {
        Some(document) => raw_rows_of(document, schema),
        None => None,
    }
}

/// What the decoder sees of a JSON value: nothing of a `null`, the number of
/// a number, the characters of a string, and of anything else the JSON text
/// that stands for it.
pub fn classify(value: &serde_json::Value) -> (r: RawCell)
    ensures
        r@ == raw_cell_of(*value),
{
    if is_null(value) {
        return RawCell::Null;
    }
    if let Some(text) = as_text(value) {
        return RawCell::Text(text.to_owned());
    }
    if let Some(bits) = as_float_bits(value) {
        if let Some(number) = as_integer(value) {
            return RawCell::Integer { value: number as i128, bits };
        }
        if let Some(number) = as_unsigned(value) {
            return RawCell::Integer { value: number as i128, bits };
        }
        return RawCell::Float { bits };
    }
    RawCell::Other(render(value))
}

/// What one row holds under the names of the schema's fields, in the order
/// of the schema: each field is looked up by its name, and what the schema
/// does not declare is passed over. A row that is no object holds nothing.
pub fn project(row: &serde_json::Value, schema: &Schema) -> (r: Vec<RawCell>)
    ensures
        views(r@) == raw_row_of(*row, schema@),
{
    let mut cells: Vec<RawCell> = Vec::new();
    let mut j: usize = 0;
    while j < schema.len()
        invariant
            j <= schema@.len(),
            cells@.len() == j,
            forall|k: int| 0 <= k < j ==> (#[trigger] cells@[k])@ == raw_member(
                *row,
                schema@[k].name,
            ),
        decreases schema@.len() - j,
    {
        let cell = match member(row, schema.at(j).name.as_str()) {
            Some(value) => classify(value),
            None => RawCell::Absent,
        };
        cells.push(cell);
        j += 1;
    }
    cells
}

/// The rows of a document under the names of the schema's fields, where the
/// document is an array of objects: one row for each element, in the order
/// of the array.
pub fn read_rows(document: &serde_json::Value, schema: &Schema) -> (r: Option<Vec<Vec<RawCell>>>)
    ensures
        match r {
            Some(rows) => raw_rows_of(*document, schema@) == Some(nested_views(rows@)),
            None => raw_rows_of(*document, schema@) is None,
        },
{
    let items = match elements(document) {
        Some(items) => items,
        None => {
            return None;
        },
    };
    let mut rows: Vec<Vec<RawCell>> = Vec::new();
    let mut i: usize = 0;
    while i < items.len()
        invariant
            i <= items@.len(),
            rows@.len() == i,
            json_shape(*document) == JsonShape::Array(items@),
            forall|k: int| 0 <= k < i ==> json_shape(#[trigger] items@[k]) is Object,
            forall|k: int| 0 <= k < i ==> views((#[trigger] rows@[k])@) == raw_row_of(
                items@[k],
                schema@,
            ),
        decreases items@.len() - i,
    {
        if !is_object(&items[i]) {
            return None;
        }
        let row = project(&items[i], schema);
        rows.push(row);
        i += 1;
    }
    Some(rows)
}

/// The rows of a payload under the names of the schema's fields, where the
/// payload is the text of a JSON array of objects.
pub fn read_payload(text: &str, schema: &Schema) -> (r: Option<Vec<Vec<RawCell>>>)
    ensures
        match r {
            Some(rows) => source_rows(text@, schema@) == Some(nested_views(rows@)),
            None => source_rows(text@, schema@) is None,
        },
{
    match parse(text) {
        Ok(document) => read_rows(&document, schema),
        Err(_) => None,
    }
}

} // verus!
