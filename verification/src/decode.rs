//! The record decoder: the rules by which the rows of a source become the
//! records of a schema, or the whole payload is refused.

use vstd::prelude::*;
use crate::fetch::{Encoding, RawPayload, RawPayloadView};
use crate::model::{nested_views, views};
use crate::number::{has_exact_double, is_exact_double};
use crate::record::{all_conform, cell_fits, conforms, Cell, CellView, Record};
use crate::schema::{Field, FieldType, FieldView, Schema};
use crate::source::{read_payload, source_rows, RawCell, RawCellView};

verus! {

/// Why a payload was refused. Rows are counted from one.
#[derive(Debug, PartialEq, Eq)]
pub enum DecodeError {
    /// The value of a field cannot stand for a value of the field's type:
    /// the field's name, the row, and what was found there.
    SchemaViolation(String, usize, RawCell),
    /// A field that is not nullable has no value: the field's name and the row.
    MissingRequiredField(String, usize),
    /// The payload is not the text of an array of objects.
    MalformedPayload,
}

/// A decode error as the contracts see it.
pub enum DecodeErrorView {
    SchemaViolation(Seq<char>, nat, RawCellView),
    MissingRequiredField(Seq<char>, nat),
    MalformedPayload,
}

impl View for DecodeError {
    type V = DecodeErrorView;

    open spec fn view(&self) -> DecodeErrorView {
        match self {
            DecodeError::SchemaViolation(field, row, value) => DecodeErrorView::SchemaViolation(
                field@,
                *row as nat,
                value@,
            ),
            DecodeError::MissingRequiredField(field, row) => DecodeErrorView::MissingRequiredField(
                field@,
                *row as nat,
            ),
            DecodeError::MalformedPayload => DecodeErrorView::MalformedPayload,
        }
    }
}

impl Clone for DecodeError {
    fn clone(&self) -> (r: Self)
        ensures
            r@ == self@,
    {
        match self {
            DecodeError::SchemaViolation(field, row, value) => DecodeError::SchemaViolation(
                field.clone(),
                *row,
                value.clone(),
            ),
            DecodeError::MissingRequiredField(field, row) => DecodeError::MissingRequiredField(
                field.clone(),
                *row,
            ),
            DecodeError::MalformedPayload => DecodeError::MalformedPayload,
        }
    }
}

/// The cell that a raw cell becomes under a field, or the error it raises in
/// the given row. A value keeps its type: an integer stands under a field of
/// integers where it fits in an `i64`, a double under a field of floats, a
/// text under a field of texts. The one exception is an integer under a field
/// of floats, which is taken where it is a double without rounding. Nothing
/// is truncated and nothing is made up: a value that is missing stays missing
/// where the field is nullable, and is an error where it is not.
pub open spec fn coerced(raw: RawCellView, field: FieldView, row: nat) -> Result<
    CellView,
    DecodeErrorView,
> {
    match raw {
        RawCellView::Absent | RawCellView::Null => if field.nullable {
            Ok(CellView::Missing)
        } else {
            Err(DecodeErrorView::MissingRequiredField(field.name, row))
        },
        RawCellView::Integer { value, bits } => match field.kind {
            FieldType::Integer => if i64::MIN <= value <= i64::MAX {
                Ok(CellView::Integer(value as i64))
            } else {
                Err(DecodeErrorView::SchemaViolation(field.name, row, raw))
            },
            FieldType::Float => if is_exact_double(value as int) {
                Ok(CellView::Float(bits))
            } else {
                Err(DecodeErrorView::SchemaViolation(field.name, row, raw))
            },
            FieldType::Text => Err(DecodeErrorView::SchemaViolation(field.name, row, raw)),
        },
        RawCellView::Float { bits } => match field.kind {
            FieldType::Float => Ok(CellView::Float(bits)),
            _ => Err(DecodeErrorView::SchemaViolation(field.name, row, raw)),
        },
        RawCellView::Text(chars) => match field.kind {
            FieldType::Text => Ok(CellView::Text(chars)),
            _ => Err(DecodeErrorView::SchemaViolation(field.name, row, raw)),
        },
        RawCellView::Other(_) => Err(DecodeErrorView::SchemaViolation(field.name, row, raw)),
    }
}

/// What a raw row holds at a position: past its end, nothing.
pub open spec fn raw_at(raw: Seq<RawCellView>, j: int) -> RawCellView {
    if 0 <= j < raw.len() {
        raw[j]
    } else {
        RawCellView::Absent
    }
}

/// What the value of a row under field `j` becomes, or the error it raises.
pub open spec fn coerced_field(
    raw: Seq<RawCellView>,
    schema: Seq<FieldView>,
    row: nat,
    j: int,
) -> Result<CellView, DecodeErrorView> {
    coerced(raw_at(raw, j), schema[j], row)
}

/// Every field of the schema accepts the row's value.
pub open spec fn row_accepted(raw: Seq<RawCellView>, schema: Seq<FieldView>, row: nat) -> bool {
    forall|j: int| 0 <= j < schema.len() ==> #[trigger] coerced_field(raw, schema, row, j) is Ok
}

/// Field `j` refuses the row's value, and no field before it does.
pub open spec fn first_refused_field(
    raw: Seq<RawCellView>,
    schema: Seq<FieldView>,
    row: nat,
    j: int,
) -> bool {
    &&& 0 <= j < schema.len()
    &&& coerced_field(raw, schema, row, j) is Err
    &&& forall|k: int| 0 <= k < j ==> #[trigger] coerced_field(raw, schema, row, k) is Ok
}

/// The record of a row: one cell for each field of the schema, which is what
/// the row's value under that field becomes. Where a field refuses its value,
/// the error of the first field that does.
pub open spec fn decoded_row(raw: Seq<RawCellView>, schema: Seq<FieldView>, row: nat) -> Result<
    Seq<CellView>,
    DecodeErrorView,
> {
    if row_accepted(raw, schema, row) {
        Ok(Seq::new(schema.len(), |j: int| coerced_field(raw, schema, row, j)->Ok_0))
    } else {
        Err(
            coerced_field(
                raw,
                schema,
                row,
                choose|j: int| first_refused_field(raw, schema, row, j),
            )->Err_0,
        )
    }
}

/// The number that rows are counted by: the first row is row one.
pub open spec fn row_number(i: int) -> nat {
    (i + 1) as nat
}

/// The record of row `i` of a source, or the error it raises.
pub open spec fn decoded_at(rows: Seq<Seq<RawCellView>>, schema: Seq<FieldView>, i: int) -> Result<
    Seq<CellView>,
    DecodeErrorView,
> {
    decoded_row(rows[i], schema, row_number(i))
}

/// Every row of the source gives a record.
pub open spec fn rows_accepted(rows: Seq<Seq<RawCellView>>, schema: Seq<FieldView>) -> bool {
    forall|i: int| 0 <= i < rows.len() ==> #[trigger] decoded_at(rows, schema, i) is Ok
}

/// Row `i` raises an error, and no row before it does.
pub open spec fn first_refused_row(
    rows: Seq<Seq<RawCellView>>,
    schema: Seq<FieldView>,
    i: int,
) -> bool {
    &&& 0 <= i < rows.len()
    &&& decoded_at(rows, schema, i) is Err
    &&& forall|a: int| 0 <= a < i ==> #[trigger] decoded_at(rows, schema, a) is Ok
}

/// The records of a source: one for each row, in the rows' order. Where a row
/// raises an error, the error of the first row that does: nothing is kept of
/// the rows before it.
pub open spec fn decoded_rows(rows: Seq<Seq<RawCellView>>, schema: Seq<FieldView>) -> Result<
    Seq<Seq<CellView>>,
    DecodeErrorView,
> {
    if rows_accepted(rows, schema) {
        Ok(Seq::new(rows.len(), |i: int| decoded_at(rows, schema, i)->Ok_0))
    } else {
        Err(decoded_at(rows, schema, choose|i: int| first_refused_row(rows, schema, i))->Err_0)
    }
}

/// What decoding a JSON text gives: the records of its rows, or the first
/// error among them; a text that is not that of an array of objects is
/// malformed.
pub open spec fn decoded_json(text: Seq<char>, schema: Seq<FieldView>) -> Result<
    Seq<Seq<CellView>>,
    DecodeErrorView,
> {
    match source_rows(text, schema) {
        Some(rows) => decoded_rows(rows, schema),
        None => Err(DecodeErrorView::MalformedPayload),
    }
}

/// What decoding a payload gives, by the encoding of its text.
pub open spec fn decoded(payload: RawPayloadView, schema: Seq<FieldView>) -> Result<
    Seq<Seq<CellView>>,
    DecodeErrorView,
> {
    match payload.encoding {
        Encoding::Json => decoded_json(payload.body, schema),
    }
}

/// A result of the decoder as the contracts see it.
pub open spec fn outcome_view(outcome: Result<Vec<Record>, DecodeError>) -> Result<
    Seq<Seq<CellView>>,
    DecodeErrorView,
> {
    match outcome {
        Ok(records) => Ok(views(records@)),
        Err(error) => Err(error@),
    }
}

/// A result of decoding one row as the contracts see it.
pub open spec fn row_outcome_view(outcome: Result<Record, DecodeError>) -> Result<
    Seq<CellView>,
    DecodeErrorView,
> {
    match outcome {
        Ok(record) => Ok(record@),
        Err(error) => Err(error@),
    }
}

/// The first field that refuses a row's value is the one whose error the row
/// raises.
pub proof fn row_fails_at_first_refused_field(
    raw: Seq<RawCellView>,
    schema: Seq<FieldView>,
    row: nat,
    j: int,
)
    requires
        first_refused_field(raw, schema, row, j),
    ensures
        decoded_row(raw, schema, row) == Err::<Seq<CellView>, DecodeErrorView>(
            coerced_field(raw, schema, row, j)->Err_0,
        ),
{
}

/// The first row that raises an error is the one whose error the source
/// raises.
pub proof fn source_fails_at_first_refused_row(
    rows: Seq<Seq<RawCellView>>,
    schema: Seq<FieldView>,
    i: int,
)
    requires
        first_refused_row(rows, schema, i),
    ensures
        decoded_rows(rows, schema) == Err::<Seq<Seq<CellView>>, DecodeErrorView>(
            decoded_at(rows, schema, i)->Err_0,
        ),
{
}

/// The cell that a raw cell becomes under a field, or the error it raises in
/// the given row.
pub fn coerce(raw: &RawCell, field: &Field, row: usize) -> (r: Result<Cell, DecodeError>)
    ensures
        match r {
            Ok(cell) => coerced(raw@, field@, row as nat) == Ok::<CellView, DecodeErrorView>(cell@),
            Err(error) => coerced(raw@, field@, row as nat) == Err::<CellView, DecodeErrorView>(
                error@,
            ),
        },
{
    match raw {
        RawCell::Absent | RawCell::Null => {
            if field.nullable {
                Ok(Cell::Missing)
            } else {
                Err(DecodeError::MissingRequiredField(field.name.clone(), row))
            }
        },
        RawCell::Integer { value, bits } => match field.kind {
            FieldType::Integer => {
                if i64::MIN as i128 <= *value && *value <= i64::MAX as i128 {
                    Ok(Cell::Integer(*value as i64))
                } else {
                    Err(DecodeError::SchemaViolation(field.name.clone(), row, raw.clone()))
                }
            },
            FieldType::Float => {
                if has_exact_double(*value) {
                    Ok(Cell::Float(*bits))
                } else {
                    Err(DecodeError::SchemaViolation(field.name.clone(), row, raw.clone()))
                }
            },
            FieldType::Text => Err(
                DecodeError::SchemaViolation(field.name.clone(), row, raw.clone()),
            ),
        },
        RawCell::Float { bits } => match field.kind {
            FieldType::Float => Ok(Cell::Float(*bits)),
            _ => Err(DecodeError::SchemaViolation(field.name.clone(), row, raw.clone())),
        },
        RawCell::Text(text) => match field.kind {
            FieldType::Text => Ok(Cell::Text(text.clone())),
            _ => Err(DecodeError::SchemaViolation(field.name.clone(), row, raw.clone())),
        },
        RawCell::Other(_) => Err(
            DecodeError::SchemaViolation(field.name.clone(), row, raw.clone()),
        ),
    }
}

/// The record of one row of a source, which is row number `row`: one cell
/// for each field of the schema, in the schema's order, or the error of the
/// first field that refuses the row's value. A row that is shorter than the
/// schema has no value under the fields past its end.
pub fn decode_row(raw: &Vec<RawCell>, schema: &Schema, row: usize) -> (r: Result<
    Record,
    DecodeError,
>)
    ensures
        row_outcome_view(r) == decoded_row(views(raw@), schema@, row as nat),
{
    let ghost source = views(raw@);
    let absent = RawCell::Absent;
    let mut cells: Vec<Cell> = Vec::new();
    let mut j: usize = 0;
    while j < schema.len()
        invariant
            j <= schema@.len(),
            source == views(raw@),
            absent@ == RawCellView::Absent,
            cells@.len() == j,
            forall|k: int|
                0 <= k < j ==> #[trigger] coerced_field(source, schema@, row as nat, k) == Ok::<
                    CellView,
                    DecodeErrorView,
                >(cells@[k]@),
        decreases schema@.len() - j,
    {
        let found = if j < raw.len() {
            &raw[j]
        } else {
            &absent
        };
        match coerce(found, schema.at(j), row) {
            Ok(cell) => {
                cells.push(cell);
            },
            Err(error) => {
                proof {
                    row_fails_at_first_refused_field(source, schema@, row as nat, j as int);
                }
                return Err(error);
            },
        }
        j += 1;
    }
    let record = Record { cells };
    assert(record@ =~= Seq::new(
        schema@.len(),
        |k: int| coerced_field(source, schema@, row as nat, k)->Ok_0,
    ));
    Ok(record)
}

/// The records of the rows of a source: one for each row, in the rows' order,
/// or the error of the first value that is refused, rows taken in their order
/// and in each row the fields in the schema's order. Rows are counted from
/// one.
pub fn decode_rows(rows: &Vec<Vec<RawCell>>, schema: &Schema) -> (r: Result<
    Vec<Record>,
    DecodeError,
>)
    ensures
        outcome_view(r) == decoded_rows(nested_views(rows@), schema@),
        r matches Ok(records) ==> records@.len() == rows@.len() && forall|i: int|
            0 <= i < rows@.len() ==> (#[trigger] records@[i])@ == decoded_at(
                nested_views(rows@),
                schema@,
                i,
            )->Ok_0,
{
    let ghost source = nested_views(rows@);
    let mut records: Vec<Record> = Vec::new();
    let mut i: usize = 0;
    while i < rows.len()
        invariant
            i <= rows@.len(),
            source == nested_views(rows@),
            records@.len() == i,
            forall|a: int|
                0 <= a < i ==> #[trigger] decoded_at(source, schema@, a) == Ok::<
                    Seq<CellView>,
                    DecodeErrorView,
                >(records@[a]@),
        decreases rows@.len() - i,
    {
        match decode_row(&rows[i], schema, i + 1) {
            Ok(record) => {
                records.push(record);
            },
            Err(error) => {
                proof {
                    source_fails_at_first_refused_row(source, schema@, i as int);
                }
                return Err(error);
            },
        }
        i += 1;
    }
    assert(views(records@) =~= Seq::new(
        source.len(),
        |a: int| decoded_at(source, schema@, a)->Ok_0,
    ));
    Ok(records)
}

/// Decodes a JSON text against a schema. Every row of the text becomes a
/// record, or the whole text is refused: with the error of the first value
/// that the schema refuses, or as malformed where it is not the text of a
/// JSON array of objects.
pub fn decode_json(text: &str, schema: &Schema) -> (r: Result<Vec<Record>, DecodeError>)
    ensures
        outcome_view(r) == decoded_json(text@, schema@),
        r matches Ok(records) ==> source_rows(text@, schema@) matches Some(rows)
            && records@.len() == rows.len() && forall|i: int|
            0 <= i < rows.len() ==> (#[trigger] records@[i])@ == decoded_at(rows, schema@, i)->Ok_0,
{
    match read_payload(text, schema) {
        Some(rows) => decode_rows(&rows, schema),
        None => Err(DecodeError::MalformedPayload),
    }
}

/// Decodes a payload against a schema. Every row of the payload becomes a
/// record that conforms to the schema, or the whole payload is refused with
/// the first error that it raises: no record is given of a payload that is
/// refused.
pub fn decode(payload: &RawPayload, schema: &Schema) -> (r: Result<Vec<Record>, DecodeError>)
    ensures
        outcome_view(r) == decoded(payload@, schema@),
        r matches Ok(records) ==> all_conform(views(records@), schema@),
{
    match payload.encoding {
        Encoding::Json => decode_json(payload.body.as_str(), schema),
    }
}

/// What the value of row `i` under field `j` becomes, or the error it raises.
pub open spec fn coerced_at(
    rows: Seq<Seq<RawCellView>>,
    schema: Seq<FieldView>,
    i: int,
    j: int,
) -> Result<CellView, DecodeErrorView> {
    coerced_field(rows[i], schema, row_number(i), j)
}

/// The value of row `i` under field `j` is refused, and no value before it
/// is: none in an earlier row, and none under an earlier field of row `i`.
pub open spec fn first_refusal(
    rows: Seq<Seq<RawCellView>>,
    schema: Seq<FieldView>,
    i: int,
    j: int,
) -> bool {
    &&& 0 <= i < rows.len()
    &&& 0 <= j < schema.len()
    &&& coerced_at(rows, schema, i, j) is Err
    &&& forall|b: int| 0 <= b < j ==> #[trigger] coerced_at(rows, schema, i, b) is Ok
    &&& forall|a: int, b: int|
        0 <= a < i && 0 <= b < schema.len() ==> #[trigger] coerced_at(rows, schema, a, b) is Ok
}

/// A cell that a raw cell becomes under a field fits that field.
pub proof fn coerced_cell_fits(raw: RawCellView, field: FieldView, row: nat)
    ensures
        coerced(raw, field, row) matches Ok(cell) ==> cell_fits(cell, field),
{
}

/// Decoding succeeds exactly where no value is refused. It then gives one
/// record for each row, in the rows' order, and in each record one cell for
/// each field, in the schema's order: what the row's value under that field
/// becomes. Every record conforms to the schema.
pub proof fn decoding_succeeds(rows: Seq<Seq<RawCellView>>, schema: Seq<FieldView>)
    ensures
        decoded_rows(rows, schema) is Ok <==> forall|i: int, j: int|
            0 <= i < rows.len() && 0 <= j < schema.len() ==> #[trigger] coerced_at(
                rows,
                schema,
                i,
                j,
            ) is Ok,
        decoded_rows(rows, schema) matches Ok(records) ==> {
            &&& records.len() == rows.len()
            &&& forall|i: int| 0 <= i < rows.len() ==> (#[trigger] records[i]).len() == schema.len()
            &&& forall|i: int, j: int|
                0 <= i < rows.len() && 0 <= j < schema.len() ==> #[trigger] coerced_at(
                    rows,
                    schema,
                    i,
                    j,
                ) == Ok::<CellView, DecodeErrorView>(records[i][j])
            &&& all_conform(records, schema)
        },
{
    if rows_accepted(rows, schema) {
        let records = decoded_rows(rows, schema)->Ok_0;
        assert forall|i: int, j: int|
            0 <= i < rows.len() && 0 <= j < schema.len() implies #[trigger] coerced_at(
            rows,
            schema,
            i,
            j,
        ) == Ok::<CellView, DecodeErrorView>(records[i][j]) && cell_fits(
            records[i][j],
            schema[j],
        ) by {}
    } else {
        let i = choose|i: int|
            0 <= i < rows.len() && !(#[trigger] decoded_at(rows, schema, i) is Ok);
        let j = choose|j: int|
            0 <= j < schema.len() && !(#[trigger] coerced_field(
                rows[i],
                schema,
                row_number(i),
                j,
            ) is Ok);
        assert(!(coerced_at(rows, schema, i, j) is Ok));
    }
}

/// Decoding fails with the error of the first value that is refused: rows are
/// taken in their order, and in each row the fields in the schema's order.
pub proof fn decoding_fails_at_first_refusal(
    rows: Seq<Seq<RawCellView>>,
    schema: Seq<FieldView>,
    i: int,
    j: int,
)
    requires
        first_refusal(rows, schema, i, j),
    ensures
        decoded_rows(rows, schema) == Err::<Seq<Seq<CellView>>, DecodeErrorView>(
            coerced_at(rows, schema, i, j)->Err_0,
        ),
{
    assert(first_refused_field(rows[i], schema, row_number(i), j)) by {
        assert forall|b: int| 0 <= b < j implies #[trigger] coerced_field(
            rows[i],
            schema,
            row_number(i),
            b,
        ) is Ok by {
            assert(coerced_at(rows, schema, i, b) is Ok);
        }
    }
    assert(first_refused_row(rows, schema, i)) by {
        assert forall|a: int| 0 <= a < i implies #[trigger] decoded_at(rows, schema, a) is Ok by {
            assert forall|b: int| 0 <= b < schema.len() implies #[trigger] coerced_field(
                rows[a],
                schema,
                row_number(a),
                b,
            ) is Ok by {
                assert(coerced_at(rows, schema, a, b) is Ok);
            }
        }
    }
}

/// Where decoding fails, some value is refused, and the error is that of the
/// first such value.
pub proof fn failure_has_a_first_refusal(rows: Seq<Seq<RawCellView>>, schema: Seq<FieldView>)
    requires
        decoded_rows(rows, schema) is Err,
    ensures
        exists|i: int, j: int| #[trigger]
            first_refusal(rows, schema, i, j) && decoded_rows(rows, schema) == Err::<
                Seq<Seq<CellView>>,
                DecodeErrorView,
            >(coerced_at(rows, schema, i, j)->Err_0),
{
    let i = least_refused_row(rows, schema, rows.len() as int);
    let raw = rows[i];
    let row = row_number(i);
    let j = least_refused_field(raw, schema, row, schema.len() as int);
    assert(first_refusal(rows, schema, i, j)) by {
        assert forall|a: int, b: int|
            0 <= a < i && 0 <= b < schema.len() implies #[trigger] coerced_at(
            rows,
            schema,
            a,
            b,
        ) is Ok by {
            assert(decoded_at(rows, schema, a) is Ok);
        }
    }
}

/// Among the first `count` rows of a source that is not accepted up to
/// there, the first that raises an error.
proof fn least_refused_row(
    rows: Seq<Seq<RawCellView>>,
    schema: Seq<FieldView>,
    count: int,
) -> (i: int)
    requires
        0 <= count <= rows.len(),
        exists|a: int| 0 <= a < count && #[trigger] decoded_at(rows, schema, a) is Err,
    ensures
        first_refused_row(rows, schema, i),
        i < count,
    decreases count,
{
    if exists|a: int| 0 <= a < count - 1 && #[trigger] decoded_at(rows, schema, a) is Err {
        least_refused_row(rows, schema, count - 1)
    } else {
        count - 1
    }
}

/// Among the first `count` fields of a row that is not accepted up to there,
/// the first that refuses the row's value.
proof fn least_refused_field(
    raw: Seq<RawCellView>,
    schema: Seq<FieldView>,
    row: nat,
    count: int,
) -> (j: int)
    requires
        0 <= count <= schema.len(),
        exists|k: int| 0 <= k < count && #[trigger] coerced_field(raw, schema, row, k) is Err,
    ensures
        first_refused_field(raw, schema, row, j),
        j < count,
    decreases count,
{
    if exists|k: int| 0 <= k < count - 1 && #[trigger] coerced_field(raw, schema, row, k) is Err {
        least_refused_field(raw, schema, row, count - 1)
    } else {
        count - 1
    }
}

/// A row without a value under a field that is not nullable makes decoding
/// fail: the row is never dropped. Where no value before it is refused, the
/// failure names that field and that row.
pub proof fn missing_required_field_fails(
    rows: Seq<Seq<RawCellView>>,
    schema: Seq<FieldView>,
    i: int,
    j: int,
)
    requires
        0 <= i < rows.len(),
        0 <= j < schema.len(),
        !schema[j].nullable,
        raw_at(rows[i], j) is Absent || raw_at(rows[i], j) is Null,
    ensures
        decoded_rows(rows, schema) is Err,
        first_refusal(rows, schema, i, j) ==> decoded_rows(rows, schema) == Err::<
            Seq<Seq<CellView>>,
            DecodeErrorView,
        >(DecodeErrorView::MissingRequiredField(schema[j].name, row_number(i))),
{
    decoding_succeeds(rows, schema);
    if first_refusal(rows, schema, i, j) {
        decoding_fails_at_first_refusal(rows, schema, i, j);
    }
}

} // verus!
