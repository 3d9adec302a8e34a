//! The generator: synthetic tables from parametric models and a seed.
//!
//! Every value is a function of the seed, the column's position and model, and
//! the row, so a given seed always gives the same table.

use vstd::prelude::*;
use crate::model::views;
use crate::record::CellView;
use crate::schema::FieldType;
use crate::table::{well_formed, Column, ColumnData, ColumnView, Table, TableView};

verus! {

/// How the values of one generated column are drawn.
#[derive(Clone, Copy, PartialEq, Eq, Structural, Debug)]
pub enum Model {
    /// Every row holds this value.
    Constant(i64),
    /// Every row holds a value from `low` to `high`, both included, drawn from
    /// the seeded stream of the column.
    Uniform { low: i64, high: i64 },
}

/// One column to generate: its name and its model.
#[derive(Debug, PartialEq, Eq)]
pub struct ColumnSpec {
    pub name: String,
    pub model: Model,
}

/// A column to generate as the contracts see it.
pub struct ColumnSpecView {
    pub name: Seq<char>,
    pub model: Model,
}

impl View for ColumnSpec {
    type V = ColumnSpecView;

    open spec fn view(&self) -> ColumnSpecView {
        ColumnSpecView { name: self.name@, model: self.model }
    }
}

/// A description of a table to generate, as the contracts see it.
pub struct GeneratorSpecView {
    pub columns: Seq<ColumnSpecView>,
    pub rows: nat,
    pub seed: u64,
}

/// The increment of the stream's state.
pub const GAMMA: u64 = 0x9E37_79B9_7F4A_7C15;

/// The first multiplier of the mixing function.
pub const MIX_A: u64 = 0xBF58_476D_1CE4_E5B9;

/// The second multiplier of the mixing function.
pub const MIX_B: u64 = 0x94D0_49BB_1331_11EB;

/// The mixing function of the stream (that of SplitMix64).
pub open spec fn mixed(state: u64) -> u64 {
    let a = (state ^ (state >> 30)).wrapping_mul(MIX_A);
    let b = (a ^ (a >> 27)).wrapping_mul(MIX_B);
    b ^ (b >> 31)
}

/// The state from which the stream of a column starts.
pub open spec fn stream_start(seed: u64, column: u64) -> u64 {
    mixed(seed.wrapping_add(column.wrapping_mul(GAMMA)))
}

/// The state of a stream at a row: one increment past the state before.
pub open spec fn stream_state(start: u64, row: nat) -> u64
    decreases row,
{
    if row == 0 {
        start.wrapping_add(GAMMA)
    } else {
        stream_state(start, (row - 1) as nat).wrapping_add(GAMMA)
    }
}

/// The number drawn for a row of a column.
pub open spec fn draw(seed: u64, column: u64, row: nat) -> u64 {
    mixed(stream_state(stream_start(seed, column), row))
}

/// The value that a model gives for a drawn number.
pub open spec fn model_value(model: Model, drawn: u64) -> int {
    match model {
        Model::Constant(value) => value as int,
        Model::Uniform { low, high } => low + drawn as int % (high - low + 1),
    }
}

/// A model is sound: the bounds of a uniform model are in order.
pub open spec fn sound_model(model: Model) -> bool {
    match model {
        Model::Constant(_) => true,
        Model::Uniform { low, high } => low <= high,
    }
}

/// What holds of every description: the models are sound and no two columns
/// share a name.
pub open spec fn sound(spec: GeneratorSpecView) -> bool {
    &&& forall|j: int| 0 <= j < spec.columns.len() ==> sound_model(#[trigger] spec.columns[j].model)
    &&& forall|a: int, b: int|
        0 <= a < b < spec.columns.len() ==> spec.columns[a].name != spec.columns[b].name
}

/// The cell of a row of a column.
pub open spec fn generated_cell(spec: GeneratorSpecView, column: int, row: int) -> CellView {
    CellView::Integer(
        model_value(spec.columns[column].model, draw(spec.seed, column as u64, row as nat)) as i64,
    )
}

/// The table that a description stands for: its columns in their order, each
/// with one cell for each row.
pub open spec fn generated(spec: GeneratorSpecView) -> TableView {
    TableView {
        columns: Seq::new(
            spec.columns.len(),
            |j: int|
                ColumnView {
                    name: spec.columns[j].name,
                    kind: FieldType::Integer,
                    cells: Seq::new(spec.rows, |i: int| generated_cell(spec, j, i)),
                },
        ),
        rows: spec.rows,
    }
}

/// What to generate: the columns, the number of rows, and the seed.
#[derive(Debug, PartialEq, Eq)]
pub struct GeneratorSpec {
    columns: Vec<ColumnSpec>,
    rows: usize,
    seed: u64,
}

impl View for GeneratorSpec {
    type V = GeneratorSpecView;

    closed spec fn view(&self) -> GeneratorSpecView {
        GeneratorSpecView {
            columns: views(self.columns@),
            rows: self.rows as nat,
            seed: self.seed,
        }
    }
}

/// The value of a sound model lies in the model's range.
pub proof fn model_value_in_range(model: Model, drawn: u64)
    requires
        sound_model(model),
    ensures
        match model {
            Model::Constant(value) => model_value(model, drawn) == value,
            Model::Uniform { low, high } => low <= model_value(model, drawn) <= high,
        },
{
}

/// The mixing function of the stream.
fn mix(state: u64) -> (r: u64)
    ensures
        r == mixed(state),
{
    let a = (state ^ (state >> 30)).wrapping_mul(MIX_A);
    let b = (a ^ (a >> 27)).wrapping_mul(MIX_B);
    b ^ (b >> 31)
}

/// The value that a sound model gives for a drawn number.
fn value_of(model: Model, drawn: u64) -> (r: i64)
    requires
        sound_model(model),
    ensures
        r == model_value(model, drawn),
{
    match model {
        Model::Constant(value) => value,
        Model::Uniform { low, high } => {
            let span: i128 = high as i128 - low as i128 + 1;
            let offset: i128 = drawn as i128 % span;
            (low as i128 + offset) as i64
        },
    }
}

impl GeneratorSpec {
    /// What holds of every description.
    #[verifier::type_invariant]
    pub open spec fn valid(self) -> bool {
        sound(self@)
    }

    /// The description of a table of the given columns, rows and seed, unless
    /// two columns share a name or a uniform model has its bounds out of order.
    pub fn new(columns: Vec<ColumnSpec>, rows: usize, seed: u64) -> (r: Option<GeneratorSpec>)
        ensures
            match r {
                Some(spec) => spec@ == (GeneratorSpecView {
                    columns: views(columns@),
                    rows: rows as nat,
                    seed,
                }) && sound(spec@),
                None => !sound(
                    GeneratorSpecView { columns: views(columns@), rows: rows as nat, seed },
                ),
            },
    {
        let ghost listed = views(columns@);
        let mut j: usize = 0;
        while j < columns.len()
            invariant
                j <= columns@.len(),
                listed == views(columns@),
                forall|k: int| 0 <= k < j ==> sound_model(#[trigger] listed[k].model),
                forall|a: int, b: int| 0 <= a < b < j ==> listed[a].name != listed[b].name,
            decreases columns@.len() - j,
        {
            let in_order = match columns[j].model {
                Model::Constant(_) => true,
                Model::Uniform { low, high } => low <= high,
            };
            if !in_order {
                assert(!sound_model(listed[j as int].model));
                return None;
            }
            let mut i: usize = 0;
            while i < j
                invariant
                    i <= j < columns@.len(),
                    listed == views(columns@),
                    forall|a: int| 0 <= a < i ==> listed[a].name != listed[j as int].name,
                decreases j - i,
            {
                if columns[i].name == columns[j].name {
                    assert(listed[i as int].name == listed[j as int].name);
                    return None;
                }
                i += 1;
            }
            j += 1;
        }
        Some(GeneratorSpec { columns, rows, seed })
    }

    /// The number of rows to generate.
    pub fn rows(&self) -> (r: usize)
        ensures
            r == self@.rows,
    {
        self.rows
    }

    /// The seed.
    pub fn seed(&self) -> (r: u64)
        ensures
            r == self@.seed,
    {
        self.seed
    }

    /// The columns to generate, in their order.
    pub fn columns(&self) -> (r: &Vec<ColumnSpec>)
        ensures
            views(r@) == self@.columns,
    {
        &self.columns
    }
}

/// The values of one column: one for each row, each drawn from the column's
/// stream.
fn generate_column(model: Model, seed: u64, column: u64, rows: usize) -> (r: Vec<Option<i64>>)
    requires
        sound_model(model),
    ensures
        r@.len() == rows,
        forall|i: int|
            0 <= i < rows ==> #[trigger] r@[i] == Some(
                model_value(model, draw(seed, column, i as nat)) as i64,
            ),
{
    let start = mix(seed.wrapping_add(column.wrapping_mul(GAMMA)));
    let mut state = start;
    let mut entries: Vec<Option<i64>> = Vec::new();
    let mut i: usize = 0;
    while i < rows
        invariant
            i <= rows,
            sound_model(model),
            start == stream_start(seed, column),
            entries@.len() == i,
            i > 0 ==> state == stream_state(start, (i - 1) as nat),
            i == 0 ==> state == start,
            forall|k: int|
                0 <= k < i ==> #[trigger] entries@[k] == Some(
                    model_value(model, draw(seed, column, k as nat)) as i64,
                ),
        decreases rows - i,
    {
        state = state.wrapping_add(GAMMA);
        let value = value_of(model, mix(state));
        entries.push(Some(value));
        i += 1;
    }
    entries
}

/// Generates the table that a description stands for. The same description,
/// seed included, always gives the same table; no network and no decoder is
/// involved.
pub fn generate(spec: &GeneratorSpec) -> (r: Table)
    ensures
        r@ == generated(spec@),
{
    proof {
        use_type_invariant(spec);
    }
    let ghost target = generated(spec@);
    let mut columns: Vec<Column> = Vec::new();
    let mut j: usize = 0;
    while j < spec.columns.len()
        invariant
            j <= spec.columns@.len(),
            sound(spec@),
            target == generated(spec@),
            spec@.columns == views(spec.columns@),
            spec@.rows == spec.rows,
            spec@.seed == spec.seed,
            columns@.len() == j,
            forall|k: int| 0 <= k < j ==> (#[trigger] columns@[k])@ == target.columns[k],
        decreases spec.columns@.len() - j,
    {
        assert(sound_model(spec@.columns[j as int].model));
        let entries = generate_column(spec.columns[j].model, spec.seed, j as u64, spec.rows);
        let data = ColumnData::Integer(entries);
        assert(data.cells() =~= target.columns[j as int].cells);
        columns.push(Column { name: spec.columns[j].name.clone(), data });
        j += 1;
    }
    proof {
        assert(views(columns@) =~= target.columns);
    }
    Table::from_columns(columns, spec.rows).unwrap()
}

/// The table of a sound description is well formed: it has the rows asked
/// for in every column, and the columns asked for under their names.
pub proof fn generated_is_well_formed(spec: GeneratorSpecView)
    requires
        sound(spec),
    ensures
        well_formed(generated(spec)),
        generated(spec).rows == spec.rows,
        generated(spec).columns.len() == spec.columns.len(),
{
}

/// Two descriptions that are alike, seed included, give the same table, cell
/// for cell.
pub proof fn generation_is_reproducible(first: GeneratorSpec, second: GeneratorSpec)
    requires
        first@ == second@,
    ensures
        generated(first@) == generated(second@),
{
}

/// Every cell of a generated table holds a value of its column's model: the
/// constant of a constant model, a value within the bounds of a uniform one.
pub proof fn generated_cells_follow_models(spec: GeneratorSpecView, column: int, row: int)
    requires
        sound(spec),
        0 <= column < spec.columns.len(),
        0 <= row < spec.rows,
    ensures
        generated(spec).columns[column].cells[row] matches CellView::Integer(value)
            && match spec.columns[column].model {
            Model::Constant(constant) => value == constant,
            Model::Uniform { low, high } => low <= value <= high,
        },
{
}

} // verus!
