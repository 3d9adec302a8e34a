//! The diabetes dataset: one row for each patient, with eight measurements,
//! the patient's age and the class of the test's outcome.

use vstd::prelude::*;
use crate::fetch::{Attempt, Encoding, SourceLocator};
use crate::registry::{load_view, loaded, LoadError, Provider, ProviderView};
use crate::schema::{distinct_names, Field, FieldType, FieldView, Schema};
use crate::table::Table;

verus! {

/// The name under which the dataset is known.
pub const NAME: &'static str = "diabetes";

/// Where the payload of the dataset is found: a path that names one version
/// of the data.
pub const SOURCE: &'static str =
    "https://raw.githubusercontent.com/monte-rs/monte-datasets/main/diabetes/diabetes.json";

/// The fields of a row, in column order. Every row has an `id`; any other
/// value may be missing.
pub open spec fn fields() -> Seq<FieldView> {
    seq![
        FieldView { name: "id"@, kind: FieldType::Integer, nullable: false },
        FieldView { name: "preg"@, kind: FieldType::Integer, nullable: true },
        FieldView { name: "plas"@, kind: FieldType::Integer, nullable: true },
        FieldView { name: "pres"@, kind: FieldType::Integer, nullable: true },
        FieldView { name: "skin"@, kind: FieldType::Integer, nullable: true },
        FieldView { name: "insu"@, kind: FieldType::Integer, nullable: true },
        FieldView { name: "mass"@, kind: FieldType::Float, nullable: true },
        FieldView { name: "pedi"@, kind: FieldType::Float, nullable: true },
        FieldView { name: "age"@, kind: FieldType::Integer, nullable: true },
        FieldView { name: "class"@, kind: FieldType::Text, nullable: true },
    ]
}

/// The provider of the dataset as the contracts see it.
pub open spec fn provider_view() -> ProviderView {
    ProviderView {
        name: NAME@,
        locator: SOURCE@,
        schema: fields(),
        encoding: Encoding::Json,
    }
}

/// The names of the fields are distinct.
pub proof fn fields_are_distinct()
    ensures
        distinct_names(fields()),
{
    reveal_strlit("id");
    reveal_strlit("preg");
    reveal_strlit("plas");
    reveal_strlit("pres");
    reveal_strlit("skin");
    reveal_strlit("insu");
    reveal_strlit("mass");
    reveal_strlit("pedi");
    reveal_strlit("age");
    reveal_strlit("class");
    let names = fields();
    assert forall|i: int, j: int| 0 <= i < j < names.len() implies names[i].name
        != names[j].name by {
        if names[i].name == names[j].name {
            assert(names[i].name.len() == names[j].name.len());
            assert(names[i].name[1] == names[j].name[1]);
            assert(names[i].name[3] == names[j].name[3]);
        }
    }
}

/// The schema of the dataset.
pub fn schema() -> (r: Schema)
    ensures
        r@ == fields(),
{
    let mut listed: Vec<Field> = Vec::new();
    listed.push(Field::new("id", FieldType::Integer, false));
    listed.push(Field::new("preg", FieldType::Integer, true));
    listed.push(Field::new("plas", FieldType::Integer, true));
    listed.push(Field::new("pres", FieldType::Integer, true));
    listed.push(Field::new("skin", FieldType::Integer, true));
    listed.push(Field::new("insu", FieldType::Integer, true));
    listed.push(Field::new("mass", FieldType::Float, true));
    listed.push(Field::new("pedi", FieldType::Float, true));
    listed.push(Field::new("age", FieldType::Integer, true));
    listed.push(Field::new("class", FieldType::Text, true));
    proof {
        fields_are_distinct();
    }
    Schema::new(listed).unwrap()
}

/// The provider of the dataset: its name, where its payload is found, and
/// its schema.
pub fn provider() -> (r: Provider)
    ensures
        r@ == provider_view(),
{
    Provider {
        name: NAME.to_owned(),
        locator: SourceLocator { url: SOURCE.to_owned() },
        schema: schema(),
        encoding: Encoding::Json,
    }
}

/// The table of the dataset, from one attempt to retrieve its payload: the
/// error of the attempt, or of the first value that the schema refuses, or
/// else one column for each field, in the order of the schema.
pub fn get_as_dataframe(attempt: Attempt) -> (r: Result<Table, LoadError>)
    ensures
        load_view(r) == loaded(provider_view(), attempt@),
{
    provider().load(attempt)
}

} // verus!
