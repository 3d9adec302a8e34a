//! Schemas: the declared fields of a dataset, in column order.

use vstd::prelude::*;
use crate::model::views;

verus! {

/// The semantic type of the values of a field.
#[derive(Clone, Copy, PartialEq, Eq, Structural, Debug)]
pub enum FieldType {
    Integer,
    Float,
    Text,
}

/// One declared field: its name, the type of its values, and whether a row
/// may lack a value for it.
#[derive(Debug, PartialEq, Eq)]
pub struct Field {
    pub name: String,
    pub kind: FieldType,
    pub nullable: bool,
}

/// A field as the contracts see it.
pub struct FieldView {
    pub name: Seq<char>,
    pub kind: FieldType,
    pub nullable: bool,
}

impl View for Field {
    type V = FieldView;

    open spec fn view(&self) -> FieldView {
        FieldView { name: self.name@, kind: self.kind, nullable: self.nullable }
    }
}

impl Clone for Field {
    fn clone(&self) -> (r: Self)
        ensures
            r@ == self@,
    {
        Field { name: self.name.clone(), kind: self.kind, nullable: self.nullable }
    }
}

impl Field {
    pub fn new(name: &str, kind: FieldType, nullable: bool) -> (r: Field)
        ensures
            r@ == (FieldView { name: name@, kind, nullable }),
    {
        Field { name: name.to_owned(), kind, nullable }
    }
}

/// No two fields of the sequence share a name.
pub open spec fn distinct_names(fields: Seq<FieldView>) -> bool {
    forall|i: int, j: int| 0 <= i < j < fields.len() ==> fields[i].name != fields[j].name
}

/// The fields of a dataset in column order. No two of them share a name.
#[derive(Debug, PartialEq, Eq)]
pub struct Schema {
    fields: Vec<Field>,
}

impl View for Schema {
    type V = Seq<FieldView>;

    closed spec fn view(&self) -> Seq<FieldView> {
        views(self.fields@)
    }
}

impl Schema {
    /// What holds of every schema: no two fields share a name.
    #[verifier::type_invariant]
    pub open spec fn valid(self) -> bool {
        distinct_names(self@)
    }

    /// The schema of the given fields, unless two of them share a name.
    pub fn new(fields: Vec<Field>) -> (r: Option<Schema>)
        ensures
            match r {
                Some(schema) => schema@ == views(fields@) && distinct_names(schema@),
                None => !distinct_names(views(fields@)),
            },
    {
        let ghost names = views(fields@);
        let mut j: usize = 0;
        while j < fields.len()
            invariant
                j <= fields.len(),
                names == views(fields@),
                forall|a: int, b: int| 0 <= a < b < j ==> names[a].name != names[b].name,
            decreases fields.len() - j,
        {
            let mut i: usize = 0;
            while i < j
                invariant
                    i <= j < fields.len(),
                    names == views(fields@),
                    forall|a: int| 0 <= a < i ==> names[a].name != names[j as int].name,
                decreases j - i,
            {
                if fields[i].name == fields[j].name {
                    assert(names[i as int].name == names[j as int].name);
                    return None;
                }
                i += 1;
            }
            j += 1;
        }
        Some(Schema { fields })
    }

    /// The number of fields.
    pub fn len(&self) -> (r: usize)
        ensures
            r == self@.len(),
    {
        self.fields.len()
    }

    /// The field at position `index`, where the schema has that many fields.
    pub fn field(&self, index: usize) -> (r: Option<&Field>)
        ensures
            match r {
                Some(field) => index < self@.len() && field@ == self@[index as int],
                None => index >= self@.len(),
            },
    {
        if index < self.fields.len() {
            Some(&self.fields[index])
        } else {
            None
        }
    }

    /// The field at a position that the schema has.
    pub(crate) fn at(&self, index: usize) -> (r: &Field)
        requires
            index < self@.len(),
        ensures
            r@ == self@[index as int],
    {
        &self.fields[index]
    }

    /// The position of the field called `name`, where the schema has one.
    pub fn position(&self, name: &str) -> (r: Option<usize>)
        ensures
            match r {
                Some(index) => {
                    &&& index < self@.len()
                    &&& self@[index as int].name == name@
                    &&& forall|i: int|
                        0 <= i < self@.len() && i != index ==> self@[i].name != name@
                },
                None => forall|i: int| 0 <= i < self@.len() ==> self@[i].name != name@,
            },
    {
        proof {
            use_type_invariant(self);
        }
        let key = name.to_owned();
        let mut i: usize = 0;
        while i < self.fields.len()
            invariant
                i <= self.fields.len(),
                key@ == name@,
                distinct_names(self@),
                forall|k: int| 0 <= k < i ==> self@[k].name != name@,
            decreases self.fields.len() - i,
        {
            if self.fields[i].name == key {
                return Some(i);
            }
            i += 1;
        }
        None
    }

    /// The fields in column order.
    pub fn fields(&self) -> (r: &Vec<Field>)
        ensures
            views(r@) == self@,
    {
        &self.fields
    }
}

} // verus!
