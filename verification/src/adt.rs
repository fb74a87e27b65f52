//! The type definitions that trait bodies are generated for: a struct, an
//! enum or a union, as far as the generators read them. A name is absent
//! where the definition was written without one (an incomplete item).

use vstd::prelude::*;

verus! {

/// A named field `name: Type` of a record field list.
#[derive(Clone, Debug, PartialEq, Eq)]
pub struct RecordField {
    pub name: Option<String>,
}

/// The fields of a struct or of an enum variant.
#[derive(Clone, Debug, PartialEq, Eq)]
pub enum FieldList {
    /// `{ a: A, b: B }`.
    Record(Vec<RecordField>),
    /// `(A, B)`, by its number of fields.
    Tuple(usize),
}

/// A variant of an enum.
#[derive(Clone, Debug, PartialEq, Eq)]
pub struct Variant {
    pub name: Option<String>,
    /// Absent for a unit variant.
    pub field_list: Option<FieldList>,
}

/// A type definition.
#[derive(Clone, Debug, PartialEq, Eq)]
pub enum Adt {
    /// `field_list` is absent for a unit struct `struct S;`.
    Struct { name: Option<String>, field_list: Option<FieldList> },
    /// `variant_list` is absent where the enum was written without braces.
    Enum { name: Option<String>, variant_list: Option<Vec<Variant>> },
    Union { name: Option<String> },
}

pub enum SpecFieldList {
    Record(Seq<Option<Seq<char>>>),
    Tuple(nat),
}

pub struct SpecVariant {
    pub name: Option<Seq<char>>,
    pub field_list: Option<SpecFieldList>,
}

pub enum SpecAdt {
    Struct { name: Option<Seq<char>>, field_list: Option<SpecFieldList> },
    Enum { name: Option<Seq<char>>, variant_list: Option<Seq<SpecVariant>> },
    Union { name: Option<Seq<char>> },
}

pub open spec fn opt_string_view(s: Option<String>) -> Option<Seq<char>> {
    match s {
        Some(s) => Some(s@),
        None => None,
    }
}

impl View for RecordField {
    type V = Option<Seq<char>>;

    open spec fn view(&self) -> Option<Seq<char>> {
        opt_string_view(self.name)
    }
}

/// The names of record fields.
pub open spec fn field_names(fields: Seq<RecordField>) -> Seq<Option<Seq<char>>> {
    fields.map_values(|f: RecordField| f@)
}

impl View for FieldList {
    type V = SpecFieldList;

    open spec fn view(&self) -> SpecFieldList {
        match self {
            FieldList::Record(fields) => SpecFieldList::Record(field_names(fields@)),
            FieldList::Tuple(n) => SpecFieldList::Tuple(*n as nat),
        }
    }
}

pub open spec fn opt_field_list_view(l: Option<FieldList>) -> Option<SpecFieldList> {
    match l {
        Some(l) => Some(l@),
        None => None,
    }
}

impl View for Variant {
    type V = SpecVariant;

    open spec fn view(&self) -> SpecVariant {
        SpecVariant {
            name: opt_string_view(self.name),
            field_list: opt_field_list_view(self.field_list),
        }
    }
}

pub open spec fn variants_view(vs: Seq<Variant>) -> Seq<SpecVariant> {
    vs.map_values(|v: Variant| v@)
}

impl View for Adt {
    type V = SpecAdt;

    open spec fn view(&self) -> SpecAdt {
        match self {
            Adt::Struct { name, field_list } => SpecAdt::Struct {
                name: opt_string_view(*name),
                field_list: opt_field_list_view(*field_list),
            },
            Adt::Enum { name, variant_list } => SpecAdt::Enum {
                name: opt_string_view(*name),
                variant_list: match variant_list {
                    Some(vs) => Some(variants_view(vs@)),
                    None => None,
                },
            },
            Adt::Union { name } => SpecAdt::Union { name: opt_string_view(*name) },
        }
    }
}

impl SpecAdt {
    /// The name the definition was written with.
    pub open spec fn name(self) -> Option<Seq<char>> {
        match self {
            SpecAdt::Struct { name, .. } => name,
            SpecAdt::Enum { name, .. } => name,
            SpecAdt::Union { name } => name,
        }
    }
}

/// Every field of the list has a name.
pub open spec fn all_named(fields: Seq<Option<Seq<char>>>) -> bool {
    forall|i: int| 0 <= i < fields.len() ==> (#[trigger] fields[i]) is Some
}

/// The names of record fields are read field for field: the `i`-th name is
/// that of the `i`-th field, absent where the field has none.
pub proof fn law_field_names(fields: Seq<RecordField>)
    ensures
        field_names(fields).len() == fields.len(),
        forall|i: int|
            0 <= i < fields.len() ==> #[trigger] field_names(fields)[i] == match fields[i].name {
                Some(n) => Some(n@),
                None => None,
            },
{
}

/// The variants are read variant for variant, each with its name and
/// field list.
pub proof fn law_variants_view(vs: Seq<Variant>)
    ensures
        variants_view(vs).len() == vs.len(),
        forall|i: int|
            0 <= i < vs.len() ==> (#[trigger] variants_view(vs)[i]).name == opt_string_view(
                vs[i].name,
            ) && variants_view(vs)[i].field_list == opt_field_list_view(vs[i].field_list),
{
}

} // verus!
