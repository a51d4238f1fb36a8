//! The schema reference builder: one way to refer to the schema of any type.

use vstd::prelude::*;
use crate::model::{Parameter, ParameterView, TypeDescription, TypeView, borrowed_views, optional_text};

verus! {

/// A handle on the schema of one type. It says whose schema is meant and holds
/// no schema itself. The only way to make one is [`schema_of`].
#[derive(Clone, Debug, PartialEq, Eq)]
pub struct SchemaReference {
    subject: TypeDescription,
}

/// A [`SchemaReference`] as contracts see it.
pub struct SchemaReferenceView {
    pub subject: TypeView,
}

impl View for SchemaReference {
    type V = SchemaReferenceView;

    closed spec fn view(&self) -> SchemaReferenceView {
        SchemaReferenceView { subject: self.subject@ }
    }
}

impl SchemaReference {
    /// The type whose schema this reference stands for.
    pub fn subject(&self) -> (subject: &TypeDescription)
        ensures
            subject@ == self@.subject,
    {
        &self.subject
    }
}

/// The views of a run of schema references, in the same order.
pub open spec fn schema_views(references: Seq<SchemaReference>) -> Seq<SchemaReferenceView> {
    references.map_values(|r: SchemaReference| r@)
}

/// The view of an optional schema reference.
pub open spec fn optional_schema(reference: Option<SchemaReference>) -> Option<
    SchemaReferenceView,
> {
    match reference {
        Some(r) => Some(r@),
        None => None,
    }
}

/// The reference to the schema of `ty`.
pub open spec fn schema_reference(ty: TypeView) -> SchemaReferenceView {
    SchemaReferenceView { subject: ty }
}

/// The reference to the schema of a declared type, given as it is written.
pub open spec fn declared_schema(written: Seq<char>) -> SchemaReferenceView {
    schema_reference(TypeView::Declared(written))
}

/// One reference per callback argument, by its declared type, in order.
pub open spec fn callback_schemas_of(callback_args: Seq<ParameterView>) -> Seq<
    SchemaReferenceView,
> {
    callback_args.map_values(|p: ParameterView| declared_schema(p.ty))
}

/// The reference for the callback vector: that of the candidate declared last,
/// if there is any candidate.
pub open spec fn callback_vector_schema_of(candidates: Seq<ParameterView>) -> Option<
    SchemaReferenceView,
> {
    if candidates.len() == 0 {
        None
    } else {
        Some(declared_schema(candidates.last().ty))
    }
}

/// The reference for the declared return type, if one is declared.
pub open spec fn result_schema_of(return_type: Option<Seq<char>>) -> Option<SchemaReferenceView> {
    match return_type {
        Some(written) => Some(declared_schema(written)),
        None => None,
    }
}

/// Refers to the schema of `ty`. The schema asked for is always the one of the
/// binary encoding, so `ty` has to expose it.
pub fn schema_of(ty: TypeDescription) -> (reference: SchemaReference)
    requires
        ty@.exposes_binary_schema(),
    ensures
        reference@ == schema_reference(ty@),
{
    SchemaReference { subject: ty }
}

/// Why no schema reference could be made: the type does not expose the schema
/// that was asked for.
#[derive(Clone, Copy, Debug, PartialEq, Eq, Structural)]
pub struct MissingSchemaCapability;

/// Refers to the schema of `ty` where `ty` exposes the schema of the binary
/// encoding, and fails where it does not.
pub fn try_schema_of(ty: TypeDescription) -> (outcome: Result<
    SchemaReference,
    MissingSchemaCapability,
>)
    ensures
        outcome.is_ok() <==> ty@.exposes_binary_schema(),
        outcome.is_ok() ==> outcome.unwrap()@ == schema_reference(ty@),
{
    if ty.exposes_binary_schema() {
        Ok(schema_of(ty))
    } else {
        Err(MissingSchemaCapability)
    }
}

/// Refers to the schema of the declared type written as `written`.
pub fn schema_of_declared(written: &String) -> (reference: SchemaReference)
    ensures
        reference@ == declared_schema(written@),
{
    schema_of(TypeDescription::Declared(written.clone()))
}

/// Refers to the schema of each callback argument's type, in the order of the
/// arguments.
pub fn callback_schemas(callback_args: &Vec<&Parameter>) -> (references: Vec<SchemaReference>)
    ensures
        schema_views(references@) == callback_schemas_of(borrowed_views(callback_args@)),
{
    let mut references: Vec<SchemaReference> = Vec::new();
    let mut i: usize = 0;
    while i < callback_args.len()
        invariant
            i <= callback_args.len(),
            references.len() == i,
            forall|k: int|
                0 <= k < i ==> (#[trigger] references@[k])@ == declared_schema(
                    callback_args@[k].ty@,
                ),
        decreases callback_args.len() - i,
    {
        references.push(schema_of_declared(&callback_args[i].ty));
        i += 1;
    }
    proof {
        assert(schema_views(references@) =~= callback_schemas_of(
            borrowed_views(callback_args@),
        ));
    }
    references
}

/// Refers to the schema of the callback vector's type. Where several parameters
/// claim that role, the one declared last is taken and the others are passed
/// over.
pub fn callback_vector_schema(candidates: &Vec<&Parameter>) -> (reference: Option<
    SchemaReference,
>)
    ensures
        optional_schema(reference) == callback_vector_schema_of(borrowed_views(candidates@)),
{
    let count = candidates.len();
    if count == 0 {
        None
    } else {
        Some(schema_of_declared(&candidates[count - 1].ty))
    }
}

/// Refers to the schema of the return type, where one is declared.
pub fn result_schema(return_type: &Option<String>) -> (reference: Option<SchemaReference>)
    ensures
        optional_schema(reference) == result_schema_of(optional_text(*return_type)),
{
    match return_type {
        Some(written) => Some(schema_of_declared(written)),
        None => None,
    }
}

} // verus!
