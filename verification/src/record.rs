//! The input record synthesizer: all plain inputs of a method as one record.

use vstd::prelude::*;
use crate::model::{
    CapabilitySet, Field, FieldView, InputRecord, InputRecordView, Parameter, ParameterView,
    SerializationFormat, TypeDescription, TypeView, borrowed_views,
};
use crate::schema::{SchemaReference, SchemaReferenceView, optional_schema, schema_of, schema_reference};

verus! {

/// What a record of plain inputs can do under `format`: always describe itself
/// for the binary encoding, and for a textual one only where the inputs travel
/// as text.
pub open spec fn capabilities_for(format: SerializationFormat) -> CapabilitySet {
    CapabilitySet {
        binary_schema: true,
        textual_schema: format == SerializationFormat::Textual,
    }
}

/// The field that a plain input becomes: same name, same type.
pub open spec fn field_of(parameter: ParameterView) -> FieldView {
    FieldView { name: parameter.name, ty: parameter.ty }
}

/// The record of the given plain inputs: one field each, in order.
pub open spec fn record_of(
    plain_inputs: Seq<ParameterView>,
    format: SerializationFormat,
) -> InputRecordView {
    InputRecordView {
        fields: plain_inputs.map_values(|p: ParameterView| field_of(p)),
        capabilities: capabilities_for(format),
    }
}

/// The schema reference for a method's plain inputs: none where it has none,
/// else that of their record.
pub open spec fn input_schema_of(
    plain_inputs: Seq<ParameterView>,
    format: SerializationFormat,
) -> Option<SchemaReferenceView> {
    if plain_inputs.len() == 0 {
        None
    } else {
        Some(schema_reference(TypeView::Record(record_of(plain_inputs, format))))
    }
}

/// The capabilities that a record of plain inputs gets under `format`.
pub fn capabilities(format: SerializationFormat) -> (granted: CapabilitySet)
    ensures
        granted == capabilities_for(format),
{
    match format {
        SerializationFormat::Binary => CapabilitySet { binary_schema: true, textual_schema: false },
        SerializationFormat::Textual => CapabilitySet { binary_schema: true, textual_schema: true },
    }
}

/// Makes the record's field for one plain input.
pub fn field_from(parameter: &Parameter) -> (field: Field)
    ensures
        field@ == field_of(parameter@),
{
    Field { name: parameter.name.clone(), ty: parameter.ty.clone() }
}

/// Builds the record whose fields are exactly the given plain inputs.
pub fn synthesize_record(plain_inputs: &Vec<&Parameter>, format: SerializationFormat) -> (record:
    InputRecord)
    ensures
        record@ == record_of(borrowed_views(plain_inputs@), format),
{
    let mut fields: Vec<Field> = Vec::new();
    let mut i: usize = 0;
    while i < plain_inputs.len()
        invariant
            i <= plain_inputs.len(),
            fields.len() == i,
            forall|k: int| 0 <= k < i ==> (#[trigger] fields@[k])@ == field_of(plain_inputs@[k]@),
        decreases plain_inputs.len() - i,
    {
        fields.push(field_from(plain_inputs[i]));
        i += 1;
    }
    let record = InputRecord { fields, capabilities: capabilities(format) };
    proof {
        assert(record@.fields =~= record_of(borrowed_views(plain_inputs@), format).fields);
    }
    record
}

/// Gives the schema reference for a method's plain inputs: `None` where there
/// are none, else the reference to their record.
pub fn synthesize_input(plain_inputs: &Vec<&Parameter>, format: SerializationFormat) -> (reference:
    Option<SchemaReference>)
    ensures
        optional_schema(reference) == input_schema_of(borrowed_views(plain_inputs@), format),
{
    if plain_inputs.len() == 0 {
        None
    } else {
        Some(schema_of(TypeDescription::Record(synthesize_record(plain_inputs, format))))
    }
}

} // verus!
