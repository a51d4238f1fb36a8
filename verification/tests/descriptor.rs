use method_metadata::classify::{classify, select_role};
use method_metadata::descriptor::{assemble, MethodMetadataDescriptor};
use method_metadata::model::{
    CapabilitySet, Field, InputRecord, MethodKind, MethodSignature, Parameter, ParameterRole,
    SerializationFormat, TypeDescription,
};
use method_metadata::record::{capabilities, field_from, synthesize_input, synthesize_record};
use method_metadata::schema::{
    callback_schemas, callback_vector_schema, result_schema, schema_of, schema_of_declared,
    try_schema_of, MissingSchemaCapability, SchemaReference,
};

fn param(name: &str, ty: &str, role: ParameterRole) -> Parameter {
    Parameter { name: name.to_string(), ty: ty.to_string(), role }
}

fn field(name: &str, ty: &str) -> Field {
    Field { name: name.to_string(), ty: ty.to_string() }
}

fn declared(ty: &str) -> SchemaReference {
    schema_of(TypeDescription::Declared(ty.to_string()))
}

fn record(fields: Vec<Field>, binary_schema: bool, textual_schema: bool) -> SchemaReference {
    schema_of(TypeDescription::Record(InputRecord {
        fields,
        capabilities: CapabilitySet { binary_schema, textual_schema },
    }))
}

fn signature(
    name: &str,
    kind: MethodKind,
    serializer: SerializationFormat,
    parameters: Vec<Parameter>,
    return_type: Option<&str>,
) -> MethodSignature {
    MethodSignature {
        name: name.to_string(),
        kind,
        serializer,
        parameters,
        return_type: return_type.map(|t| t.to_string()),
    }
}

#[test]
fn end_to_end_textual_call() {
    let sig = signature(
        "f3",
        MethodKind::Call,
        SerializationFormat::Textual,
        vec![
            param("arg0", "FancyStruct", ParameterRole::PlainInput),
            param("arg1", "u64", ParameterRole::PlainInput),
        ],
        Some("Result<IsOk, Error>"),
    );
    let d: MethodMetadataDescriptor = sig.metadata_struct();
    assert_eq!(d.name(), "f3");
    assert_eq!(d.is_view(), false);
    assert_eq!(d.is_init(), false);
    assert_eq!(
        d.args(),
        &Some(record(vec![field("arg0", "FancyStruct"), field("arg1", "u64")], true, true))
    );
    assert_eq!(d.callbacks(), &vec![]);
    assert_eq!(d.callbacks_vec(), &None);
    assert_eq!(d.result(), &Some(declared("Result<IsOk, Error>")));
    let expected = assemble(
        "f3".to_string(),
        MethodKind::Call,
        Some(record(vec![field("arg0", "FancyStruct"), field("arg1", "u64")], true, true)),
        vec![],
        None,
        Some(declared("Result<IsOk, Error>")),
    );
    assert_eq!(d, expected);
}

#[test]
fn no_plain_input_gives_no_args() {
    let sig = signature(
        "f",
        MethodKind::Call,
        SerializationFormat::Textual,
        vec![
            param("cb", "A", ParameterRole::CallbackArg),
            param("v", "Vec<B>", ParameterRole::CallbackArgVector),
        ],
        Some("u8"),
    );
    let d = sig.metadata_struct();
    assert_eq!(d.args(), &None);
    assert_eq!(d.callbacks(), &vec![declared("A")]);
    assert_eq!(d.callbacks_vec(), &Some(declared("Vec<B>")));
    assert_eq!(d.result(), &Some(declared("u8")));
}

#[test]
fn empty_signature_gives_empty_descriptor() {
    let sig = signature("nothing", MethodKind::Call, SerializationFormat::Binary, vec![], None);
    let d = sig.metadata_struct();
    assert_eq!(d.name(), "nothing");
    assert!(!d.is_view());
    assert!(!d.is_init());
    assert_eq!(d.args(), &None);
    assert!(d.callbacks().is_empty());
    assert_eq!(d.callbacks_vec(), &None);
    assert_eq!(d.result(), &None);
}

#[test]
fn input_record_has_the_plain_inputs_as_fields() {
    let sig = signature(
        "f",
        MethodKind::Call,
        SerializationFormat::Binary,
        vec![
            param("arg0", "T0", ParameterRole::PlainInput),
            param("arg1", "T1", ParameterRole::PlainInput),
        ],
        None,
    );
    let d = sig.metadata_struct();
    assert_eq!(d.args(), &Some(record(vec![field("arg0", "T0"), field("arg1", "T1")], true, false)));
    let reference = d.args().clone().unwrap();
    match reference.subject() {
        TypeDescription::Record(r) => {
            assert_eq!(r.fields.len(), 2);
            assert_eq!(r.fields[0].name, "arg0");
            assert_eq!(r.fields[0].ty, "T0");
            assert_eq!(r.fields[1].name, "arg1");
            assert_eq!(r.fields[1].ty, "T1");
        }
        TypeDescription::Declared(_) => panic!("the input schema is that of a record"),
    }
}

#[test]
fn input_record_skips_other_roles_and_keeps_order() {
    let sig = signature(
        "f",
        MethodKind::Call,
        SerializationFormat::Binary,
        vec![
            param("z", "Z", ParameterRole::PlainInput),
            param("cb", "A", ParameterRole::CallbackArg),
            param("a", "A0", ParameterRole::PlainInput),
            param("v", "V", ParameterRole::CallbackArgVector),
            param("m", "M", ParameterRole::PlainInput),
        ],
        None,
    );
    let d = sig.metadata_struct();
    assert_eq!(
        d.args(),
        &Some(record(vec![field("z", "Z"), field("a", "A0"), field("m", "M")], true, false))
    );
    assert_eq!(d.callbacks(), &vec![declared("A")]);
    assert_eq!(d.callbacks_vec(), &Some(declared("V")));
}

#[test]
fn format_changes_the_capabilities_of_the_input_record() {
    let parameters = vec![param("arg0", "T0", ParameterRole::PlainInput)];
    let binary =
        signature("f", MethodKind::Call, SerializationFormat::Binary, parameters.clone(), None)
            .metadata_struct();
    let textual =
        signature("f", MethodKind::Call, SerializationFormat::Textual, parameters, None)
            .metadata_struct();
    assert_ne!(binary.args(), textual.args());
    assert_eq!(binary.args(), &Some(record(vec![field("arg0", "T0")], true, false)));
    assert_eq!(textual.args(), &Some(record(vec![field("arg0", "T0")], true, true)));
}

#[test]
fn format_changes_nothing_but_args() {
    let parameters = vec![
        param("arg0", "T0", ParameterRole::PlainInput),
        param("cb", "A", ParameterRole::CallbackArg),
        param("v", "V", ParameterRole::CallbackArgVector),
    ];
    let binary =
        signature("f", MethodKind::View, SerializationFormat::Binary, parameters.clone(), Some("R"))
            .metadata_struct();
    let textual =
        signature("f", MethodKind::View, SerializationFormat::Textual, parameters, Some("R"))
            .metadata_struct();
    assert_ne!(binary, textual);
    assert_eq!(binary.name(), textual.name());
    assert_eq!(binary.is_view(), textual.is_view());
    assert_eq!(binary.is_init(), textual.is_init());
    assert_eq!(binary.callbacks(), textual.callbacks());
    assert_eq!(binary.callbacks_vec(), textual.callbacks_vec());
    assert_eq!(binary.result(), textual.result());
    assert_eq!(binary.callbacks(), &vec![declared("A")]);
    assert_eq!(binary.callbacks_vec(), &Some(declared("V")));
    assert_eq!(binary.result(), &Some(declared("R")));
}

#[test]
fn callbacks_keep_declaration_order() {
    let sig = signature(
        "f",
        MethodKind::Call,
        SerializationFormat::Textual,
        vec![
            param("cb0", "A", ParameterRole::CallbackArg),
            param("cb1", "B", ParameterRole::CallbackArg),
        ],
        None,
    );
    let d = sig.metadata_struct();
    assert_eq!(d.callbacks(), &vec![declared("A"), declared("B")]);
    assert_ne!(d.callbacks(), &vec![declared("B"), declared("A")]);
    assert_eq!(d.args(), &None);
    assert_eq!(d.callbacks_vec(), &None);
}

#[test]
fn last_callback_vector_wins() {
    let sig = signature(
        "f",
        MethodKind::Call,
        SerializationFormat::Textual,
        vec![
            param("v0", "X", ParameterRole::CallbackArgVector),
            param("v1", "Y", ParameterRole::CallbackArgVector),
        ],
        None,
    );
    let d = sig.metadata_struct();
    assert_eq!(d.callbacks_vec(), &Some(declared("Y")));
    assert_eq!(d.callbacks(), &vec![]);
}

#[test]
fn last_callback_vector_wins_with_others_after_it() {
    let sig = signature(
        "f",
        MethodKind::Call,
        SerializationFormat::Binary,
        vec![
            param("v0", "X", ParameterRole::CallbackArgVector),
            param("a", "u8", ParameterRole::PlainInput),
            param("v1", "Y", ParameterRole::CallbackArgVector),
            param("cb", "C", ParameterRole::CallbackArg),
        ],
        None,
    );
    assert_eq!(sig.metadata_struct().callbacks_vec(), &Some(declared("Y")));
}

#[test]
fn flags_follow_the_kind() {
    let flags = |kind: MethodKind| {
        let d = signature("f", kind, SerializationFormat::Binary, vec![], None).metadata_struct();
        (d.is_view(), d.is_init())
    };
    assert_eq!(flags(MethodKind::View), (true, false));
    assert_eq!(flags(MethodKind::Init), (false, true));
    assert_eq!(flags(MethodKind::InitIgnoreState), (false, true));
    assert_eq!(flags(MethodKind::Call), (false, false));
}

#[test]
fn kind_predicates() {
    assert!(MethodKind::View.is_view());
    assert!(!MethodKind::View.is_init());
    assert!(MethodKind::Init.is_init());
    assert!(!MethodKind::Init.is_view());
    assert!(MethodKind::InitIgnoreState.is_init());
    assert!(!MethodKind::Call.is_view());
    assert!(!MethodKind::Call.is_init());
}

#[test]
fn result_is_present_where_a_return_type_is_declared() {
    let without =
        signature("f", MethodKind::Call, SerializationFormat::Binary, vec![], None).metadata_struct();
    let with = signature("f", MethodKind::Call, SerializationFormat::Binary, vec![], Some("R"))
        .metadata_struct();
    assert_eq!(without.result(), &None);
    assert_eq!(with.result(), &Some(declared("R")));
}

#[test]
fn descriptor_keeps_the_method_name() {
    let d = signature("transfer", MethodKind::Call, SerializationFormat::Binary, vec![], None)
        .metadata_struct();
    assert_eq!(d.name(), "transfer");
}

#[test]
fn classify_parts_by_role_in_order() {
    let parameters = vec![
        param("a", "A", ParameterRole::PlainInput),
        param("b", "B", ParameterRole::CallbackArg),
        param("c", "C", ParameterRole::CallbackArgVector),
        param("d", "D", ParameterRole::PlainInput),
        param("e", "E", ParameterRole::CallbackArg),
        param("f", "F", ParameterRole::CallbackArgVector),
    ];
    let parts = classify(&parameters);
    assert_eq!(parts.plain_inputs, vec![&parameters[0], &parameters[3]]);
    assert_eq!(parts.callback_args, vec![&parameters[1], &parameters[4]]);
    assert_eq!(parts.callback_vector_candidates, vec![&parameters[2], &parameters[5]]);
}

#[test]
fn classify_of_nothing_is_three_empty_parts() {
    let parameters: Vec<Parameter> = vec![];
    let parts = classify(&parameters);
    assert!(parts.plain_inputs.is_empty());
    assert!(parts.callback_args.is_empty());
    assert!(parts.callback_vector_candidates.is_empty());
}

#[test]
fn select_role_picks_one_role() {
    let parameters = vec![
        param("a", "A", ParameterRole::CallbackArg),
        param("b", "B", ParameterRole::PlainInput),
        param("c", "C", ParameterRole::CallbackArg),
    ];
    assert_eq!(
        select_role(&parameters, ParameterRole::CallbackArg),
        vec![&parameters[0], &parameters[2]]
    );
    assert_eq!(select_role(&parameters, ParameterRole::PlainInput), vec![&parameters[1]]);
    assert!(select_role(&parameters, ParameterRole::CallbackArgVector).is_empty());
}

#[test]
fn capabilities_by_format() {
    assert_eq!(
        capabilities(SerializationFormat::Binary),
        CapabilitySet { binary_schema: true, textual_schema: false }
    );
    assert_eq!(
        capabilities(SerializationFormat::Textual),
        CapabilitySet { binary_schema: true, textual_schema: true }
    );
}

#[test]
fn field_keeps_name_and_type() {
    let p = param("amount", "u128", ParameterRole::PlainInput);
    assert_eq!(field_from(&p), field("amount", "u128"));
}

#[test]
fn synthesized_record_lists_fields_in_order() {
    let a = param("a", "A", ParameterRole::PlainInput);
    let b = param("b", "B", ParameterRole::PlainInput);
    let r = synthesize_record(&vec![&a, &b], SerializationFormat::Textual);
    assert_eq!(
        r,
        InputRecord {
            fields: vec![field("a", "A"), field("b", "B")],
            capabilities: CapabilitySet { binary_schema: true, textual_schema: true },
        }
    );
}

#[test]
fn synthesize_input_of_nothing_is_none() {
    assert_eq!(synthesize_input(&vec![], SerializationFormat::Binary), None);
    assert_eq!(synthesize_input(&vec![], SerializationFormat::Textual), None);
}

#[test]
fn synthesize_input_refers_to_the_record() {
    let a = param("a", "A", ParameterRole::PlainInput);
    assert_eq!(
        synthesize_input(&vec![&a], SerializationFormat::Binary),
        Some(record(vec![field("a", "A")], true, false))
    );
}

#[test]
fn schema_reference_names_its_subject() {
    let reference = schema_of(TypeDescription::Declared("Vec<u8>".to_string()));
    assert_eq!(reference.subject(), &TypeDescription::Declared("Vec<u8>".to_string()));
    assert_eq!(schema_of_declared(&"Vec<u8>".to_string()), reference);
    assert_ne!(schema_of_declared(&"u8".to_string()), reference);
}

#[test]
fn callback_schemas_one_per_argument() {
    let a = param("a", "A", ParameterRole::CallbackArg);
    let b = param("b", "B", ParameterRole::CallbackArg);
    assert_eq!(callback_schemas(&vec![&a, &b, &a]), vec![declared("A"), declared("B"), declared("A")]);
    assert_eq!(callback_schemas(&vec![]), vec![]);
}

#[test]
fn callback_vector_schema_takes_the_last_candidate() {
    let x = param("v0", "X", ParameterRole::CallbackArgVector);
    let y = param("v1", "Y", ParameterRole::CallbackArgVector);
    assert_eq!(callback_vector_schema(&vec![]), None);
    assert_eq!(callback_vector_schema(&vec![&x]), Some(declared("X")));
    assert_eq!(callback_vector_schema(&vec![&x, &y]), Some(declared("Y")));
    assert_eq!(callback_vector_schema(&vec![&y, &x]), Some(declared("X")));
}

#[test]
fn result_schema_follows_the_return_type() {
    assert_eq!(result_schema(&None), None);
    assert_eq!(result_schema(&Some("R".to_string())), Some(declared("R")));
}

#[test]
fn assemble_populates_every_field() {
    let d = assemble(
        "g".to_string(),
        MethodKind::Init,
        Some(declared("I")),
        vec![declared("A")],
        Some(declared("V")),
        Some(declared("R")),
    );
    assert_eq!(d.name(), "g");
    assert!(!d.is_view());
    assert!(d.is_init());
    assert_eq!(d.args(), &Some(declared("I")));
    assert_eq!(d.callbacks(), &vec![declared("A")]);
    assert_eq!(d.callbacks_vec(), &Some(declared("V")));
    assert_eq!(d.result(), &Some(declared("R")));
}

#[test]
fn try_schema_of_refuses_a_record_without_the_binary_capability() {
    let lacking = TypeDescription::Record(InputRecord {
        fields: vec![field("a", "A")],
        capabilities: CapabilitySet { binary_schema: false, textual_schema: true },
    });
    assert!(!lacking.exposes_binary_schema());
    assert_eq!(try_schema_of(lacking), Err(MissingSchemaCapability));
}

#[test]
fn try_schema_of_accepts_what_exposes_the_binary_capability() {
    let declared_type = TypeDescription::Declared("u64".to_string());
    assert!(declared_type.exposes_binary_schema());
    assert_eq!(try_schema_of(declared_type), Ok(declared("u64")));
    let input = TypeDescription::Record(InputRecord {
        fields: vec![field("a", "A")],
        capabilities: CapabilitySet { binary_schema: true, textual_schema: false },
    });
    assert!(input.exposes_binary_schema());
    assert_eq!(try_schema_of(input), Ok(record(vec![field("a", "A")], true, false)));
}
