//! What holds of every descriptor, whatever the signature.

use vstd::prelude::*;
use crate::classify::{
    has_role, lemma_filter_all, lemma_filter_empty, lemma_filter_last, lemma_filter_none,
    lemma_filter_push, with_role,
};
use crate::descriptor::descriptor_of;
use crate::model::{
    CapabilitySet, MethodKind, MethodSignatureView, ParameterRole, ParameterView,
    SerializationFormat, TypeView,
};
use crate::record::{field_of, record_of};
use crate::schema::{SchemaReferenceView, declared_schema, schema_reference};

verus! {

/// The signature `signature` with one more parameter declared at the end.
pub open spec fn with_parameter(
    signature: MethodSignatureView,
    parameter: ParameterView,
) -> MethodSignatureView {
    MethodSignatureView { parameters: signature.parameters.push(parameter), ..signature }
}

/// The signature `signature` with its inputs sent in another format.
pub open spec fn with_serializer(
    signature: MethodSignatureView,
    serializer: SerializationFormat,
) -> MethodSignatureView {
    MethodSignatureView { serializer: serializer, ..signature }
}

/// Whether some parameter of the signature has the given role.
pub open spec fn declares_role(signature: MethodSignatureView, role: ParameterRole) -> bool {
    exists|i: int|
        0 <= i < signature.parameters.len() && (#[trigger] signature.parameters[i]).role == role
}

/// The three roles part a parameter list: every parameter is counted under
/// exactly one of them.
pub proof fn law_roles_part_the_parameters(parameters: Seq<ParameterView>)
    ensures
        with_role(parameters, ParameterRole::PlainInput).len() + with_role(
            parameters,
            ParameterRole::CallbackArg,
        ).len() + with_role(parameters, ParameterRole::CallbackArgVector).len()
            == parameters.len(),
    decreases parameters.len(),
{
    if parameters.len() == 0 {
        lemma_filter_empty(has_role(ParameterRole::PlainInput));
        lemma_filter_empty(has_role(ParameterRole::CallbackArg));
        lemma_filter_empty(has_role(ParameterRole::CallbackArgVector));
    } else {
        let front = parameters.drop_last();
        law_roles_part_the_parameters(front);
        lemma_filter_push(front, parameters.last(), has_role(ParameterRole::PlainInput));
        lemma_filter_push(front, parameters.last(), has_role(ParameterRole::CallbackArg));
        lemma_filter_push(front, parameters.last(), has_role(ParameterRole::CallbackArgVector));
        assert(parameters =~= front.push(parameters.last()));
    }
}

/// A method without plain inputs has no input schema, whatever else it
/// declares.
pub proof fn law_no_plain_input_no_args(signature: MethodSignatureView)
    requires
        !declares_role(signature, ParameterRole::PlainInput),
    ensures
        descriptor_of(signature).args == None::<SchemaReferenceView>,
{
    lemma_filter_none(signature.parameters, has_role(ParameterRole::PlainInput));
}

/// Which fields of a descriptor are present: the input schema where a plain
/// input is declared, the callback vector's where a parameter has that role,
/// the result's where a return type is declared; and one callback schema for
/// each callback argument, present or not.
pub proof fn law_presence(signature: MethodSignatureView)
    ensures
        descriptor_of(signature).args.is_some() <==> declares_role(
            signature,
            ParameterRole::PlainInput,
        ),
        descriptor_of(signature).callbacks_vec.is_some() <==> declares_role(
            signature,
            ParameterRole::CallbackArgVector,
        ),
        descriptor_of(signature).result.is_some() <==> signature.return_type.is_some(),
        descriptor_of(signature).callbacks.len() == with_role(
            signature.parameters,
            ParameterRole::CallbackArg,
        ).len(),
        !declares_role(signature, ParameterRole::CallbackArg) ==> descriptor_of(
            signature,
        ).callbacks.len() == 0,
{
    lemma_filter_none(signature.parameters, has_role(ParameterRole::PlainInput));
    lemma_filter_none(signature.parameters, has_role(ParameterRole::CallbackArgVector));
    lemma_filter_none(signature.parameters, has_role(ParameterRole::CallbackArg));
}

/// Where every parameter is a plain input, the input schema is that of the
/// record with one field per parameter, under the parameter's name and type, in
/// declaration order.
pub proof fn law_input_record(signature: MethodSignatureView)
    requires
        signature.parameters.len() > 0,
        forall|i: int|
            0 <= i < signature.parameters.len() ==> (#[trigger] signature.parameters[i]).role
                == ParameterRole::PlainInput,
    ensures
        descriptor_of(signature).args == Some(
            schema_reference(TypeView::Record(record_of(signature.parameters, signature.serializer))),
        ),
        record_of(signature.parameters, signature.serializer).fields.len()
            == signature.parameters.len(),
        forall|i: int|
            0 <= i < signature.parameters.len() ==> (#[trigger] record_of(
                signature.parameters,
                signature.serializer,
            ).fields[i]) == field_of(signature.parameters[i]),
{
    lemma_filter_all(signature.parameters, has_role(ParameterRole::PlainInput));
}

/// Declaring one more parameter at the end adds a field to the end of the
/// input record where it is a plain input, and leaves the input schema as it
/// was where it is not.
pub proof fn law_input_record_grows_at_end(signature: MethodSignatureView, parameter: ParameterView)
    ensures
        descriptor_of(with_parameter(signature, parameter)).args == if parameter.role
            == ParameterRole::PlainInput {
            Some(
                schema_reference(
                    TypeView::Record(
                        record_of(
                            with_role(signature.parameters, ParameterRole::PlainInput).push(
                                parameter,
                            ),
                            signature.serializer,
                        ),
                    ),
                ),
            )
        } else {
            descriptor_of(signature).args
        },
{
    lemma_filter_push(signature.parameters, parameter, has_role(ParameterRole::PlainInput));
}

/// The same plain inputs give different input schemas under the two formats:
/// the record has the same fields and the binary capability under both, and
/// the textual capability under the textual format only.
pub proof fn law_format_sensitivity(signature: MethodSignatureView)
    requires
        declares_role(signature, ParameterRole::PlainInput),
    ensures
        descriptor_of(with_serializer(signature, SerializationFormat::Binary)).args
            != descriptor_of(with_serializer(signature, SerializationFormat::Textual)).args,
        ({
            let plain_inputs = with_role(signature.parameters, ParameterRole::PlainInput);
            let binary = record_of(plain_inputs, SerializationFormat::Binary);
            let textual = record_of(plain_inputs, SerializationFormat::Textual);
            &&& descriptor_of(with_serializer(signature, SerializationFormat::Binary)).args
                == Some(schema_reference(TypeView::Record(binary)))
            &&& descriptor_of(with_serializer(signature, SerializationFormat::Textual)).args
                == Some(schema_reference(TypeView::Record(textual)))
            &&& binary.fields == textual.fields
            &&& binary.capabilities == (CapabilitySet {
                binary_schema: true,
                textual_schema: false,
            })
            &&& textual.capabilities == (CapabilitySet {
                binary_schema: true,
                textual_schema: true,
            })
        }),
{
    lemma_filter_none(signature.parameters, has_role(ParameterRole::PlainInput));
}

/// Nothing but the input schema depends on the format.
pub proof fn law_format_touches_args_only(
    signature: MethodSignatureView,
    serializer: SerializationFormat,
)
    ensures
        descriptor_of(with_serializer(signature, serializer)).name == descriptor_of(signature).name,
        descriptor_of(with_serializer(signature, serializer)).is_view == descriptor_of(
            signature,
        ).is_view,
        descriptor_of(with_serializer(signature, serializer)).is_init == descriptor_of(
            signature,
        ).is_init,
        descriptor_of(with_serializer(signature, serializer)).callbacks == descriptor_of(
            signature,
        ).callbacks,
        descriptor_of(with_serializer(signature, serializer)).callbacks_vec == descriptor_of(
            signature,
        ).callbacks_vec,
        descriptor_of(with_serializer(signature, serializer)).result == descriptor_of(
            signature,
        ).result,
{
}

/// Where every parameter is a callback argument, there is one callback schema
/// per parameter, that of its type, at the parameter's own position.
pub proof fn law_callbacks_keep_order(signature: MethodSignatureView)
    requires
        forall|i: int|
            0 <= i < signature.parameters.len() ==> (#[trigger] signature.parameters[i]).role
                == ParameterRole::CallbackArg,
    ensures
        descriptor_of(signature).callbacks.len() == signature.parameters.len(),
        forall|i: int|
            0 <= i < signature.parameters.len() ==> (#[trigger] descriptor_of(
                signature,
            ).callbacks[i]) == declared_schema(signature.parameters[i].ty),
{
    lemma_filter_all(signature.parameters, has_role(ParameterRole::CallbackArg));
}

/// Declaring one more parameter at the end puts the schema of its type at the
/// end of the callback schemas where it is a callback argument, and leaves
/// them as they were where it is not.
pub proof fn law_callbacks_grow_at_end(signature: MethodSignatureView, parameter: ParameterView)
    ensures
        descriptor_of(with_parameter(signature, parameter)).callbacks == if parameter.role
            == ParameterRole::CallbackArg {
            descriptor_of(signature).callbacks.push(declared_schema(parameter.ty))
        } else {
            descriptor_of(signature).callbacks
        },
{
    lemma_filter_push(signature.parameters, parameter, has_role(ParameterRole::CallbackArg));
}

/// Of several parameters in the callback vector's role, the one declared last
/// gives the schema, and the others leave no trace.
pub proof fn law_last_callback_vector_wins(signature: MethodSignatureView, last: int)
    requires
        0 <= last < signature.parameters.len(),
        signature.parameters[last].role == ParameterRole::CallbackArgVector,
        forall|j: int|
            last < j < signature.parameters.len() ==> (#[trigger] signature.parameters[j]).role
                != ParameterRole::CallbackArgVector,
    ensures
        descriptor_of(signature).callbacks_vec == Some(
            declared_schema(signature.parameters[last].ty),
        ),
{
    lemma_filter_last(signature.parameters, has_role(ParameterRole::CallbackArgVector), last);
}

/// A viewing method is flagged as viewing only, an initialising one as
/// initialising only, and any other as neither; no method is flagged as both.
pub proof fn law_flags(signature: MethodSignatureView)
    ensures
        signature.kind == MethodKind::View ==> descriptor_of(signature).is_view && !descriptor_of(
            signature,
        ).is_init,
        signature.kind == MethodKind::Init || signature.kind == MethodKind::InitIgnoreState
            ==> !descriptor_of(signature).is_view && descriptor_of(signature).is_init,
        signature.kind == MethodKind::Call ==> !descriptor_of(signature).is_view && !descriptor_of(
            signature,
        ).is_init,
        !(descriptor_of(signature).is_view && descriptor_of(signature).is_init),
{
}

/// The result schema is absent where no return type is declared, and is that of
/// the return type where one is.
pub proof fn law_result_optionality(signature: MethodSignatureView)
    ensures
        descriptor_of(signature).result == match signature.return_type {
            Some(written) => Some(declared_schema(written)),
            None => None,
        },
{
}

} // verus!
