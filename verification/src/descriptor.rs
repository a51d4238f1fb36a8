//! The descriptor assembler: the parts of one method, put together.

use vstd::prelude::*;
use crate::classify::{classify, with_role};
use crate::model::{MethodKind, MethodSignature, MethodSignatureView, ParameterRole};
use crate::record::{input_schema_of, synthesize_input};
use crate::schema::{
    SchemaReference, SchemaReferenceView, callback_schemas, callback_schemas_of,
    callback_vector_schema, callback_vector_schema_of, optional_schema, result_schema,
    result_schema_of, schema_views,
};

verus! {

/// The shape of one method, for tools that look at it from outside. Once it is
/// assembled it can be read and no longer changed.
#[derive(Clone, Debug, PartialEq, Eq)]
pub struct MethodMetadataDescriptor {
    name: String,
    is_view: bool,
    is_init: bool,
    args: Option<SchemaReference>,
    callbacks: Vec<SchemaReference>,
    callbacks_vec: Option<SchemaReference>,
    result: Option<SchemaReference>,
}

/// A [`MethodMetadataDescriptor`] as contracts see it.
pub struct DescriptorView {
    pub name: Seq<char>,
    pub is_view: bool,
    pub is_init: bool,
    pub args: Option<SchemaReferenceView>,
    pub callbacks: Seq<SchemaReferenceView>,
    pub callbacks_vec: Option<SchemaReferenceView>,
    pub result: Option<SchemaReferenceView>,
}

impl View for MethodMetadataDescriptor {
    type V = DescriptorView;

    closed spec fn view(&self) -> DescriptorView {
        DescriptorView {
            name: self.name@,
            is_view: self.is_view,
            is_init: self.is_init,
            args: optional_schema(self.args),
            callbacks: schema_views(self.callbacks@),
            callbacks_vec: optional_schema(self.callbacks_vec),
            result: optional_schema(self.result),
        }
    }
}

/// The descriptor that belongs to a signature.
pub open spec fn descriptor_of(signature: MethodSignatureView) -> DescriptorView {
    DescriptorView {
        name: signature.name,
        is_view: signature.kind.spec_is_view(),
        is_init: signature.kind.spec_is_init(),
        args: input_schema_of(
            with_role(signature.parameters, ParameterRole::PlainInput),
            signature.serializer,
        ),
        callbacks: callback_schemas_of(with_role(signature.parameters, ParameterRole::CallbackArg)),
        callbacks_vec: callback_vector_schema_of(
            with_role(signature.parameters, ParameterRole::CallbackArgVector),
        ),
        result: result_schema_of(signature.return_type),
    }
}

/// Puts a descriptor together from parts that are already made. The two flags
/// come from the method's kind; everything else is taken as given.
pub fn assemble(
    name: String,
    kind: MethodKind,
    args: Option<SchemaReference>,
    callbacks: Vec<SchemaReference>,
    callbacks_vec: Option<SchemaReference>,
    result: Option<SchemaReference>,
) -> (descriptor: MethodMetadataDescriptor)
    ensures
        descriptor@ == (DescriptorView {
            name: name@,
            is_view: kind.spec_is_view(),
            is_init: kind.spec_is_init(),
            args: optional_schema(args),
            callbacks: schema_views(callbacks@),
            callbacks_vec: optional_schema(callbacks_vec),
            result: optional_schema(result),
        }),
{
    MethodMetadataDescriptor {
        name,
        is_view: kind.is_view(),
        is_init: kind.is_init(),
        args,
        callbacks,
        callbacks_vec,
        result,
    }
}

impl MethodMetadataDescriptor {
    /// The method's name.
    pub fn name(&self) -> (name: &String)
        ensures
            name@ == self@.name,
    {
        &self.name
    }

    /// Whether the method only reads state.
    pub fn is_view(&self) -> (flag: bool)
        ensures
            flag == self@.is_view,
    {
        self.is_view
    }

    /// Whether the method initialises state.
    pub fn is_init(&self) -> (flag: bool)
        ensures
            flag == self@.is_init,
    {
        self.is_init
    }

    /// The schema of the plain inputs; absent where the method takes none.
    pub fn args(&self) -> (args: &Option<SchemaReference>)
        ensures
            optional_schema(*args) == self@.args,
    {
        &self.args
    }

    /// The schemas of the callback arguments, in declaration order.
    pub fn callbacks(&self) -> (callbacks: &Vec<SchemaReference>)
        ensures
            schema_views(callbacks@) == self@.callbacks,
    {
        &self.callbacks
    }

    /// The schema of the callback vector; absent where the method takes none.
    pub fn callbacks_vec(&self) -> (callbacks_vec: &Option<SchemaReference>)
        ensures
            optional_schema(*callbacks_vec) == self@.callbacks_vec,
    {
        &self.callbacks_vec
    }

    /// The schema of the return type; absent where none is declared.
    pub fn result(&self) -> (result: &Option<SchemaReference>)
        ensures
            optional_schema(*result) == self@.result,
    {
        &self.result
    }
}

impl MethodSignature {
    /// Derives the metadata descriptor of this method.
    pub fn metadata_struct(&self) -> (descriptor: MethodMetadataDescriptor)
        ensures
            descriptor@ == descriptor_of(self@),
    {
        let parts = classify(&self.parameters);
        let args = synthesize_input(&parts.plain_inputs, self.serializer);
        let callbacks = callback_schemas(&parts.callback_args);
        let callbacks_vec = callback_vector_schema(&parts.callback_vector_candidates);
        let result = result_schema(&self.return_type);
        assemble(self.name.clone(), self.kind, args, callbacks, callbacks_vec, result)
    }
}

} // verus!
