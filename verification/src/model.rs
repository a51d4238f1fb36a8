//! The signature that is consumed and the descriptor that is produced.
//!
//! Names and types are carried as text: a type is identified by the way it is
//! written, and nothing here looks inside it.

use vstd::prelude::*;

verus! {

/// The wire encoding in which a method receives its plain inputs.
#[derive(Clone, Copy, Debug, PartialEq, Eq, Structural)]
pub enum SerializationFormat {
    /// Self-describing at the schema level.
    Binary,
    /// Needs a separately derived schema to be introspected.
    Textual,
}

/// What a method is to its host. Every method has exactly one kind.
#[derive(Clone, Copy, Debug, PartialEq, Eq, Structural)]
pub enum MethodKind {
    /// Changes state.
    Call,
    /// Only reads state.
    View,
    /// Initialises state.
    Init,
    /// Initialises state without looking at what is already there.
    InitIgnoreState,
}

impl MethodKind {
    /// Whether the method only reads state.
    pub open spec fn spec_is_view(self) -> bool {
        self == MethodKind::View
    }

    /// Whether the method belongs to the initialising family.
    pub open spec fn spec_is_init(self) -> bool {
        self == MethodKind::Init || self == MethodKind::InitIgnoreState
    }

    /// Whether the method only reads state.
    pub fn is_view(self) -> (flag: bool)
        ensures
            flag == self.spec_is_view(),
    {
        matches!(self, MethodKind::View)
    }

    /// Whether the method belongs to the initialising family.
    pub fn is_init(self) -> (flag: bool)
        ensures
            flag == self.spec_is_init(),
    {
        matches!(self, MethodKind::Init | MethodKind::InitIgnoreState)
    }
}

/// Where the value of a parameter comes from.
#[derive(Clone, Copy, Debug, PartialEq, Eq, Structural)]
pub enum ParameterRole {
    /// Carried in the caller's argument payload.
    PlainInput,
    /// The result of one earlier asynchronous call.
    CallbackArg,
    /// The results of any number of earlier asynchronous calls.
    CallbackArgVector,
}

/// One declared parameter of a method.
#[derive(Clone, Debug, PartialEq, Eq)]
pub struct Parameter {
    pub name: String,
    pub ty: String,
    pub role: ParameterRole,
}

/// A [`Parameter`] as contracts see it.
pub struct ParameterView {
    pub name: Seq<char>,
    pub ty: Seq<char>,
    pub role: ParameterRole,
}

impl View for Parameter {
    type V = ParameterView;

    open spec fn view(&self) -> ParameterView {
        ParameterView { name: self.name@, ty: self.ty@, role: self.role }
    }
}

/// The views of a run of parameters, in the same order.
pub open spec fn parameter_views(parameters: Seq<Parameter>) -> Seq<ParameterView> {
    parameters.map_values(|p: Parameter| p@)
}

/// The views of a run of borrowed parameters, in the same order.
pub open spec fn borrowed_views(parameters: Seq<&Parameter>) -> Seq<ParameterView> {
    parameters.map_values(|p: &Parameter| p@)
}

/// A callable entry point as declared.
#[derive(Clone, Debug, PartialEq, Eq)]
pub struct MethodSignature {
    pub name: String,
    pub kind: MethodKind,
    pub serializer: SerializationFormat,
    pub parameters: Vec<Parameter>,
    pub return_type: Option<String>,
}

/// A [`MethodSignature`] as contracts see it.
pub struct MethodSignatureView {
    pub name: Seq<char>,
    pub kind: MethodKind,
    pub serializer: SerializationFormat,
    pub parameters: Seq<ParameterView>,
    pub return_type: Option<Seq<char>>,
}

/// The view of an optional piece of text.
pub open spec fn optional_text(text: Option<String>) -> Option<Seq<char>> {
    match text {
        Some(t) => Some(t@),
        None => None,
    }
}

impl View for MethodSignature {
    type V = MethodSignatureView;

    open spec fn view(&self) -> MethodSignatureView {
        MethodSignatureView {
            name: self.name@,
            kind: self.kind,
            serializer: self.serializer,
            parameters: parameter_views(self.parameters@),
            return_type: optional_text(self.return_type),
        }
    }
}

/// One field of a synthesized record: a plain input under its own name.
#[derive(Clone, Debug, PartialEq, Eq)]
pub struct Field {
    pub name: String,
    pub ty: String,
}

/// A [`Field`] as contracts see it.
pub struct FieldView {
    pub name: Seq<char>,
    pub ty: Seq<char>,
}

impl View for Field {
    type V = FieldView;

    open spec fn view(&self) -> FieldView {
        FieldView { name: self.name@, ty: self.ty@ }
    }
}

/// The views of a run of fields, in the same order.
pub open spec fn field_views(fields: Seq<Field>) -> Seq<FieldView> {
    fields.map_values(|f: Field| f@)
}

/// The ways in which a synthesized record can describe its own layout.
#[derive(Clone, Copy, Debug, PartialEq, Eq, Structural)]
pub struct CapabilitySet {
    /// The record can produce a schema for the binary encoding.
    pub binary_schema: bool,
    /// The record can produce a schema for a textual encoding.
    pub textual_schema: bool,
}

/// The record that stands for all the plain inputs of one method. It is never
/// filled with values: it exists to be asked for its schema.
#[derive(Clone, Debug, PartialEq, Eq)]
pub struct InputRecord {
    pub fields: Vec<Field>,
    pub capabilities: CapabilitySet,
}

/// An [`InputRecord`] as contracts see it.
pub struct InputRecordView {
    pub fields: Seq<FieldView>,
    pub capabilities: CapabilitySet,
}

impl View for InputRecord {
    type V = InputRecordView;

    open spec fn view(&self) -> InputRecordView {
        InputRecordView { fields: field_views(self.fields@), capabilities: self.capabilities }
    }
}

/// A type that can be asked for its schema.
#[derive(Clone, Debug, PartialEq, Eq)]
pub enum TypeDescription {
    /// A type of the host program, identified by the way it is written.
    Declared(String),
    /// The synthesized record of a method's plain inputs.
    Record(InputRecord),
}

/// A [`TypeDescription`] as contracts see it.
pub enum TypeView {
    Declared(Seq<char>),
    Record(InputRecordView),
}

impl View for TypeDescription {
    type V = TypeView;

    open spec fn view(&self) -> TypeView {
        match self {
            TypeDescription::Declared(written) => TypeView::Declared(written@),
            TypeDescription::Record(record) => TypeView::Record(record@),
        }
    }
}

impl TypeDescription {
    /// Whether the type can produce a schema for the binary encoding.
    pub fn exposes_binary_schema(&self) -> (exposed: bool)
        ensures
            exposed == self@.exposes_binary_schema(),
    {
        match self {
            TypeDescription::Declared(_) => true,
            TypeDescription::Record(record) => record.capabilities.binary_schema,
        }
    }
}

impl TypeView {
    /// Whether the type can produce a schema for the binary encoding. A
    /// declared type is taken to: the host's type system holds it to that.
    pub open spec fn exposes_binary_schema(self) -> bool {
        match self {
            TypeView::Declared(_) => true,
            TypeView::Record(record) => record.capabilities.binary_schema,
        }
    }
}

} // verus!
