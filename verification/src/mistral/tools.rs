//! Tool calls and the form model.
//!
//! A `Form` describes the shape of a value that a user can fill in through
//! an interactive buffer: named records, enumerations, lists, tuples, maps
//! and base types. A `ToolCall` carries one function invocation requested by
//! the model.

use std::collections::HashMap;
use std::sync::Arc;

use vstd::prelude::*;

verus! {

/// Received from the completion API and sent back in contextual
/// completions.
#[derive(Debug, Clone)]
pub struct ToolCall {
    pub function: FunctionCall,
    pub id: Option<String>,
    pub index: Option<u32>,
}

impl ToolCall {
    /// An empty tool call, ready to be filled field by field.
    pub fn empty() -> (r: ToolCall)
        ensures
            r.function.name@ == Seq::<char>::empty(),
            r.function.arguments@ == Seq::<char>::empty(),
            r.id is None,
            r.index is None,
    {
        ToolCall { function: FunctionCall::empty(), id: None, index: None }
    }
}

/// One function invocation: its name and its raw argument text.
#[derive(Debug, Clone)]
pub struct FunctionCall {
    pub name: String,
    pub arguments: String,
}

impl FunctionCall {
    /// A call with empty name and arguments.
    pub fn empty() -> (r: FunctionCall)
        ensures
            r.name@ == Seq::<char>::empty(),
            r.arguments@ == Seq::<char>::empty(),
    {
        FunctionCall { name: String::new(), arguments: String::new() }
    }
}

#[verifier::external_type_specification]
#[verifier::external_body]
pub struct ExSchema(schemars::Schema);

/// The JSON schema sent to the completion API to describe one tool.
pub type Tool = schemars::Schema;

/// How a tool's parameters are described to the API: always as one object.
#[derive(Debug, Clone, Copy, PartialEq, Eq, Structural)]
pub enum FunctionParametersType {
    Object,
}

/// A field or variant name of a form.
#[derive(Debug, Clone)]
pub struct Name(pub String);

/// A human-readable description of a form or of one of its fields.
#[derive(Debug, Clone)]
pub struct Description(pub String);

/// The name of an enumeration's default variant; empty when there is none.
#[derive(Debug, Clone)]
pub struct DefaultVariant(pub String);

/// A shared, immutable form.
pub type RForm = Arc<Form>;

/// Relies on Arc::ptr_eq: two handles of the same allocation hold the same
/// form. Nothing is promised when the handles differ: two distinct
/// allocations may still hold equal forms.
#[verifier::external_body]
pub(crate) fn rform_ptr_eq(a: &RForm, b: &RForm) -> (r: bool)
    ensures
        r ==> *a == *b,
{
    Arc::ptr_eq(a, b)
}

/// Relies on Arc::clone: another handle of the same allocation, holding the
/// same form.
#[verifier::external_body]
pub(crate) fn rform_clone(a: &RForm) -> (r: RForm)
    ensures
        r == *a,
{
    Arc::clone(a)
}

/// Relies on Arc's Deref: the form the handle holds.
#[verifier::external_body]
pub(crate) fn rform_get(a: &RForm) -> (r: &Form)
    ensures
        *r == *a,
{
    &**a
}

/// One named field of a record or one variant of an enumeration.
#[derive(Debug, Clone)]
pub struct FormField {
    pub name: Name,
    pub description: Description,
    pub form: RForm,
}

impl FormField {
    /// The field's parts, borrowed.
    pub fn tuple_ref<'d>(&'d self) -> (r: (&'d String, &'d String, &'d RForm))
        ensures
            r.0@ == self.name.0@,
            r.1@ == self.description.0@,
            *r.2 == self.form,
    {
        (&self.name.0, &self.description.0, &self.form)
    }

    /// The field's parts, owned.
    pub fn tuple(self) -> (r: (String, String, RForm))
        ensures
            r.0@ == self.name.0@,
            r.1@ == self.description.0@,
            r.2 == self.form,
    {
        let FormField { name, description, form } = self;
        (name.0, description.0, form)
    }
}

/// The shape of one value a form can collect.
#[derive(Debug, Clone)]
pub enum Form {
    Struct(Name, Description, Vec<FormField>),
    Enum(Name, Description, DefaultVariant, Vec<FormField>),
    StructTuple(Name, Description, Vec<FormField>),
    List(Box<RForm>),
    Optional(Box<RForm>),
    Tuple(Vec<RForm>),
    Mapping(Box<(RForm, RForm)>),
    Boolean,
    Float,
    Integer,
    Str,
    Unit,
}

/// The display name of a form's variant.
pub open spec fn spec_variant_name(f: Form) -> Seq<char> {
    match f {
        Form::Struct(_, _, _) => "Struct"@,
        Form::Enum(_, _, _, _) => "Enum"@,
        Form::StructTuple(_, _, _) => "StructTuple"@,
        Form::List(_) => "List"@,
        Form::Optional(_) => "Option"@,
        Form::Tuple(_) => "Tuple"@,
        Form::Mapping(_) => "Map"@,
        Form::Boolean => "Boolean"@,
        Form::Float => "Float"@,
        Form::Integer => "Integer"@,
        Form::Str => "Str"@,
        Form::Unit => "Unit"@,
    }
}

impl Form {
    /// The display name of this form's variant.
    pub fn variant_name(&self) -> (r: &'static str)
        ensures
            r@ == spec_variant_name(*self),
    {
        match self {
            Form::Struct(_, _, _) => "Struct",
            Form::Enum(_, _, _, _) => "Enum",
            Form::StructTuple(_, _, _) => "StructTuple",
            Form::List(_) => "List",
            Form::Optional(_) => "Option",
            Form::Tuple(_) => "Tuple",
            Form::Mapping(_) => "Map",
            Form::Boolean => "Boolean",
            Form::Float => "Float",
            Form::Integer => "Integer",
            Form::Str => "Str",
            Form::Unit => "Unit",
        }
    }
}

/// Builds the form describing a value of the implementing type.
pub trait FormExt {
    fn get_form() -> RForm;
}

impl FormExt for bool {
    fn get_form() -> RForm {
        Arc::new(Form::Boolean)
    }
}

impl FormExt for usize {
    fn get_form() -> RForm {
        Arc::new(Form::Integer)
    }
}

impl FormExt for u32 {
    fn get_form() -> RForm {
        Arc::new(Form::Integer)
    }
}

impl FormExt for u64 {
    fn get_form() -> RForm {
        Arc::new(Form::Integer)
    }
}

impl FormExt for i64 {
    fn get_form() -> RForm {
        Arc::new(Form::Integer)
    }
}

impl FormExt for String {
    fn get_form() -> RForm {
        Arc::new(Form::Str)
    }
}

impl FormExt for () {
    fn get_form() -> RForm {
        Arc::new(Form::Unit)
    }
}

impl<T: FormExt> FormExt for Option<T> {
    fn get_form() -> RForm {
        Arc::new(Form::Optional(Box::new(T::get_form())))
    }
}

impl<T: FormExt> FormExt for Vec<T> {
    fn get_form() -> RForm {
        Arc::new(Form::List(Box::new(T::get_form())))
    }
}

impl<K: FormExt, V: FormExt> FormExt for HashMap<K, V> {
    fn get_form() -> RForm {
        Arc::new(Form::Mapping(Box::new((K::get_form(), V::get_form()))))
    }
}

} // verus!
