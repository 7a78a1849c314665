//! Compiles a typed record definition into an interactive form controller.
//!
//! A record definition is classified field by field into a closed set of
//! supported kinds. From the resulting schema the crate derives the names of
//! the generated artifacts, a controller that tracks the current values and
//! validates the required fields on submit, and the render descriptors that a
//! user interface runtime draws from.

pub mod controller;
pub mod naming;
pub mod record;
pub mod render;
pub mod schema;
pub mod util;
pub mod value;

use vstd::prelude::*;
use crate::naming::{
    action_name_from, action_name_with, cased, class_name, class_name_of, element_class_from,
    element_class_with, form_class, form_class_of, label_text, upper_camel, CaseStyle, Element,
    KindFamily,
};
use crate::record::{RecordDefinition, RecordShape};
use crate::render::{family_of, kind_family};
use crate::schema::{
    introspect, introspected, kind_of, CompileError, FieldDescriptor, FieldDescriptorView,
    FieldKind, Schema,
};
use crate::util::append_to_ident;

verus! {

/// What is generated for one field of a form.
#[derive(Debug)]
pub struct FieldPlan {
    /// The field's declared name.
    pub name: String,
    pub kind: FieldKind,
    /// The name of the action that updates the field.
    pub action_name: String,
    /// The text of the field's label.
    pub label: String,
    /// The class attribute of the label when it is not decorated.
    pub label_class: String,
    /// The class attribute of the input element when it is not decorated.
    pub input_class: String,
    /// The name of the method that gives the label's class attribute.
    pub label_class_method: String,
    /// The name of the method that gives the input element's class
    /// attribute.
    pub input_class_method: String,
}

/// The mathematical value of a field plan.
pub struct FieldPlanView {
    pub name: Seq<char>,
    pub kind: FieldKind,
    pub action_name: Seq<char>,
    pub label: Seq<char>,
    pub label_class: Seq<char>,
    pub input_class: Seq<char>,
    pub label_class_method: Seq<char>,
    pub input_class_method: Seq<char>,
}

impl View for FieldPlan {
    type V = FieldPlanView;

    open spec fn view(&self) -> FieldPlanView {
        FieldPlanView {
            name: self.name@,
            kind: self.kind,
            action_name: self.action_name@,
            label: self.label@,
            label_class: self.label_class@,
            input_class: self.input_class@,
            label_class_method: self.label_class_method@,
            input_class_method: self.input_class_method@,
        }
    }
}

/// What is generated for a record definition: the names of the form
/// component and of its message and property types, the class attribute of
/// the form element, the schema that controllers are made for, and the plan
/// of each field in declaration order.
#[derive(Debug)]
pub struct FormPlan {
    pub component_ident: String,
    pub component_msg_ident: String,
    pub component_prop_ident: String,
    pub form_class: String,
    pub schema: Schema,
    pub fields: Vec<FieldPlan>,
}

/// The mathematical value of a form plan.
pub struct FormPlanView {
    pub component_ident: Seq<char>,
    pub component_msg_ident: Seq<char>,
    pub component_prop_ident: Seq<char>,
    pub form_class: Seq<char>,
    pub schema: Seq<FieldDescriptorView>,
    pub fields: Seq<FieldPlanView>,
}

impl View for FormPlan {
    type V = FormPlanView;

    open spec fn view(&self) -> FormPlanView {
        FormPlanView {
            component_ident: self.component_ident@,
            component_msg_ident: self.component_msg_ident@,
            component_prop_ident: self.component_prop_ident@,
            form_class: self.form_class@,
            schema: self.schema@,
            fields: self.fields@.map_values(|f: FieldPlan| f@),
        }
    }
}

/// The name of the method that gives the class attribute of an element of
/// the field named `field_name`.
pub open spec fn class_method_of(field_name: Seq<char>, element: Element) -> Seq<char> {
    match element {
        Element::Label => "get_class_for_"@ + field_name + "_label"@,
        Element::Input => "get_class_for_"@ + field_name,
    }
}

/// The plan of a field, given its name in upper camel case, its label and
/// its name in kebab case.
pub open spec fn field_plan_with(
    descriptor: FieldDescriptorView,
    camel: Seq<char>,
    label: Seq<char>,
    kebab: Seq<char>,
) -> FieldPlanView {
    FieldPlanView {
        name: descriptor.name,
        kind: descriptor.kind,
        action_name: action_name_with(camel),
        label,
        label_class: element_class_with(kebab, family_of(descriptor.kind), Element::Label, false),
        input_class: element_class_with(kebab, family_of(descriptor.kind), Element::Input, false),
        label_class_method: class_method_of(descriptor.name, Element::Label),
        input_class_method: class_method_of(descriptor.name, Element::Input),
    }
}

/// The plan of a field.
pub open spec fn field_plan_of(descriptor: FieldDescriptorView) -> FieldPlanView {
    field_plan_with(
        descriptor,
        cased(descriptor.name, CaseStyle::UpperCamel),
        cased(descriptor.name, CaseStyle::Title),
        cased(descriptor.name, CaseStyle::Kebab),
    )
}

/// What compilation makes of a record definition.
pub open spec fn derived(input: RecordDefinition) -> Result<FormPlanView, CompileError> {
    match introspected(input) {
        Ok(descriptors) => Ok(
            FormPlanView {
                component_ident: input.name@ + "Form"@,
                component_msg_ident: input.name@ + "Form"@ + "Msg"@,
                component_prop_ident: input.name@ + "Form"@ + "Props"@,
                form_class: form_class_of(input.name@),
                schema: descriptors,
                fields: descriptors.map_values(|d: FieldDescriptorView| field_plan_of(d)),
            },
        ),
        Err(e) => Err(e),
    }
}

/// A record definition with a field of an unsupported type does not compile:
/// neither a schema nor a plan comes of it, so no controller can be made for
/// it.
pub proof fn lemma_unsupported_field_fails(input: RecordDefinition, index: int)
    requires
        input.shape matches RecordShape::Named(fields) && 0 <= index < fields@.len() && kind_of(
            fields@[index].ty,
        ) is None,
    ensures
        introspected(input) == Err::<Seq<FieldDescriptorView>, CompileError>(
            CompileError::UnsupportedFieldType,
        ),
        derived(input) == Err::<FormPlanView, CompileError>(CompileError::UnsupportedFieldType),
{
}

/// The four undecorated class attributes that a field named in kebab case
/// can be drawn with: label and input element of a text input, then label
/// and input element of a checkbox.
pub fn label_and_input_classes_from(kebab: &str) -> (out: (String, String, String, String))
    ensures
        out.0@ == element_class_with(kebab@, KindFamily::Txt, Element::Label, false),
        out.1@ == element_class_with(kebab@, KindFamily::Txt, Element::Input, false),
        out.2@ == element_class_with(kebab@, KindFamily::Checkbox, Element::Label, false),
        out.3@ == element_class_with(kebab@, KindFamily::Checkbox, Element::Input, false),
{
    let txt_label_class = element_class_from(kebab, KindFamily::Txt, Element::Label, false);
    let txt_input_class = element_class_from(kebab, KindFamily::Txt, Element::Input, false);
    let bool_label_class = element_class_from(kebab, KindFamily::Checkbox, Element::Label, false);
    let bool_input_class = element_class_from(kebab, KindFamily::Checkbox, Element::Input, false);
    (txt_label_class, txt_input_class, bool_label_class, bool_input_class)
}

/// The four undecorated class attributes that a field can be drawn with:
/// label and input element of a text input, then label and input element of
/// a checkbox.
pub fn get_label_and_input_classes(field_name: &str) -> (out: (String, String, String, String))
    ensures
        out.0@ == element_class_with(
            class_name_of(field_name@),
            KindFamily::Txt,
            Element::Label,
            false,
        ),
        out.1@ == element_class_with(
            class_name_of(field_name@),
            KindFamily::Txt,
            Element::Input,
            false,
        ),
        out.2@ == element_class_with(
            class_name_of(field_name@),
            KindFamily::Checkbox,
            Element::Label,
            false,
        ),
        out.3@ == element_class_with(
            class_name_of(field_name@),
            KindFamily::Checkbox,
            Element::Input,
            false,
        ),
{
    let kebab = class_name(field_name);
    label_and_input_classes_from(kebab.as_str())
}

/// The name of the method that gives the class attribute of an element of a
/// field.
pub fn class_method_name(field_name: &str, element: Element) -> (out: String)
    ensures
        out@ == class_method_of(field_name@, element),
{
    let mut name = "get_class_for_".to_owned();
    name.append(field_name);
    match element {
        Element::Label => {
            name.append("_label");
        },
        Element::Input => {},
    }
    name
}

/// Build the plan of a field from its name in upper camel case, its label
/// and its name in kebab case.
pub fn plan_field_from(descriptor: &FieldDescriptor, camel: &str, label: String, kebab: &str) -> (out:
    FieldPlan)
    ensures
        out@ == field_plan_with(descriptor@, camel@, label@, kebab@),
{
    let (txt_label_class, txt_input_class, bool_label_class, bool_input_class) =
        label_and_input_classes_from(kebab);
    let (label_class, input_class) = match kind_family(descriptor.kind) {
        KindFamily::Txt => (txt_label_class, txt_input_class),
        KindFamily::Checkbox => (bool_label_class, bool_input_class),
    };
    FieldPlan {
        name: descriptor.name.clone(),
        kind: descriptor.kind,
        action_name: action_name_from(camel),
        label,
        label_class,
        input_class,
        label_class_method: class_method_name(descriptor.name.as_str(), Element::Label),
        input_class_method: class_method_name(descriptor.name.as_str(), Element::Input),
    }
}

/// The plan of a field: the names and class attributes derived from the
/// field's declared name.
pub fn plan_field(descriptor: &FieldDescriptor) -> (out: FieldPlan)
    ensures
        out@ == field_plan_of(descriptor@),
{
    let name = descriptor.name.as_str();
    let camel = upper_camel(name);
    let label = label_text(name);
    let kebab = class_name(name);
    plan_field_from(descriptor, camel.as_str(), label, kebab.as_str())
}

/// Compile a record definition into the plan of its form.
///
/// The definition must be a structure with named fields, each a `String`, a
/// `bool`, or an `Option` of one of the two. Anything else fails, and no
/// plan, schema or controller comes of it.
pub fn derive(input: &RecordDefinition) -> (out: Result<FormPlan, CompileError>)
    ensures
        match derived(*input) {
            Ok(plan) => out matches Ok(p) && p@ == plan,
            Err(e) => out matches Err(err) && err == e,
        },
{
    let schema = match introspect(input) {
        Ok(schema) => schema,
        Err(e) => {
            return Err(e);
        },
    };
    let input_struct_ident = input.name.as_str();
    let component_ident = append_to_ident(input_struct_ident, "Form");
    let component_msg_ident = append_to_ident(component_ident.as_str(), "Msg");
    let component_prop_ident = append_to_ident(component_ident.as_str(), "Props");
    let form_class = form_class(input_struct_ident);

    let mut fields: Vec<FieldPlan> = Vec::new();
    let mut i: usize = 0;
    while i < schema.len()
        invariant
            i <= schema@.len(),
            fields@.len() == i,
            forall|j: int| 0 <= j < i ==> (#[trigger] fields@[j])@ == field_plan_of(schema@[j]),
        decreases schema@.len() - i,
    {
        fields.push(plan_field(schema.descriptor(i)));
        i += 1;
    }
    let plan = FormPlan {
        component_ident,
        component_msg_ident,
        component_prop_ident,
        form_class,
        schema,
        fields,
    };
    assert(plan@.fields =~= derived(*input)->Ok_0.fields);
    Ok(plan)
}

} // verus!
