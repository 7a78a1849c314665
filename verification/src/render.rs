//! Render descriptors: what a user interface runtime needs to draw each
//! field of a form and to turn the user's input into update actions.

use vstd::prelude::*;
use crate::controller::{action_fits, FormController, UpdateAction, UpdateActionView};
use crate::naming::{
    class_name, class_name_of, element_class_from, element_class_with, label_of, label_text,
    Element, KindFamily,
};
use crate::schema::{FieldDescriptorView, FieldKind};
use crate::value::{field_satisfied, value_kind, FieldValue, FieldValueView};

verus! {

/// The kind of input element that a field is drawn as.
#[derive(Clone, Copy, Debug, PartialEq, Eq, Structural)]
pub enum InputKind {
    SingleLineText,
    Checkbox,
}

/// What an input element shows, and what it reports when the user changes
/// it: the text of a text input, or whether a checkbox is checked.
#[derive(Clone, Debug, PartialEq, Eq)]
pub enum InputValue {
    Text(String),
    Checked(bool),
}

/// The mathematical value of an input value.
pub enum InputValueView {
    Text(Seq<char>),
    Checked(bool),
}

impl View for InputValue {
    type V = InputValueView;

    open spec fn view(&self) -> InputValueView {
        match self {
            InputValue::Text(s) => InputValueView::Text(s@),
            InputValue::Checked(b) => InputValueView::Checked(*b),
        }
    }
}

/// How to draw one field.
#[derive(Clone, Debug, PartialEq, Eq)]
pub struct RenderDescriptor {
    /// The position of the field in the schema.
    pub field: usize,
    /// The kind of the field.
    pub kind: FieldKind,
    pub label_text: String,
    pub label_class: String,
    pub input_class: String,
    pub input_kind: InputKind,
    pub current_value: InputValue,
}

/// The mathematical value of a render descriptor.
pub struct RenderDescriptorView {
    pub field: int,
    pub kind: FieldKind,
    pub label_text: Seq<char>,
    pub label_class: Seq<char>,
    pub input_class: Seq<char>,
    pub input_kind: InputKind,
    pub current_value: InputValueView,
}

impl View for RenderDescriptor {
    type V = RenderDescriptorView;

    open spec fn view(&self) -> RenderDescriptorView {
        RenderDescriptorView {
            field: self.field as int,
            kind: self.kind,
            label_text: self.label_text@,
            label_class: self.label_class@,
            input_class: self.input_class@,
            input_kind: self.input_kind,
            current_value: self.current_value@,
        }
    }
}

/// The family of input elements that fields of a kind are drawn with.
pub open spec fn family_of(kind: FieldKind) -> KindFamily {
    match kind {
        FieldKind::Text => KindFamily::Txt,
        FieldKind::OptionalText => KindFamily::Txt,
        FieldKind::Boolean => KindFamily::Checkbox,
        FieldKind::OptionalBoolean => KindFamily::Checkbox,
    }
}

/// The kind of input element that fields of a kind are drawn as.
pub open spec fn input_kind_of(kind: FieldKind) -> InputKind {
    match family_of(kind) {
        KindFamily::Txt => InputKind::SingleLineText,
        KindFamily::Checkbox => InputKind::Checkbox,
    }
}

/// What the input element of a field shows for a value. An absent string
/// shows as the empty text, an absent flag as unchecked.
pub open spec fn shown_value(value: FieldValueView) -> InputValueView {
    match value {
        FieldValueView::Text(s) => InputValueView::Text(s),
        FieldValueView::Boolean(b) => InputValueView::Checked(b),
        FieldValueView::OptionalText(Some(s)) => InputValueView::Text(s),
        FieldValueView::OptionalText(None) => InputValueView::Text(Seq::empty()),
        FieldValueView::OptionalBoolean(Some(b)) => InputValueView::Checked(b),
        FieldValueView::OptionalBoolean(None) => InputValueView::Checked(false),
    }
}

/// Whether the elements of a field carry the `required` token: warnings are
/// on and the field's value fails its rule. Since a value of an optional
/// field never fails, an optional field is never decorated.
pub open spec fn decorated(value: FieldValueView, display_required_warnings: bool) -> bool {
    display_required_warnings && !field_satisfied(value)
}

/// The render descriptor of a field, given its label and its name in kebab
/// case.
pub open spec fn rendered_with(
    field: int,
    label: Seq<char>,
    kebab: Seq<char>,
    value: FieldValueView,
    display_required_warnings: bool,
) -> RenderDescriptorView {
    let kind = value_kind(value);
    let required = decorated(value, display_required_warnings);
    RenderDescriptorView {
        field,
        kind,
        label_text: label,
        label_class: element_class_with(kebab, family_of(kind), Element::Label, required),
        input_class: element_class_with(kebab, family_of(kind), Element::Input, required),
        input_kind: input_kind_of(kind),
        current_value: shown_value(value),
    }
}

/// The render descriptor of the field named `field_name`.
pub open spec fn rendered(
    field: int,
    field_name: Seq<char>,
    value: FieldValueView,
    display_required_warnings: bool,
) -> RenderDescriptorView {
    rendered_with(
        field,
        label_of(field_name),
        class_name_of(field_name),
        value,
        display_required_warnings,
    )
}

/// The update action that a change of a field's input element stands for.
///
/// The text of a text input becomes the value of a required string as it
/// is, the empty text included. For an optional string the empty text
/// stands for absent. A checkbox gives a required flag its state; an
/// optional flag becomes present with that state, and no input makes it
/// absent again. An input of the wrong form for the kind stands for no
/// action.
pub open spec fn change_action(field: int, kind: FieldKind, raw: InputValueView) -> Option<
    UpdateActionView,
> {
    match (kind, raw) {
        (FieldKind::Text, InputValueView::Text(s)) => Some(
            UpdateActionView::UpdateField { index: field, value: FieldValueView::Text(s) },
        ),
        (FieldKind::Boolean, InputValueView::Checked(b)) => Some(
            UpdateActionView::UpdateField { index: field, value: FieldValueView::Boolean(b) },
        ),
        (FieldKind::OptionalText, InputValueView::Text(s)) => Some(
            UpdateActionView::UpdateField {
                index: field,
                value: FieldValueView::OptionalText(
                    if s.len() == 0 {
                        None
                    } else {
                        Some(s)
                    },
                ),
            },
        ),
        (FieldKind::OptionalBoolean, InputValueView::Checked(b)) => Some(
            UpdateActionView::UpdateField {
                index: field,
                value: FieldValueView::OptionalBoolean(Some(b)),
            },
        ),
        _ => None,
    }
}

/// An input stands for an action exactly if it has the form that the kind's
/// input element reports, and the action then fits every schema that has a
/// field of that kind at that position.
pub proof fn lemma_change_action_fits(
    schema: Seq<FieldDescriptorView>,
    field: int,
    raw: InputValueView,
)
    requires
        0 <= field < schema.len(),
    ensures
        change_action(field, schema[field].kind, raw) is Some <==> (raw is Text) == (
        input_kind_of(schema[field].kind) == InputKind::SingleLineText),
        change_action(field, schema[field].kind, raw) matches Some(action) ==> action_fits(
            schema,
            action,
        ),
{
}

/// Only fields of a required kind are ever decorated.
pub proof fn lemma_optional_never_decorated(value: FieldValueView, display_required_warnings: bool)
    requires
        value is OptionalText || value is OptionalBoolean,
    ensures
        !decorated(value, display_required_warnings),
{
}

/// The family of input elements that fields of a kind are drawn with.
pub fn kind_family(kind: FieldKind) -> (family: KindFamily)
    ensures
        family == family_of(kind),
{
    match kind {
        FieldKind::Text => KindFamily::Txt,
        FieldKind::OptionalText => KindFamily::Txt,
        FieldKind::Boolean => KindFamily::Checkbox,
        FieldKind::OptionalBoolean => KindFamily::Checkbox,
    }
}

/// The kind of input element that fields of a kind are drawn as.
pub fn input_kind(kind: FieldKind) -> (input: InputKind)
    ensures
        input == input_kind_of(kind),
{
    match kind_family(kind) {
        KindFamily::Txt => InputKind::SingleLineText,
        KindFamily::Checkbox => InputKind::Checkbox,
    }
}

/// What the input element of a field shows for a value.
pub fn current_value(value: &FieldValue) -> (out: InputValue)
    ensures
        out@ == shown_value(value@),
{
    match value {
        FieldValue::Text(s) => InputValue::Text(s.clone()),
        FieldValue::Boolean(b) => InputValue::Checked(*b),
        FieldValue::OptionalText(Some(s)) => InputValue::Text(s.clone()),
        FieldValue::OptionalText(None) => InputValue::Text(String::new()),
        FieldValue::OptionalBoolean(Some(b)) => InputValue::Checked(*b),
        FieldValue::OptionalBoolean(None) => InputValue::Checked(false),
    }
}

/// Build the render descriptor of a field from its label and its name in
/// kebab case.
pub fn render_field_from(
    field: usize,
    label: String,
    kebab: &str,
    value: &FieldValue,
    display_required_warnings: bool,
) -> (out: RenderDescriptor)
    ensures
        out@ == rendered_with(field as int, label@, kebab@, value@, display_required_warnings),
{
    let kind = value.kind();
    let family = kind_family(kind);
    let required = display_required_warnings && !value.is_satisfied();
    RenderDescriptor {
        field,
        kind,
        label_text: label,
        label_class: element_class_from(kebab, family, Element::Label, required),
        input_class: element_class_from(kebab, family, Element::Input, required),
        input_kind: input_kind(kind),
        current_value: current_value(value),
    }
}

/// The render descriptor of one field: its label, the class attributes of
/// its label and its input element, the kind of input element, and the value
/// that the element shows.
pub fn render_field(
    field: usize,
    field_name: &str,
    value: &FieldValue,
    display_required_warnings: bool,
) -> (out: RenderDescriptor)
    ensures
        out@ == rendered(field as int, field_name@, value@, display_required_warnings),
{
    let label = label_text(field_name);
    let kebab = class_name(field_name);
    render_field_from(field, label, kebab.as_str(), value, display_required_warnings)
}

/// The render descriptors of a form in its current state, one per field in
/// declaration order.
pub fn render(controller: &FormController) -> (out: Vec<RenderDescriptor>)
    requires
        controller.wf(),
    ensures
        out@.len() == controller.descriptors().len(),
        forall|i: int|
            0 <= i < out@.len() ==> (#[trigger] out@[i])@ == rendered(
                i,
                controller.descriptors()[i].name,
                controller@.values[i],
                controller@.display_required_warnings,
            ),
{
    let schema = controller.schema();
    let record = controller.values();
    let warnings = controller.display_required_warnings();
    let mut out: Vec<RenderDescriptor> = Vec::new();
    let mut i: usize = 0;
    while i < schema.len()
        invariant
            i <= schema@.len(),
            out@.len() == i,
            record@.len() == schema@.len(),
            record.values@.len() == schema@.len(),
            forall|j: int|
                0 <= j < i ==> (#[trigger] out@[j])@ == rendered(
                    j,
                    schema@[j].name,
                    record@[j],
                    warnings,
                ),
        decreases schema@.len() - i,
    {
        let descriptor = schema.descriptor(i);
        out.push(render_field(i, descriptor.name.as_str(), &record.values[i], warnings));
        i += 1;
    }
    out
}

impl RenderDescriptor {
    /// The update action that a change of this field's input element stands
    /// for. The text of a text input goes into a required string unchanged;
    /// for an optional string the empty text stands for absent. A checkbox
    /// gives a flag its state, and makes an optional flag present. There is
    /// no action for an input of the wrong form.
    pub fn on_change(&self, raw: InputValue) -> (out: Option<UpdateAction>)
        ensures
            match change_action(self.field as int, self.kind, raw@) {
                Some(action) => out matches Some(a) && a@ == action,
                None => out is None,
            },
    {
        let value = match (self.kind, raw) {
            (FieldKind::Text, InputValue::Text(s)) => FieldValue::Text(s),
            (FieldKind::Boolean, InputValue::Checked(b)) => FieldValue::Boolean(b),
            (FieldKind::OptionalText, InputValue::Text(s)) => {
                if s.as_str().is_empty() {
                    FieldValue::OptionalText(None)
                } else {
                    FieldValue::OptionalText(Some(s))
                }
            },
            (FieldKind::OptionalBoolean, InputValue::Checked(b)) => FieldValue::OptionalBoolean(
                Some(b),
            ),
            _ => {
                return None;
            },
        };
        Some(UpdateAction::UpdateField { index: self.field, value })
    }
}

} // verus!
