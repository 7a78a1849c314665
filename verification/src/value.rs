//! The values that a form holds: one value per field, typed by the field's
//! kind, and the rule that decides whether the required fields are filled.

use vstd::prelude::*;
use crate::schema::{FieldDescriptorView, FieldKind, Schema};

verus! {

/// The current value of one field.
#[derive(Clone, Debug, PartialEq, Eq)]
pub enum FieldValue {
    Text(String),
    Boolean(bool),
    OptionalText(Option<String>),
    OptionalBoolean(Option<bool>),
}

/// The mathematical value of a field value.
pub enum FieldValueView {
    Text(Seq<char>),
    Boolean(bool),
    OptionalText(Option<Seq<char>>),
    OptionalBoolean(Option<bool>),
}

impl View for FieldValue {
    type V = FieldValueView;

    open spec fn view(&self) -> FieldValueView {
        match self {
            FieldValue::Text(s) => FieldValueView::Text(s@),
            FieldValue::Boolean(b) => FieldValueView::Boolean(*b),
            FieldValue::OptionalText(Some(s)) => FieldValueView::OptionalText(Some(s@)),
            FieldValue::OptionalText(None) => FieldValueView::OptionalText(None),
            FieldValue::OptionalBoolean(b) => FieldValueView::OptionalBoolean(*b),
        }
    }
}

/// The values of a form, one per field in declaration order.
#[derive(Clone, Debug, PartialEq, Eq)]
pub struct Record {
    pub values: Vec<FieldValue>,
}

impl View for Record {
    type V = Seq<FieldValueView>;

    open spec fn view(&self) -> Seq<FieldValueView> {
        self.values@.map_values(|v: FieldValue| v@)
    }
}

/// The kind of field that a value belongs to.
pub open spec fn value_kind(value: FieldValueView) -> FieldKind {
    match value {
        FieldValueView::Text(_) => FieldKind::Text,
        FieldValueView::Boolean(_) => FieldKind::Boolean,
        FieldValueView::OptionalText(_) => FieldKind::OptionalText,
        FieldValueView::OptionalBoolean(_) => FieldKind::OptionalBoolean,
    }
}

/// The value that a field of the given kind starts with: the empty string,
/// `false`, or absent.
pub open spec fn zero_value_of(kind: FieldKind) -> FieldValueView {
    match kind {
        FieldKind::Text => FieldValueView::Text(Seq::empty()),
        FieldKind::Boolean => FieldValueView::Boolean(false),
        FieldKind::OptionalText => FieldValueView::OptionalText(None),
        FieldKind::OptionalBoolean => FieldValueView::OptionalBoolean(None),
    }
}

/// The values that a form of the given schema starts with.
pub open spec fn zero_values_of(schema: Seq<FieldDescriptorView>) -> Seq<FieldValueView> {
    Seq::new(schema.len(), |i: int| zero_value_of(schema[i].kind))
}

/// Whether `values` holds one value per field of `schema`, each of its
/// field's kind.
pub open spec fn conforms(values: Seq<FieldValueView>, schema: Seq<FieldDescriptorView>) -> bool {
    &&& values.len() == schema.len()
    &&& forall|i: int| 0 <= i < values.len() ==> value_kind(#[trigger] values[i]) == schema[i].kind
}

/// Whether one value meets the rule of its field: a required string is not
/// empty, a required flag is set. A value of an optional field always does.
pub open spec fn field_satisfied(value: FieldValueView) -> bool {
    match value {
        FieldValueView::Text(s) => s.len() != 0,
        FieldValueView::Boolean(b) => b,
        FieldValueView::OptionalText(_) => true,
        FieldValueView::OptionalBoolean(_) => true,
    }
}

/// Whether every required field is filled.
pub open spec fn required_satisfied(values: Seq<FieldValueView>) -> bool {
    forall|i: int| 0 <= i < values.len() ==> field_satisfied(#[trigger] values[i])
}

/// A value of an optional field never decides validation: replacing it by
/// any other value of an optional field leaves the result as it was.
pub proof fn lemma_optional_values_do_not_count(
    values: Seq<FieldValueView>,
    index: int,
    value: FieldValueView,
)
    requires
        0 <= index < values.len(),
        values[index] is OptionalText || values[index] is OptionalBoolean,
        value is OptionalText || value is OptionalBoolean,
    ensures
        required_satisfied(values.update(index, value)) == required_satisfied(values),
{
    let changed = values.update(index, value);
    if required_satisfied(values) {
        assert forall|i: int| 0 <= i < changed.len() implies field_satisfied(
            #[trigger] changed[i],
        ) by {
            if i != index {
                assert(changed[i] == values[i]);
            }
        }
    }
    if required_satisfied(changed) {
        assert forall|i: int| 0 <= i < values.len() implies field_satisfied(
            #[trigger] values[i],
        ) by {
            if i != index {
                assert(changed[i] == values[i]);
            }
        }
    }
}

/// The value that a field of the given kind starts with.
pub fn zero_value(kind: FieldKind) -> (out: FieldValue)
    ensures
        out@ == zero_value_of(kind),
{
    match kind {
        FieldKind::Text => FieldValue::Text(String::new()),
        FieldKind::Boolean => FieldValue::Boolean(false),
        FieldKind::OptionalText => FieldValue::OptionalText(None),
        FieldKind::OptionalBoolean => FieldValue::OptionalBoolean(None),
    }
}

impl FieldValue {
    /// The kind of field that this value belongs to.
    pub fn kind(&self) -> (kind: FieldKind)
        ensures
            kind == value_kind(self@),
    {
        match self {
            FieldValue::Text(_) => FieldKind::Text,
            FieldValue::Boolean(_) => FieldKind::Boolean,
            FieldValue::OptionalText(_) => FieldKind::OptionalText,
            FieldValue::OptionalBoolean(_) => FieldKind::OptionalBoolean,
        }
    }

    /// Whether this value meets the rule of its field.
    pub fn is_satisfied(&self) -> (b: bool)
        ensures
            b == field_satisfied(self@),
    {
        match self {
            FieldValue::Text(s) => !s.as_str().is_empty(),
            FieldValue::Boolean(b) => *b,
            FieldValue::OptionalText(_) => true,
            FieldValue::OptionalBoolean(_) => true,
        }
    }

    /// A copy of this value.
    pub fn duplicate(&self) -> (out: FieldValue)
        ensures
            out@ == self@,
    {
        match self {
            FieldValue::Text(s) => FieldValue::Text(s.clone()),
            FieldValue::Boolean(b) => FieldValue::Boolean(*b),
            FieldValue::OptionalText(Some(s)) => FieldValue::OptionalText(Some(s.clone())),
            FieldValue::OptionalText(None) => FieldValue::OptionalText(None),
            FieldValue::OptionalBoolean(b) => FieldValue::OptionalBoolean(*b),
        }
    }
}

impl Record {
    /// The record that a form of the given schema starts with when no
    /// initial record is supplied: every field at its zero value.
    pub fn zero(schema: &Schema) -> (out: Record)
        ensures
            out@ == zero_values_of(schema@),
            conforms(out@, schema@),
    {
        let mut values: Vec<FieldValue> = Vec::new();
        let mut i: usize = 0;
        while i < schema.len()
            invariant
                i <= schema@.len(),
                values.len() == i,
                forall|j: int| 0 <= j < i ==> (#[trigger] values@[j])@ == zero_value_of(schema@[j].kind),
            decreases schema@.len() - i,
        {
            values.push(zero_value(schema.descriptor(i).kind));
            i += 1;
        }
        let out = Record { values };
        assert(out@ =~= zero_values_of(schema@));
        out
    }

    /// Whether this record holds one value per field of `schema`, each of
    /// its field's kind.
    pub fn conforms_to(&self, schema: &Schema) -> (b: bool)
        ensures
            b == conforms(self@, schema@),
    {
        if self.values.len() != schema.len() {
            return false;
        }
        let mut i: usize = 0;
        while i < self.values.len()
            invariant
                i <= self.values.len(),
                self.values.len() == schema@.len(),
                forall|j: int| 0 <= j < i ==> value_kind(#[trigger] self@[j]) == schema@[j].kind,
            decreases self.values.len() - i,
        {
            if self.values[i].kind() != schema.descriptor(i).kind {
                assert(value_kind(self@[i as int]) != schema@[i as int].kind);
                return false;
            }
            i += 1;
        }
        true
    }

    /// Whether every required field is filled: every required string is not
    /// empty and every required flag is set. Optional fields do not count.
    pub fn required_satisfied(&self) -> (b: bool)
        ensures
            b == required_satisfied(self@),
    {
        let mut i: usize = 0;
        while i < self.values.len()
            invariant
                i <= self.values.len(),
                forall|j: int| 0 <= j < i ==> field_satisfied(#[trigger] self@[j]),
            decreases self.values.len() - i,
        {
            if !self.values[i].is_satisfied() {
                assert(!field_satisfied(self@[i as int]));
                return false;
            }
            i += 1;
        }
        true
    }

    /// A copy of this record.
    pub fn duplicate(&self) -> (out: Record)
        ensures
            out@ == self@,
    {
        let mut values: Vec<FieldValue> = Vec::new();
        let mut i: usize = 0;
        while i < self.values.len()
            invariant
                i <= self.values.len(),
                values.len() == i,
                forall|j: int| 0 <= j < i ==> (#[trigger] values@[j])@ == self@[j],
            decreases self.values.len() - i,
        {
            values.push(self.values[i].duplicate());
            i += 1;
        }
        let out = Record { values };
        assert(out@ =~= self@);
        out
    }
}

} // verus!
