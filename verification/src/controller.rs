//! The form controller: the state of one form session and its transitions.
//!
//! A controller starts out editing, with warnings off. An update replaces
//! the value of one field. A submit either succeeds, which marks the form
//! submitted, clears the warnings and hands out the current values, or fails
//! validation, which turns the warnings on. Once set, the submitted mark
//! stays.

use vstd::prelude::*;
use crate::schema::{FieldDescriptorView, Schema};
use crate::value::{
    conforms, required_satisfied, value_kind, zero_values_of, FieldValue, FieldValueView, Record,
};

verus! {

/// What can happen to a form: the value of one field is replaced, the form is
/// submitted, or the warnings on unfilled required fields are turned on.
#[derive(Clone, Debug, PartialEq, Eq)]
pub enum UpdateAction {
    /// Replace the value of the field at `index`.
    UpdateField { index: usize, value: FieldValue },
    Submit,
    ShowRequiredWarnings,
}

/// The mathematical value of an update action.
pub enum UpdateActionView {
    UpdateField { index: int, value: FieldValueView },
    Submit,
    ShowRequiredWarnings,
}

impl View for UpdateAction {
    type V = UpdateActionView;

    open spec fn view(&self) -> UpdateActionView {
        match self {
            UpdateAction::UpdateField { index, value } => UpdateActionView::UpdateField {
                index: *index as int,
                value: value@,
            },
            UpdateAction::Submit => UpdateActionView::Submit,
            UpdateAction::ShowRequiredWarnings => UpdateActionView::ShowRequiredWarnings,
        }
    }
}

/// The state of a form session.
pub struct ControllerState {
    /// The current value of each field, in declaration order.
    pub values: Seq<FieldValueView>,
    /// Whether a submit has succeeded.
    pub submitted: bool,
    /// Whether unfilled required fields are to be marked.
    pub display_required_warnings: bool,
}

/// What a transition hands back to the host.
#[derive(Debug)]
pub struct Outcome {
    /// Whether the form has to be drawn again. An update of a field does not
    /// ask for it: the input element already shows the new value.
    pub redraw: bool,
    /// The finalized record, present exactly when a submit succeeded. The
    /// host passes it on to the submit consumer.
    pub emitted: Option<Record>,
}

/// Whether required fields are enforced on submit. They are unless the host
/// has switched enforcement off.
pub open spec fn enforced(enforce_required_fields: Option<bool>) -> bool {
    match enforce_required_fields {
        Some(enforce) => enforce,
        None => true,
    }
}

/// Whether a submit of `values` succeeds.
pub open spec fn submit_succeeds(
    values: Seq<FieldValueView>,
    enforce_required_fields: Option<bool>,
) -> bool {
    !enforced(enforce_required_fields) || required_satisfied(values)
}

/// Whether a form of the given schema takes the action: an update must name
/// one of the fields and carry a value of that field's kind.
pub open spec fn action_fits(schema: Seq<FieldDescriptorView>, action: UpdateActionView) -> bool {
    match action {
        UpdateActionView::UpdateField { index, value } => {
            0 <= index < schema.len() && value_kind(value) == schema[index].kind
        },
        _ => true,
    }
}

/// The state that follows `state` on `action`.
pub open spec fn next_state(
    state: ControllerState,
    action: UpdateActionView,
    enforce_required_fields: Option<bool>,
) -> ControllerState {
    match action {
        UpdateActionView::UpdateField { index, value } => ControllerState {
            values: state.values.update(index, value),
            ..state
        },
        UpdateActionView::Submit => {
            if submit_succeeds(state.values, enforce_required_fields) {
                ControllerState { submitted: true, display_required_warnings: false, ..state }
            } else {
                ControllerState { display_required_warnings: true, ..state }
            }
        },
        UpdateActionView::ShowRequiredWarnings => ControllerState {
            display_required_warnings: true,
            ..state
        },
    }
}

/// The record that the transition on `action` emits, if any.
pub open spec fn emitted_record(
    state: ControllerState,
    action: UpdateActionView,
    enforce_required_fields: Option<bool>,
) -> Option<Seq<FieldValueView>> {
    if action is Submit && submit_succeeds(state.values, enforce_required_fields) {
        Some(state.values)
    } else {
        None
    }
}

/// Applying the same field update twice yields the same state as applying it
/// once.
pub proof fn lemma_update_idempotent(
    state: ControllerState,
    index: int,
    value: FieldValueView,
    enforce_required_fields: Option<bool>,
)
    requires
        0 <= index < state.values.len(),
    ensures
        ({
            let action = UpdateActionView::UpdateField { index, value };
            let once = next_state(state, action, enforce_required_fields);
            next_state(once, action, enforce_required_fields) == once
        }),
{
    let once = state.values.update(index, value);
    assert(once.update(index, value) =~= once);
}

/// An update of a field changes neither the submitted mark nor the warnings,
/// and no value but that of its field.
pub proof fn lemma_update_changes_one_value(
    state: ControllerState,
    index: int,
    value: FieldValueView,
    enforce_required_fields: Option<bool>,
)
    requires
        0 <= index < state.values.len(),
    ensures
        ({
            let next = next_state(
                state,
                UpdateActionView::UpdateField { index, value },
                enforce_required_fields,
            );
            &&& next.submitted == state.submitted
            &&& next.display_required_warnings == state.display_required_warnings
            &&& next.values.len() == state.values.len()
            &&& next.values[index] == value
            &&& forall|i: int|
                0 <= i < state.values.len() && i != index ==> next.values[i] == state.values[i]
        }),
{
}

/// With enforcement switched off a submit always succeeds: the form is
/// marked submitted, the warnings are cleared and the current values are
/// emitted, whether or not the required fields are filled.
pub proof fn lemma_submit_not_enforced(state: ControllerState)
    ensures
        ({
            let next = next_state(state, UpdateActionView::Submit, Some(false));
            &&& next.submitted
            &&& !next.display_required_warnings
            &&& next.values == state.values
            &&& emitted_record(state, UpdateActionView::Submit, Some(false)) == Some(state.values)
        }),
{
}

/// With enforcement on, explicitly or by default, a submit that fails
/// validation emits nothing, turns the warnings on and leaves the values and
/// the submitted mark as they were.
pub proof fn lemma_submit_rejected(state: ControllerState, enforce_required_fields: Option<bool>)
    requires
        enforce_required_fields == Some(true) || enforce_required_fields is None,
        !required_satisfied(state.values),
    ensures
        ({
            let next = next_state(state, UpdateActionView::Submit, enforce_required_fields);
            &&& emitted_record(state, UpdateActionView::Submit, enforce_required_fields) is None
            &&& next.display_required_warnings
            &&& next.values == state.values
            &&& next.submitted == state.submitted
        }),
{
}

/// A submit that passes validation marks the form submitted, clears the
/// warnings and emits the current values, whatever the enforcement.
pub proof fn lemma_submit_valid(state: ControllerState, enforce_required_fields: Option<bool>)
    requires
        required_satisfied(state.values),
    ensures
        ({
            let next = next_state(state, UpdateActionView::Submit, enforce_required_fields);
            &&& next.submitted
            &&& !next.display_required_warnings
            &&& next.values == state.values
            &&& emitted_record(state, UpdateActionView::Submit, enforce_required_fields) == Some(
                state.values,
            )
        }),
{
}

/// The submitted mark is sticky: no transition takes it away.
pub proof fn lemma_submitted_stays(
    state: ControllerState,
    action: UpdateActionView,
    enforce_required_fields: Option<bool>,
)
    requires
        state.submitted,
    ensures
        next_state(state, action, enforce_required_fields).submitted,
{
}

/// Every transition keeps the values in line with the schema.
pub proof fn lemma_transition_conforms(
    schema: Seq<FieldDescriptorView>,
    state: ControllerState,
    action: UpdateActionView,
    enforce_required_fields: Option<bool>,
)
    requires
        conforms(state.values, schema),
        action_fits(schema, action),
    ensures
        conforms(next_state(state, action, enforce_required_fields).values, schema),
{
}

/// The controller of one form session.
#[derive(Debug)]
pub struct FormController {
    schema: Schema,
    record: Record,
    submitted: bool,
    display_required_warnings: bool,
    enforce_required_fields: Option<bool>,
}

impl View for FormController {
    type V = ControllerState;

    closed spec fn view(&self) -> ControllerState {
        ControllerState {
            values: self.record@,
            submitted: self.submitted,
            display_required_warnings: self.display_required_warnings,
        }
    }
}

impl FormController {
    /// The schema that the controller was made for.
    pub closed spec fn descriptors(&self) -> Seq<FieldDescriptorView> {
        self.schema@
    }

    /// The enforcement that the controller was made with.
    pub closed spec fn enforcement(&self) -> Option<bool> {
        self.enforce_required_fields
    }

    /// The controller holds one value per field of its schema, each of its
    /// field's kind.
    pub open spec fn wf(&self) -> bool {
        conforms(self@.values, self.descriptors())
    }

    /// Make the controller of a new form session. Its values are those of
    /// `initial_record` if one is supplied, and the zero value of each field
    /// if none is. A supplied record is taken as it is, never merged with
    /// zero values; one that does not fit the schema makes no controller.
    pub fn new(
        schema: Schema,
        initial_record: Option<Record>,
        enforce_required_fields: Option<bool>,
    ) -> (out: Option<FormController>)
        ensures
            out is Some <==> (initial_record matches Some(record) ==> conforms(record@, schema@)),
            out matches Some(controller) ==> {
                &&& controller.wf()
                &&& controller.descriptors() == schema@
                &&& controller.enforcement() == enforce_required_fields
                &&& !controller@.submitted
                &&& !controller@.display_required_warnings
                &&& controller@.values == match initial_record {
                    Some(record) => record@,
                    None => zero_values_of(schema@),
                }
            },
    {
        let record = match initial_record {
            Some(record) => {
                if !record.conforms_to(&schema) {
                    return None;
                }
                record
            },
            None => Record::zero(&schema),
        };
        Some(
            FormController {
                schema,
                record,
                submitted: false,
                display_required_warnings: false,
                enforce_required_fields,
            },
        )
    }

    /// The schema that the controller was made for.
    pub fn schema(&self) -> (schema: &Schema)
        ensures
            schema@ == self.descriptors(),
    {
        &self.schema
    }

    /// The current values.
    pub fn values(&self) -> (record: &Record)
        ensures
            record@ == self@.values,
    {
        &self.record
    }

    /// Whether a submit has succeeded.
    pub fn submitted(&self) -> (b: bool)
        ensures
            b == self@.submitted,
    {
        self.submitted
    }

    /// Whether unfilled required fields are to be marked.
    pub fn display_required_warnings(&self) -> (b: bool)
        ensures
            b == self@.display_required_warnings,
    {
        self.display_required_warnings
    }

    /// The enforcement that the controller was made with.
    pub fn enforce_required_fields(&self) -> (enforce: Option<bool>)
        ensures
            enforce == self.enforcement(),
    {
        self.enforce_required_fields
    }

    /// Whether the controller takes the action: an update must name one of
    /// the fields and carry a value of that field's kind.
    pub fn accepts(&self, action: &UpdateAction) -> (b: bool)
        ensures
            b == action_fits(self.descriptors(), action@),
    {
        match action {
            UpdateAction::UpdateField { index, value } => {
                *index < self.schema.len() && value.kind() == self.schema.descriptor(*index).kind
            },
            _ => true,
        }
    }

    /// Whether every required field is filled.
    pub fn required_satisfied(&self) -> (b: bool)
        ensures
            b == required_satisfied(self@.values),
    {
        self.record.required_satisfied()
    }

    /// Take one action.
    ///
    /// An update replaces the value of its field and nothing else. A submit
    /// succeeds if enforcement is off or every required field is filled: the
    /// form is marked submitted, the warnings are cleared and the current
    /// values are handed back for the submit consumer. A submit that fails
    /// turns the warnings on and emits nothing.
    pub fn update(&mut self, action: UpdateAction) -> (out: Outcome)
        requires
            old(self).wf(),
            action_fits(old(self).descriptors(), action@),
        ensures
            final(self).wf(),
            final(self).descriptors() == old(self).descriptors(),
            final(self).enforcement() == old(self).enforcement(),
            final(self)@ == next_state(old(self)@, action@, old(self).enforcement()),
            match emitted_record(old(self)@, action@, old(self).enforcement()) {
                Some(values) => out.emitted matches Some(record) && record@ == values,
                None => out.emitted is None,
            },
            out.redraw == !(action is UpdateField),
    {
        match action {
            UpdateAction::UpdateField { index, value } => {
                self.record.values.set(index, value);
                assert(self.record@ =~= old(self).record@.update(index as int, value@));
                Outcome { redraw: false, emitted: None }
            },
            UpdateAction::Submit => {
                let enforce_required = match self.enforce_required_fields {
                    Some(enforce) => enforce,
                    None => true,
                };
                if self.record.required_satisfied() || !enforce_required {
                    let emitted = self.record.duplicate();
                    self.submitted = true;
                    self.display_required_warnings = false;
                    Outcome { redraw: true, emitted: Some(emitted) }
                } else {
                    self.display_required_warnings = true;
                    Outcome { redraw: true, emitted: None }
                }
            },
            UpdateAction::ShowRequiredWarnings => {
                self.display_required_warnings = true;
                Outcome { redraw: true, emitted: None }
            },
        }
    }

    /// Take one action if the controller accepts it. An action that does not
    /// fit the schema is refused and leaves the controller as it was.
    pub fn try_update(&mut self, action: UpdateAction) -> (out: Option<Outcome>)
        requires
            old(self).wf(),
        ensures
            final(self).wf(),
            final(self).descriptors() == old(self).descriptors(),
            final(self).enforcement() == old(self).enforcement(),
            out is Some <==> action_fits(old(self).descriptors(), action@),
            out is None ==> final(self)@ == old(self)@,
            out matches Some(outcome) ==> {
                &&& final(self)@ == next_state(old(self)@, action@, old(self).enforcement())
                &&& match emitted_record(old(self)@, action@, old(self).enforcement()) {
                    Some(values) => outcome.emitted matches Some(record) && record@ == values,
                    None => outcome.emitted is None,
                }
                &&& outcome.redraw == !(action is UpdateField)
            },
    {
        if self.accepts(&action) {
            Some(self.update(action))
        } else {
            None
        }
    }
}

} // verus!
