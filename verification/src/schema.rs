//! Field kinds, the classification of declared types, and the schema that
//! introspection extracts from a record definition.

use vstd::prelude::*;
use crate::record::{DeclaredField, DeclaredType, RecordDefinition, RecordShape};
use crate::util::{get_struct_fields, is_optionized, is_type, type_is, type_is_optionized};

verus! {

/// The closed set of field kinds that a form supports.
#[derive(Clone, Copy, Debug, PartialEq, Eq, Structural)]
pub enum FieldKind {
    /// A required string.
    Text,
    /// A required flag.
    Boolean,
    /// A string that may be absent.
    OptionalText,
    /// A flag that may be absent.
    OptionalBoolean,
}

/// Why a record definition cannot be compiled.
#[derive(Clone, Copy, Debug, PartialEq, Eq, Structural)]
pub enum CompileError {
    /// The definition is not a structure with named fields.
    UnsupportedRecordShape,
    /// A field's type is outside the supported kinds.
    UnsupportedFieldType,
}

/// A field of a schema: its name and its kind.
#[derive(Clone, Debug, PartialEq, Eq)]
pub struct FieldDescriptor {
    pub name: String,
    pub kind: FieldKind,
}

/// The mathematical value of a field descriptor.
pub struct FieldDescriptorView {
    pub name: Seq<char>,
    pub kind: FieldKind,
}

impl View for FieldDescriptor {
    type V = FieldDescriptorView;

    open spec fn view(&self) -> FieldDescriptorView {
        FieldDescriptorView { name: self.name@, kind: self.kind }
    }
}

/// The ordered field descriptors of a record definition. A schema is made by
/// [`introspect`] and is read-only afterwards.
#[derive(Clone, Debug, PartialEq, Eq)]
pub struct Schema {
    fields: Vec<FieldDescriptor>,
}

impl View for Schema {
    type V = Seq<FieldDescriptorView>;

    closed spec fn view(&self) -> Seq<FieldDescriptorView> {
        self.fields@.map_values(|f: FieldDescriptor| f@)
    }
}

impl Schema {
    /// The number of fields.
    pub fn len(&self) -> (n: usize)
        ensures
            n == self@.len(),
    {
        self.fields.len()
    }

    /// The descriptor of the field at `index`, in declaration order.
    pub fn descriptor(&self, index: usize) -> (d: &FieldDescriptor)
        requires
            index < self@.len(),
        ensures
            d@ == self@[index as int],
    {
        &self.fields[index]
    }
}

/// The kind that a declared type maps to, if it is supported: `String`,
/// `bool`, or an `Option` of one of the two.
pub open spec fn kind_of(ty: DeclaredType) -> Option<FieldKind> {
    if type_is("String"@, ty) {
        Some(FieldKind::Text)
    } else if type_is("bool"@, ty) {
        Some(FieldKind::Boolean)
    } else if type_is_optionized("String"@, ty) {
        Some(FieldKind::OptionalText)
    } else if type_is_optionized("bool"@, ty) {
        Some(FieldKind::OptionalBoolean)
    } else {
        None
    }
}

/// Whether every field has a supported type.
pub open spec fn all_supported(fields: Seq<DeclaredField>) -> bool {
    forall|i: int| 0 <= i < fields.len() ==> (#[trigger] kind_of(fields[i].ty)) is Some
}

/// The descriptors of fields that all have a supported type: same names, same
/// order, each with the kind of its type.
pub open spec fn descriptors_of(fields: Seq<DeclaredField>) -> Seq<FieldDescriptorView> {
    Seq::new(
        fields.len(),
        |i: int| FieldDescriptorView { name: fields[i].name@, kind: kind_of(fields[i].ty).unwrap() },
    )
}

/// What introspection makes of a record definition.
pub open spec fn introspected(record: RecordDefinition) -> Result<
    Seq<FieldDescriptorView>,
    CompileError,
> {
    match record.shape {
        RecordShape::Named(fields) => {
            if all_supported(fields@) {
                Ok(descriptors_of(fields@))
            } else {
                Err(CompileError::UnsupportedFieldType)
            }
        },
        _ => Err(CompileError::UnsupportedRecordShape),
    }
}

/// Classify a declared type: its kind if it is supported, an error if not.
pub fn classify(declared_type: &DeclaredType) -> (out: Result<FieldKind, CompileError>)
    ensures
        match kind_of(*declared_type) {
            Some(kind) => out == Ok::<FieldKind, CompileError>(kind),
            None => out == Err::<FieldKind, CompileError>(CompileError::UnsupportedFieldType),
        },
{
    if is_type("String", declared_type) {
        Ok(FieldKind::Text)
    } else if is_type("bool", declared_type) {
        Ok(FieldKind::Boolean)
    } else if is_optionized("String", declared_type) {
        Ok(FieldKind::OptionalText)
    } else if is_optionized("bool", declared_type) {
        Ok(FieldKind::OptionalBoolean)
    } else {
        Err(CompileError::UnsupportedFieldType)
    }
}

/// Extract the schema of a record definition. The definition must be a
/// structure with named fields, each of a supported type; the first field
/// that is not ends introspection.
pub fn introspect(record: &RecordDefinition) -> (out: Result<Schema, CompileError>)
    ensures
        match introspected(*record) {
            Ok(descriptors) => out matches Ok(schema) && schema@ == descriptors,
            Err(e) => out matches Err(err) && err == e,
        },
{
    let declared = match get_struct_fields(record) {
        Ok(fields) => fields,
        Err(e) => {
            return Err(e);
        },
    };
    let mut fields: Vec<FieldDescriptor> = Vec::new();
    let mut i: usize = 0;
    while i < declared.len()
        invariant
            record.shape == RecordShape::Named(*declared),
            i <= declared.len(),
            fields.len() == i,
            forall|j: int| 0 <= j < i ==> (#[trigger] kind_of(declared@[j].ty)) is Some,
            forall|j: int|
                0 <= j < i ==> (#[trigger] fields@[j])@ == descriptors_of(declared@)[j],
        decreases declared.len() - i,
    {
        let kind = match classify(&declared[i].ty) {
            Ok(kind) => kind,
            Err(e) => {
                return Err(e);
            },
        };
        fields.push(FieldDescriptor { name: declared[i].name.clone(), kind });
        i += 1;
    }
    let schema = Schema { fields };
    assert(schema@ =~= descriptors_of(declared@));
    Ok(schema)
}

} // verus!
