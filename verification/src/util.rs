//! Predicates on declared fields, and helpers on identifiers and record
//! definitions.

use vstd::prelude::*;
use crate::record::{
    DeclaredField, DeclaredType, GenericArgument, PathArguments, RecordDefinition, RecordShape,
};
use crate::schema::CompileError;

verus! {

/// Whether `ty` is a path of exactly one segment named `name`. Neither an
/// explicit self type nor the segment's arguments are looked at.
pub open spec fn type_is(name: Seq<char>, ty: DeclaredType) -> bool {
    match ty {
        DeclaredType::Path { qualified, segments } => {
            segments@.len() == 1 && segments@[0].ident@ == name
        },
        DeclaredType::Other => false,
    }
}

/// The type wrapped by `ty` when `ty` is an unqualified `Option` with exactly
/// one argument in angle brackets and that argument is a type.
pub open spec fn option_argument(ty: DeclaredType) -> Option<DeclaredType> {
    match ty {
        DeclaredType::Path { qualified, segments } => {
            if !qualified && type_is("Option"@, ty) {
                match segments@[0].arguments {
                    PathArguments::AngleBracketed(args) => {
                        if args@.len() == 1 {
                            match args@[0] {
                                GenericArgument::Type(inner) => Some(inner),
                                GenericArgument::Other => None,
                            }
                        } else {
                            None
                        }
                    },
                    _ => None,
                }
            } else {
                None
            }
        },
        DeclaredType::Other => None,
    }
}

/// Whether `ty` is an `Option` that wraps the type named `name`.
pub open spec fn type_is_optionized(name: Seq<char>, ty: DeclaredType) -> bool {
    match option_argument(ty) {
        Some(inner) => type_is(name, inner),
        None => false,
    }
}

/// Return whether a type matches a given name.
pub fn is_type(type_as_str: &str, ty: &DeclaredType) -> (b: bool)
    ensures
        b == type_is(type_as_str@, *ty),
{
    match ty {
        DeclaredType::Path { qualified, segments } => {
            segments.len() == 1 && segments[0].ident == type_as_str.to_owned()
        },
        DeclaredType::Other => false,
    }
}

/// Return whether a field has a given type.
pub fn field_has_type(type_as_str: &str, field: &DeclaredField) -> (b: bool)
    ensures
        b == type_is(type_as_str@, field.ty),
{
    is_type(type_as_str, &field.ty)
}

/// The type that an `Option` wraps, if `ty` is a well-formed `Option`.
pub fn option_inner(ty: &DeclaredType) -> (inner: Option<&DeclaredType>)
    ensures
        match inner {
            Some(t) => option_argument(*ty) == Some(*t),
            None => option_argument(*ty) is None,
        },
{
    if !is_type("Option", ty) {
        return None;
    }
    match ty {
        DeclaredType::Path { qualified, segments } => {
            if *qualified {
                return None;
            }
            match &segments[0].arguments {
                PathArguments::AngleBracketed(args) => {
                    if args.len() != 1 {
                        return None;
                    }
                    match &args[0] {
                        GenericArgument::Type(inner) => Some(inner),
                        GenericArgument::Other => None,
                    }
                },
                _ => None,
            }
        },
        DeclaredType::Other => None,
    }
}

/// Return whether a type is an `Option` of the type with the given name.
pub fn is_optionized(type_as_str: &str, ty: &DeclaredType) -> (b: bool)
    ensures
        b == type_is_optionized(type_as_str@, *ty),
{
    match option_inner(ty) {
        Some(inner) => is_type(type_as_str, inner),
        None => false,
    }
}

/// Return whether a field is an `Option` of the given type.
pub fn field_is_optionized(type_as_str: &str, field: &DeclaredField) -> (b: bool)
    ensures
        b == type_is_optionized(type_as_str@, field.ty),
{
    is_optionized(type_as_str, &field.ty)
}

/// Whether the field's type is named `String`.
pub fn field_is_string(field: &DeclaredField) -> (b: bool)
    ensures
        b == type_is("String"@, field.ty),
{
    field_has_type("String", field)
}

/// Whether the field's type is named `bool`.
pub fn field_is_bool(field: &DeclaredField) -> (b: bool)
    ensures
        b == type_is("bool"@, field.ty),
{
    field_has_type("bool", field)
}

/// Whether the field's type is named `Option`, whatever it wraps.
pub fn field_is_option(field: &DeclaredField) -> (b: bool)
    ensures
        b == type_is("Option"@, field.ty),
{
    field_has_type("Option", field)
}

/// Whether the field's type is an `Option` of `String`.
pub fn field_is_option_string(field: &DeclaredField) -> (b: bool)
    ensures
        b == type_is_optionized("String"@, field.ty),
{
    field_is_optionized("String", field)
}

/// Whether the field's type is an `Option` of `bool`.
pub fn field_is_option_bool(field: &DeclaredField) -> (b: bool)
    ensures
        b == type_is_optionized("bool"@, field.ty),
{
    field_is_optionized("bool", field)
}

/// Produce a new identifier by appending to an existing one, as in
/// `Name` -> `NameBuilder`.
pub fn append_to_ident(ident: &str, to_append: &str) -> (out: String)
    ensures
        out@ == ident@ + to_append@,
{
    let mut new_name = ident.to_owned();
    new_name.append(to_append);
    new_name
}

/// Get the named fields of a record definition. Any definition that is not a
/// structure with named fields is rejected.
pub fn get_struct_fields(ast: &RecordDefinition) -> (out: Result<&Vec<DeclaredField>, CompileError>)
    ensures
        match ast.shape {
            RecordShape::Named(fields) => out == Ok::<&Vec<DeclaredField>, CompileError>(&fields),
            _ => out == Err::<&Vec<DeclaredField>, CompileError>(
                CompileError::UnsupportedRecordShape,
            ),
        },
{
    match &ast.shape {
        RecordShape::Named(fields) => Ok(fields),
        _ => Err(CompileError::UnsupportedRecordShape),
    }
}

} // verus!
