//! The record definition that the compiler takes as input.
//!
//! A definition is held as plain data: the record's name and, for a record
//! with named fields, each field's name and declared type in declaration
//! order. A declared type keeps what classification looks at, the segments of
//! a type path and their generic arguments.

use vstd::prelude::*;

verus! {

/// One argument between the angle brackets of a path segment.
#[derive(Debug)]
pub enum GenericArgument {
    /// A type argument, as `String` in `Option<String>`.
    Type(DeclaredType),
    /// A lifetime, a constant, or a binding.
    Other,
}

/// What follows the name of a path segment.
#[derive(Debug)]
pub enum PathArguments {
    /// Nothing, as in `String`.
    Empty,
    /// Arguments in angle brackets, as in `Option<String>`.
    AngleBracketed(Vec<GenericArgument>),
    /// Arguments in round brackets, as in `Fn(usize) -> bool`.
    Parenthesized,
}

/// One segment of a type path: a name and its arguments.
#[derive(Debug)]
pub struct PathSegment {
    pub ident: String,
    pub arguments: PathArguments,
}

/// The declared type of a field.
#[derive(Debug)]
pub enum DeclaredType {
    /// A path such as `String`, `Option<bool>` or `std::string::String`.
    /// `qualified` is set for a path with an explicit self type, such as
    /// `<T as Trait>::Output`.
    Path { qualified: bool, segments: Vec<PathSegment> },
    /// Any other form of type: a reference, a tuple, an array and so on.
    Other,
}

/// A named field of a record definition.
#[derive(Debug)]
pub struct DeclaredField {
    pub name: String,
    pub ty: DeclaredType,
}

/// The shape of a record definition.
#[derive(Debug)]
pub enum RecordShape {
    /// A structure with named fields, in declaration order.
    Named(Vec<DeclaredField>),
    /// A tuple-like structure.
    Tuple,
    /// A structure without fields.
    Unit,
    /// An enumeration.
    Enumeration,
    /// An untagged union.
    Union,
}

/// A record definition: its name and its shape.
#[derive(Debug)]
pub struct RecordDefinition {
    pub name: String,
    pub shape: RecordShape,
}

} // verus!
