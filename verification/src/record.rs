//! The input record: its name, its existing annotations, and its shape.
//! Only a product type with exclusively named fields can be augmented.

use vstd::prelude::*;

verus! {

/// One field of the record: its name and the text of its type expression,
/// in declaration order.
#[derive(Debug)]
pub struct FieldDescriptor {
    pub name: String,
    pub ty: String,
}

/// The shape of the annotated type definition.
#[derive(Debug)]
pub enum TypeShape {
    /// A struct with named fields, in declaration order.
    NamedFields(Vec<FieldDescriptor>),
    /// A tuple-style struct.
    TupleFields,
    /// A unit struct.
    UnitShape,
    /// An enum.
    EnumShape,
    /// A union.
    UnionShape,
}

/// A fatal shape error; generation is aborted.
#[derive(Debug)]
pub enum ShapeError {
    /// The annotated type is not a named-field product type.
    UnsupportedKind,
}

/// One existing annotation on the record: its full text, passed through
/// unchanged, and the text of its arguments, inspected for the
/// serialization marker.
#[derive(Debug)]
pub struct Annotation {
    pub text: String,
    pub args: String,
}

/// The annotated type definition as the host hands it over.
#[derive(Debug)]
pub struct RecordDefinition {
    pub name: String,
    pub annotations: Vec<Annotation>,
    pub shape: TypeShape,
}

/// Yields the ordered field list of a named-field record, and rejects every
/// other shape.
pub fn extract_fields(shape: &TypeShape) -> (r: Result<&Vec<FieldDescriptor>, ShapeError>)
    ensures
        match *shape {
            TypeShape::NamedFields(fields) => r matches Ok(v) && *v == fields,
            _ => r matches Err(e) && e == ShapeError::UnsupportedKind,
        },
{
    match shape {
        TypeShape::NamedFields(fields) => Ok(fields),
        _ => Err(ShapeError::UnsupportedKind),
    }
}

} // verus!
