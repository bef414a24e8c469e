//! How a declared type takes part in a shape, told from the name that ends
//! its path.

use crate::shape::{IntWidth, PrimitiveKind};
use vstd::prelude::*;

verus! {

/// The part that a declared type takes in a shape.
#[derive(Clone, Copy, Debug, PartialEq, Eq, Structural)]
pub enum TypeClass {
    /// `Option` of another type.
    Optional,
    /// `Vec` of another type.
    Sequence,
    /// `Box` of another type.
    Indirect,
    /// A scalar of the kind.
    Primitive(PrimitiveKind),
    /// Any other type: a record or a union with a shape of its own.
    Composite,
}

/// The scalar kind that a type name stands for, if it stands for one.
pub open spec fn primitive_of(name: Seq<char>) -> Option<PrimitiveKind> {
    if name == "f64"@ || name == "f32"@ {
        Some(PrimitiveKind::Float)
    } else if name == "i32"@ {
        Some(PrimitiveKind::Int(IntWidth::I32))
    } else if name == "i64"@ {
        Some(PrimitiveKind::Int(IntWidth::I64))
    } else if name == "u32"@ {
        Some(PrimitiveKind::Int(IntWidth::U32))
    } else if name == "u64"@ {
        Some(PrimitiveKind::Int(IntWidth::U64))
    } else if name == "usize"@ {
        Some(PrimitiveKind::Int(IntWidth::Usize))
    } else if name == "isize"@ {
        Some(PrimitiveKind::Int(IntWidth::Isize))
    } else if name == "String"@ {
        Some(PrimitiveKind::Text)
    } else if name == "bool"@ {
        Some(PrimitiveKind::Bool)
    } else {
        None
    }
}

/// The part that the type of the given name takes in a shape. The wrappers
/// are told first, then the scalars; every other name is a composite.
pub open spec fn class_of(name: Seq<char>) -> TypeClass {
    if name == "Option"@ {
        TypeClass::Optional
    } else if name == "Vec"@ {
        TypeClass::Sequence
    } else if name == "Box"@ {
        TypeClass::Indirect
    } else {
        match primitive_of(name) {
            Some(kind) => TypeClass::Primitive(kind),
            None => TypeClass::Composite,
        }
    }
}

/// Whether the name is the given word.
fn is_word(name: &String, word: &str) -> (r: bool)
    ensures
        r == (name@ == word@),
{
    *name == String::from_str(word)
}

/// Whether the name is `Option`.
pub fn is_option(name: &String) -> (r: bool)
    ensures
        r == (name@ == "Option"@),
{
    is_word(name, "Option")
}

/// Whether the name is `Vec`.
pub fn is_vec(name: &String) -> (r: bool)
    ensures
        r == (name@ == "Vec"@),
{
    is_word(name, "Vec")
}

/// Whether the name is `Box`.
pub fn is_box(name: &String) -> (r: bool)
    ensures
        r == (name@ == "Box"@),
{
    is_word(name, "Box")
}

/// The scalar kind that the name stands for, if it stands for one.
pub fn primitive_kind(name: &String) -> (kind: Option<PrimitiveKind>)
    ensures
        kind == primitive_of(name@),
{
    if is_word(name, "f64") || is_word(name, "f32") {
        Some(PrimitiveKind::Float)
    } else if is_word(name, "i32") {
        Some(PrimitiveKind::Int(IntWidth::I32))
    } else if is_word(name, "i64") {
        Some(PrimitiveKind::Int(IntWidth::I64))
    } else if is_word(name, "u32") {
        Some(PrimitiveKind::Int(IntWidth::U32))
    } else if is_word(name, "u64") {
        Some(PrimitiveKind::Int(IntWidth::U64))
    } else if is_word(name, "usize") {
        Some(PrimitiveKind::Int(IntWidth::Usize))
    } else if is_word(name, "isize") {
        Some(PrimitiveKind::Int(IntWidth::Isize))
    } else if is_word(name, "String") {
        Some(PrimitiveKind::Text)
    } else if is_word(name, "bool") {
        Some(PrimitiveKind::Bool)
    } else {
        None
    }
}

/// Whether the name stands for a scalar.
pub fn is_primitive(name: &String) -> (r: bool)
    ensures
        r == primitive_of(name@) is Some,
{
    primitive_kind(name).is_some()
}

/// The part that the type of the given name takes in a shape.
pub fn classify(name: &String) -> (class: TypeClass)
    ensures
        class == class_of(name@),
{
    if is_option(name) {
        TypeClass::Optional
    } else if is_vec(name) {
        TypeClass::Sequence
    } else if is_box(name) {
        TypeClass::Indirect
    } else {
        match primitive_kind(name) {
            Some(kind) => TypeClass::Primitive(kind),
            None => TypeClass::Composite,
        }
    }
}

} // verus!
