//! The values that sampling returns.

use vstd::prelude::*;

verus! {

/// A sampled value: one node for each node of the shape it was drawn for.
#[derive(Debug, PartialEq, Eq)]
pub enum Value {
    /// An integer, after narrowing to the width of its kind.
    Int(i128),
    /// A double, given by its IEEE-754 bit pattern.
    Float(u64),
    /// A string.
    Text(String),
    /// A boolean.
    Bool(bool),
    /// A value that may be absent.
    Optional(Option<Box<Value>>),
    /// The elements of a collection.
    Sequence(Vec<Value>),
    /// A singly owned value.
    Indirect(Box<Value>),
    /// The fields of a record, in declaration order.
    Record(Vec<FieldValue>),
    /// The selected variant of a union, by name, and what it carries.
    Union(String, Payload),
}

/// The value of one named field.
#[derive(Debug, PartialEq, Eq)]
pub struct FieldValue {
    pub name: String,
    pub value: Value,
}

/// What a selected variant carries.
#[derive(Debug, PartialEq, Eq)]
pub enum Payload {
    /// Nothing.
    NoPayload,
    /// The values of unnamed fields, in declaration order.
    PositionalFields(Vec<Value>),
    /// The values of named fields, in declaration order.
    NamedFields(Vec<FieldValue>),
}

} // verus!
