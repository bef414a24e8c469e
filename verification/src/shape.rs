//! The structure of the values that can be sampled.

use vstd::prelude::*;

verus! {

/// The integer widths a drawn integer can be narrowed to.
#[derive(Clone, Copy, Debug, PartialEq, Eq, Structural)]
pub enum IntWidth {
    I32,
    I64,
    U32,
    U64,
    Isize,
    Usize,
}

/// The scalar kinds.
#[derive(Clone, Copy, Debug, PartialEq, Eq, Structural)]
pub enum PrimitiveKind {
    /// An integer, drawn as a signed 64-bit number and narrowed to the width.
    Int(IntWidth),
    /// A double.
    Float,
    /// A string.
    Text,
    /// A boolean.
    Bool,
}

/// The structure of a value: a finite tree.
#[derive(Debug, PartialEq, Eq)]
pub enum Shape {
    /// A scalar.
    Primitive(PrimitiveKind),
    /// A value that may be absent.
    Optional(Box<Shape>),
    /// A variable-length collection.
    Sequence(Box<Shape>),
    /// A singly owned value; it is sampled exactly as the shape inside.
    Indirect(Box<Shape>),
    /// An aggregate of named fields, in declaration order.
    Record(Vec<Field>),
    /// A tagged union of named variants, in declaration order.
    Union(Vec<Variant>),
}

/// One named field of a record or of a variant.
#[derive(Debug, PartialEq, Eq)]
pub struct Field {
    pub name: String,
    pub shape: Shape,
}

/// One named alternative of a union.
#[derive(Debug, PartialEq, Eq)]
pub struct Variant {
    pub name: String,
    pub payload: VariantShape,
}

/// What a variant carries.
#[derive(Debug, PartialEq, Eq)]
pub enum VariantShape {
    /// Nothing.
    NoPayload,
    /// Unnamed fields, in declaration order.
    PositionalFields(Vec<Shape>),
    /// Named fields, in declaration order.
    NamedFields(Vec<Field>),
}

/// Whether no two fields share a name.
pub open spec fn distinct_field_names(fields: Seq<Field>) -> bool {
    forall|i: int, j: int|
        0 <= i < j < fields.len() ==> (#[trigger] fields[i]).name@ != (#[trigger] fields[j]).name@
}

/// Whether no two variants share a name.
pub open spec fn distinct_variant_names(variants: Seq<Variant>) -> bool {
    forall|i: int, j: int|
        0 <= i < j < variants.len() ==> (#[trigger] variants[i]).name@ != (
        #[trigger] variants[j]).name@
}

/// Whether the shape is well formed: in each of its records and in each of
/// its unions, the names are unique.
pub open spec fn well_formed(shape: Shape) -> bool
    decreases shape, 0nat,
{
    match shape {
        Shape::Primitive(_) => true,
        Shape::Optional(inner) => well_formed(*inner),
        Shape::Sequence(inner) => well_formed(*inner),
        Shape::Indirect(inner) => well_formed(*inner),
        Shape::Record(fields) => fields_well_formed(fields@),
        Shape::Union(variants) => variants_well_formed(variants@),
    }
}

/// Whether the fields have unique names and well-formed shapes.
pub open spec fn fields_well_formed(fields: Seq<Field>) -> bool
    decreases fields, 0nat,
{
    &&& distinct_field_names(fields)
    &&& forall|i: int| 0 <= i < fields.len() ==> well_formed((#[trigger] fields[i]).shape)
}

/// Whether the shapes are well formed.
pub open spec fn shapes_well_formed(shapes: Seq<Shape>) -> bool
    decreases shapes, 0nat,
{
    forall|i: int| 0 <= i < shapes.len() ==> well_formed(#[trigger] shapes[i])
}

/// Whether the variants have unique names, and what they carry is well
/// formed.
pub open spec fn variants_well_formed(variants: Seq<Variant>) -> bool
    decreases variants, 0nat,
{
    &&& distinct_variant_names(variants)
    &&& forall|i: int|
        0 <= i < variants.len() ==> payload_well_formed((#[trigger] variants[i]).payload)
}

/// Whether what a variant carries is well formed.
pub open spec fn payload_well_formed(payload: VariantShape) -> bool
    decreases payload, 0nat,
{
    match payload {
        VariantShape::NoPayload => true,
        VariantShape::PositionalFields(shapes) => shapes_well_formed(shapes@),
        VariantShape::NamedFields(fields) => fields_well_formed(fields@),
    }
}

/// Whether no two fields share a name.
pub fn has_distinct_field_names(fields: &Vec<Field>) -> (r: bool)
    ensures
        r == distinct_field_names(fields@),
{
    let mut j: usize = 0;
    while j < fields.len()
        invariant
            j <= fields.len(),
            forall|a: int, b: int|
                0 <= a < b < j ==> (#[trigger] fields@[a]).name@ != (#[trigger] fields@[b]).name@,
        decreases fields.len() - j,
    {
        let mut i: usize = 0;
        while i < j
            invariant
                i <= j < fields.len(),
                forall|a: int|
                    0 <= a < i ==> (#[trigger] fields@[a]).name@ != fields@[j as int].name@,
            decreases j - i,
        {
            if fields[i].name == fields[j].name {
                return false;
            }
            i += 1;
        }
        j += 1;
    }
    true
}

/// Whether no two variants share a name.
pub fn has_distinct_variant_names(variants: &Vec<Variant>) -> (r: bool)
    ensures
        r == distinct_variant_names(variants@),
{
    let mut j: usize = 0;
    while j < variants.len()
        invariant
            j <= variants.len(),
            forall|a: int, b: int|
                0 <= a < b < j ==> (#[trigger] variants@[a]).name@ != (
                #[trigger] variants@[b]).name@,
        decreases variants.len() - j,
    {
        let mut i: usize = 0;
        while i < j
            invariant
                i <= j < variants.len(),
                forall|a: int|
                    0 <= a < i ==> (#[trigger] variants@[a]).name@ != variants@[j as int].name@,
            decreases j - i,
        {
            if variants[i].name == variants[j].name {
                return false;
            }
            i += 1;
        }
        j += 1;
    }
    true
}

/// Whether the shape is well formed.
pub fn is_well_formed(shape: &Shape) -> (r: bool)
    ensures
        r == well_formed(*shape),
    decreases shape, 0nat,
{
    match shape {
        Shape::Primitive(_) => true,
        Shape::Optional(inner) => is_well_formed(inner),
        Shape::Sequence(inner) => is_well_formed(inner),
        Shape::Indirect(inner) => is_well_formed(inner),
        Shape::Record(fields) => are_fields_well_formed(fields),
        Shape::Union(variants) => are_variants_well_formed(variants),
    }
}

/// Whether the variants have unique names, and what they carry is well
/// formed.
pub fn are_variants_well_formed(variants: &Vec<Variant>) -> (r: bool)
    ensures
        r == variants_well_formed(variants@),
    decreases variants, 0nat,
{
    if !has_distinct_variant_names(variants) {
        return false;
    }
    let mut i: usize = 0;
    while i < variants.len()
        invariant
            i <= variants.len(),
            forall|k: int| 0 <= k < i ==> payload_well_formed((#[trigger] variants@[k]).payload),
        decreases variants.len() - i,
    {
        proof {
            assert(decreases_to!(*variants => variants@[i as int].payload));
        }
        if !is_payload_well_formed(&variants[i].payload) {
            return false;
        }
        i += 1;
    }
    true
}

/// Whether what a variant carries is well formed.
pub fn is_payload_well_formed(payload: &VariantShape) -> (r: bool)
    ensures
        r == payload_well_formed(*payload),
    decreases payload, 0nat,
{
    match payload {
        VariantShape::NoPayload => true,
        VariantShape::PositionalFields(shapes) => are_shapes_well_formed(shapes),
        VariantShape::NamedFields(fields) => are_fields_well_formed(fields),
    }
}

/// Whether the fields have unique names and well-formed shapes.
pub fn are_fields_well_formed(fields: &Vec<Field>) -> (r: bool)
    ensures
        r == fields_well_formed(fields@),
    decreases fields, 0nat,
{
    if !has_distinct_field_names(fields) {
        return false;
    }
    let mut i: usize = 0;
    while i < fields.len()
        invariant
            i <= fields.len(),
            forall|k: int| 0 <= k < i ==> well_formed((#[trigger] fields@[k]).shape),
        decreases fields.len() - i,
    {
        proof {
            assert(decreases_to!(*fields => fields@[i as int].shape));
        }
        if !is_well_formed(&fields[i].shape) {
            return false;
        }
        i += 1;
    }
    true
}

/// Whether the shapes are well formed.
pub fn are_shapes_well_formed(shapes: &Vec<Shape>) -> (r: bool)
    ensures
        r == shapes_well_formed(shapes@),
    decreases shapes, 0nat,
{
    let mut i: usize = 0;
    while i < shapes.len()
        invariant
            i <= shapes.len(),
            forall|k: int| 0 <= k < i ==> well_formed(#[trigger] shapes@[k]),
        decreases shapes.len() - i,
    {
        proof {
            assert(decreases_to!(*shapes => shapes@[i as int]));
        }
        if !is_well_formed(&shapes[i]) {
            return false;
        }
        i += 1;
    }
    true
}

} // verus!
