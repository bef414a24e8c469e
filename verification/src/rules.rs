//! What sampling may return: for each shape and configuration node, the
//! values that are admitted and the failures that are possible.
//!
//! Sampling is random, so its results are stated as relations. A successful
//! result is a value that [`admits`] holds of; a failed one is an error that
//! [`fails`] holds of. Where `fails` holds of no error, sampling succeeds.
//!
//! Doubles are drawn by a source that the caller gives. The relations take
//! what that source may answer as `source`: `source(low, high, drawn)` says
//! that `drawn` is a possible answer to the request for a double of
//! `[low, high)`, all three given as bit patterns. A sampled double is such an
//! answer; a failure at a range of doubles that is in order is there only if
//! the source may answer outside the interval.

use crate::config::{entries_of, lookup, ConfigNode, Entry};
use crate::error::{SampleError, SampleErrorKind};
use crate::keys::positional_name;
use crate::number::{float_less, float_within, narrowed};
use crate::shape::{Field, IntWidth, PrimitiveKind, Shape, Variant, VariantShape};
use crate::value::{FieldValue, Payload, Value};
use vstd::prelude::*;

verus! {

/// The two items of the node, where it is an array of exactly two.
pub open spec fn bounds(node: Option<ConfigNode>) -> Option<(ConfigNode, ConfigNode)> {
    match node {
        Some(ConfigNode::Array(items)) => if items@.len() == 2 {
            Some((items@[0], items@[1]))
        } else {
            None
        },
        _ => None,
    }
}

/// The integer range `[low, high)` that the node configures: two integers
/// with `low < high`.
pub open spec fn int_range(node: Option<ConfigNode>) -> Option<(i64, i64)> {
    match bounds(node) {
        Some((low, high)) => match (low.integer(), high.integer()) {
            (Some(l), Some(h)) => if l < h {
                Some((l, h))
            } else {
                None
            },
            _ => None,
        },
        None => None,
    }
}

/// The range `[low, high)` of doubles that the node configures, as bit
/// patterns: two finite doubles with `low < high`.
pub open spec fn float_range(node: Option<ConfigNode>) -> Option<(u64, u64)> {
    match bounds(node) {
        Some((low, high)) => match (low.float_bits(), high.float_bits()) {
            (Some(l), Some(h)) => if float_less(l, h) {
                Some((l, h))
            } else {
                None
            },
            _ => None,
        },
        None => None,
    }
}

/// Whether the value is the string with the given characters.
pub open spec fn is_text(v: Value, chars: Seq<char>) -> bool {
    v matches Value::Text(s) && s@ == chars
}

/// Whether some item of the array is the string with the given characters.
pub open spec fn offers_text(items: Seq<ConfigNode>, chars: Seq<char>) -> bool {
    exists|i: int| 0 <= i < items.len() && (#[trigger] items[i]).text() == Some(chars)
}

/// Whether no item of the array is a string.
pub open spec fn offers_no_text(items: Seq<ConfigNode>) -> bool {
    forall|i: int| 0 <= i < items.len() ==> (#[trigger] items[i]).text() is None
}

/// Whether `v` is an integer that the node configures: the node is a range
/// `[low, high)`, and `v` is some integer of the range, narrowed to the width.
pub open spec fn integer_admits(width: IntWidth, node: Option<ConfigNode>, v: Value) -> bool {
    &&& int_range(node) matches Some((low, high))
    &&& exists|drawn: i64| low <= drawn < high && v == Value::Int(#[trigger] narrowed(drawn, width))
}

/// Whether `e` is the failure of a numeric range that is not there or is no
/// array of exactly two items: a `MissingConfig` or a `WrongShape`.
pub open spec fn range_is_malformed(
    node: Option<ConfigNode>,
    name: Seq<char>,
    e: SampleError,
) -> bool {
    match node {
        None => e.reports(SampleErrorKind::MissingConfig, name),
        Some(ConfigNode::Array(items)) => items@.len() != 2 && e.reports(
            SampleErrorKind::WrongShape,
            name,
        ),
        Some(_) => e.reports(SampleErrorKind::WrongShape, name),
    }
}

/// Whether `e` is the failure of an integer under the node: that of a
/// malformed range, or an `InvalidRangeValues` where the two items bound no
/// interval of integers.
pub open spec fn integer_fails(node: Option<ConfigNode>, name: Seq<char>, e: SampleError) -> bool {
    ||| range_is_malformed(node, name, e)
    ||| bounds(node) is Some && int_range(node) is None && e.reports(
        SampleErrorKind::InvalidRangeValues,
        name,
    )
}

/// Whether the source may answer the request for a double of `[low, high)`
/// with one outside the interval.
pub open spec fn may_stray(source: spec_fn(u64, u64, u64) -> bool, low: u64, high: u64) -> bool {
    exists|drawn: u64| #[trigger] source(low, high, drawn) && !float_within(low, drawn, high)
}

/// Whether the source answers every request for a double of an interval
/// `[low, high)` with a double of the interval.
pub open spec fn keeps_to_interval(source: spec_fn(u64, u64, u64) -> bool) -> bool {
    forall|low: u64, high: u64, drawn: u64|
        float_less(low, high) && #[trigger] source(low, high, drawn) ==> float_within(
            low,
            drawn,
            high,
        )
}

/// Whether `v` is a double that the node configures: the node is a range
/// `[low, high)`, and `v` is an answer of the source to the request for a
/// double of that range, and lies in it.
pub open spec fn double_admits(
    node: Option<ConfigNode>,
    source: spec_fn(u64, u64, u64) -> bool,
    v: Value,
) -> bool {
    &&& float_range(node) matches Some((low, high))
    &&& v matches Value::Float(x)
    &&& source(low, high, x)
    &&& float_within(low, x, high)
}

/// Whether `e` is the failure of a double under the node: that of a malformed
/// range, or an `InvalidRangeValues` where the two items bound no interval of
/// doubles, or where they do and the source may answer the request for a
/// double of that interval with one outside it.
pub open spec fn double_fails(
    node: Option<ConfigNode>,
    name: Seq<char>,
    source: spec_fn(u64, u64, u64) -> bool,
    e: SampleError,
) -> bool {
    ||| range_is_malformed(node, name, e)
    ||| {
        &&& bounds(node) is Some
        &&& e.reports(SampleErrorKind::InvalidRangeValues, name)
        &&& float_range(node) matches Some((low, high)) ==> may_stray(source, low, high)
    }
}

/// Whether `v` is a string that the node configures: the node is an array and
/// `v` one of its strings, or the node is a string and `v` is that string.
pub open spec fn text_admits(node: Option<ConfigNode>, v: Value) -> bool {
    match node {
        Some(ConfigNode::Array(items)) => v matches Value::Text(s) && offers_text(items@, s@),
        Some(ConfigNode::Text(literal)) => is_text(v, literal@),
        _ => false,
    }
}

/// Whether `e` is the failure of a string under the node: a `MissingConfig` if
/// the node is absent, an `EmptyDomain` if it is an array without a string, a
/// `WrongShape` if it is neither an array nor a string.
pub open spec fn text_fails(node: Option<ConfigNode>, name: Seq<char>, e: SampleError) -> bool {
    match node {
        None => e.reports(SampleErrorKind::MissingConfig, name),
        Some(ConfigNode::Array(items)) => offers_no_text(items@) && e.reports(
            SampleErrorKind::EmptyDomain,
            name,
        ),
        Some(ConfigNode::Text(_)) => false,
        Some(_) => e.reports(SampleErrorKind::WrongShape, name),
    }
}

/// Whether `v` is the boolean that the node is.
pub open spec fn bool_admits(node: Option<ConfigNode>, v: Value) -> bool {
    node matches Some(ConfigNode::Bool(b)) && v == Value::Bool(b)
}

/// Whether `e` is the failure of a boolean under the node: a `MissingConfig`
/// if the node is absent, a `WrongShape` if it is no boolean.
pub open spec fn bool_fails(node: Option<ConfigNode>, name: Seq<char>, e: SampleError) -> bool {
    match node {
        None => e.reports(SampleErrorKind::MissingConfig, name),
        Some(ConfigNode::Bool(_)) => false,
        Some(_) => e.reports(SampleErrorKind::WrongShape, name),
    }
}

/// Whether `v` is a value that a scalar of the kind may take under the node,
/// where `source` says what the source of doubles may answer.
pub open spec fn primitive_admits(
    kind: PrimitiveKind,
    node: Option<ConfigNode>,
    source: spec_fn(u64, u64, u64) -> bool,
    v: Value,
) -> bool {
    match kind {
        PrimitiveKind::Int(width) => integer_admits(width, node, v),
        PrimitiveKind::Float => double_admits(node, source, v),
        PrimitiveKind::Text => text_admits(node, v),
        PrimitiveKind::Bool => bool_admits(node, v),
    }
}

/// Whether `e` is a failure that a scalar of the kind may meet under the node,
/// where `source` says what the source of doubles may answer.
pub open spec fn primitive_fails(
    kind: PrimitiveKind,
    node: Option<ConfigNode>,
    name: Seq<char>,
    source: spec_fn(u64, u64, u64) -> bool,
    e: SampleError,
) -> bool {
    match kind {
        PrimitiveKind::Int(_) => integer_fails(node, name, e),
        PrimitiveKind::Float => double_fails(node, name, source, e),
        PrimitiveKind::Text => text_fails(node, name, e),
        PrimitiveKind::Bool => bool_fails(node, name, e),
    }
}

/// Whether the node can be read as a scalar of the kind.
pub open spec fn parses(kind: PrimitiveKind, node: ConfigNode) -> bool {
    match kind {
        PrimitiveKind::Int(_) => node.integer() is Some,
        PrimitiveKind::Float => node.float_bits() is Some,
        PrimitiveKind::Text => node is Text,
        PrimitiveKind::Bool => node is Bool,
    }
}

/// Whether `v` is the scalar of the kind that the node holds; an integer is
/// narrowed to the width.
pub open spec fn reads_as(kind: PrimitiveKind, node: ConfigNode, v: Value) -> bool {
    match kind {
        PrimitiveKind::Int(width) => node.integer() matches Some(n) && v == Value::Int(
            narrowed(n, width),
        ),
        PrimitiveKind::Float => node.float_bits() matches Some(x) && v == Value::Float(x),
        PrimitiveKind::Text => node matches ConfigNode::Text(s) && is_text(v, s@),
        PrimitiveKind::Bool => node matches ConfigNode::Bool(b) && v == Value::Bool(b),
    }
}

/// The size of the candidate pool: how many items can be read as a scalar of
/// the kind.
pub open spec fn pool_size(kind: PrimitiveKind, items: Seq<ConfigNode>) -> nat
    decreases items.len(),
{
    if items.len() == 0 {
        0
    } else {
        pool_size(kind, items.drop_last()) + if parses(kind, items.last()) {
            1nat
        } else {
            0nat
        }
    }
}

/// Whether `at` gives, for each value, a position of the array whose item
/// reads as that value, and gives no position twice.
pub open spec fn picks(
    kind: PrimitiveKind,
    items: Seq<ConfigNode>,
    at: Seq<int>,
    values: Seq<Value>,
) -> bool {
    &&& at.len() == values.len()
    &&& forall|j: int|
        0 <= j < values.len() ==> 0 <= #[trigger] at[j] < items.len() && reads_as(
            kind,
            items[at[j]],
            values[j],
        )
    &&& forall|j: int, k: int| 0 <= j < k < values.len() ==> #[trigger] at[j] != #[trigger] at[k]
}

/// Whether the values are a draw from the candidate pool of the array: at
/// least one and at most as many as the pool holds, each read from an item
/// of the pool, and no item taken twice.
pub open spec fn drawn_from_pool(
    kind: PrimitiveKind,
    items: Seq<ConfigNode>,
    values: Seq<Value>,
) -> bool {
    &&& 1 <= values.len() <= pool_size(kind, items)
    &&& exists|at: Seq<int>| picks(kind, items, at, values)
}

/// The key of the object of a union that names the variants to select from.
pub open spec fn variants_key() -> Seq<char> {
    "variants"@
}

/// The key of the object of a union that holds, by variant name, the objects
/// from which the fields of the variants are drawn.
pub open spec fn variant_data_key() -> Seq<char> {
    "variant_data"@
}

/// The names that the object of a union gives to select from: the items of
/// the array under `"variants"`, where that is a non-empty array of strings.
pub open spec fn named_candidates(entries: Seq<Entry>) -> Option<Seq<ConfigNode>> {
    match lookup(entries, variants_key()) {
        Some(ConfigNode::Array(items)) => if items@.len() > 0 && forall|i: int|
            0 <= i < items@.len() ==> (#[trigger] items@[i]) is Text {
            Some(items@)
        } else {
            None
        },
        _ => None,
    }
}

/// Whether the name is in the candidate set: among the names given under
/// `"variants"`, or, where none are given, among the declared variants.
pub open spec fn is_candidate(
    variants: Seq<Variant>,
    entries: Seq<Entry>,
    name: Seq<char>,
) -> bool {
    match named_candidates(entries) {
        Some(items) => offers_text(items, name),
        None => exists|i: int| 0 <= i < variants.len() && (#[trigger] variants[i]).name@ == name,
    }
}

/// Whether the candidate set is empty.
pub open spec fn no_candidates(variants: Seq<Variant>, entries: Seq<Entry>) -> bool {
    named_candidates(entries) is None && variants.len() == 0
}

/// The position of the first declared variant at or after `start` with the
/// given name.
pub open spec fn declared_from(variants: Seq<Variant>, name: Seq<char>, start: int) -> Option<int>
    decreases variants.len() - start,
{
    if start < 0 || start >= variants.len() {
        None
    } else if variants[start].name@ == name {
        Some(start)
    } else {
        declared_from(variants, name, start + 1)
    }
}

/// The position of the declared variant with the given name.
pub open spec fn declared(variants: Seq<Variant>, name: Seq<char>) -> Option<int> {
    declared_from(variants, name, 0)
}

/// The node from which the fields of the named variant are drawn: what the
/// object under `"variant_data"` holds under the variant's name.
pub open spec fn payload_scope(entries: Seq<Entry>, name: Seq<char>) -> Option<ConfigNode> {
    match lookup(entries, variant_data_key()) {
        Some(ConfigNode::Object(data)) => lookup(data@, name),
        _ => None,
    }
}

/// Whether `v` is a value that sampling the shape may return, where `node` is
/// what the enclosing scope holds under the key of the value.
///
/// - A scalar: see [`primitive_admits`].
/// - An optional: absent if the node is absent or null, else present with a
///   value that the inner shape admits under the same node.
/// - A sequence: empty if the node is absent. Of scalars, a draw from the
///   candidate pool of the array. Of anything else, one value for each item of
///   the array, each item an object under which the inner shape admits it.
/// - An indirection: a value that the inner shape admits under the same node.
/// - A record: the node is an object, and each field has a value that its
///   shape admits under what the object holds under the field's name.
/// - A union: the node is an object, the selected name is a candidate and a
///   declared variant, and the payload is one that the variant admits.
pub open spec fn admits(
    shape: Shape,
    node: Option<ConfigNode>,
    source: spec_fn(u64, u64, u64) -> bool,
    v: Value,
) -> bool
    decreases shape, 0nat,
{
    match shape {
        Shape::Primitive(kind) => primitive_admits(kind, node, source, v),
        Shape::Optional(inner) => match v {
            Value::Optional(None) => node is None || node == Some(ConfigNode::Null),
            Value::Optional(Some(present)) => {
                &&& node is Some
                &&& node != Some(ConfigNode::Null)
                &&& admits(*inner, node, source, *present)
            },
            _ => false,
        },
        Shape::Sequence(inner) => {
            &&& v matches Value::Sequence(values)
            &&& match node {
                None => values@.len() == 0,
                Some(ConfigNode::Array(items)) => match *inner {
                    Shape::Primitive(kind) => drawn_from_pool(kind, items@, values@),
                    _ => elements_admit(*inner, items@, source, values@),
                },
                Some(_) => false,
            }
        },
        Shape::Indirect(inner) => v matches Value::Indirect(owned) && admits(
            *inner,
            node,
            source,
            *owned,
        ),
        Shape::Record(fields) => {
            &&& v matches Value::Record(values)
            &&& entries_of(node) matches Some(entries)
            &&& fields_admit(fields@, entries, source, values@)
        },
        Shape::Union(variants) => {
            &&& v matches Value::Union(selected, carried)
            &&& entries_of(node) matches Some(entries)
            &&& is_candidate(variants@, entries, selected@)
            &&& declared(variants@, selected@) matches Some(d)
            &&& 0 <= d < variants@.len()
            &&& payload_admits(
                variants@[d].payload,
                payload_scope(entries, selected@),
                source,
                carried,
            )
        },
    }
}

/// Whether the values are, item by item, values that the shape admits under
/// the items of the array, each of which is an object.
pub open spec fn elements_admit(
    inner: Shape,
    items: Seq<ConfigNode>,
    source: spec_fn(u64, u64, u64) -> bool,
    values: Seq<Value>,
) -> bool
    decreases inner, 1nat,
{
    &&& values.len() == items.len()
    &&& forall|i: int|
        0 <= i < items.len() ==> (#[trigger] items[i]) is Object && admits(
            inner,
            Some(items[i]),
            source,
            values[i],
        )
}

/// Whether the values are, field by field and under the fields' names, values
/// that the fields' shapes admit under what the scope holds under those names.
pub open spec fn fields_admit(
    fields: Seq<Field>,
    entries: Seq<Entry>,
    source: spec_fn(u64, u64, u64) -> bool,
    values: Seq<FieldValue>,
) -> bool
    decreases fields, 0nat,
{
    &&& values.len() == fields.len()
    &&& forall|i: int|
        0 <= i < fields.len() ==> (#[trigger] values[i]).name@ == fields[i].name@ && admits(
            fields[i].shape,
            lookup(entries, fields[i].name@),
            source,
            values[i].value,
        )
}

/// Whether the values are, position by position, values that the shapes admit
/// under what the scope holds under the keys `field0`, `field1`, and so on.
pub open spec fn positions_admit(
    shapes: Seq<Shape>,
    entries: Seq<Entry>,
    source: spec_fn(u64, u64, u64) -> bool,
    values: Seq<Value>,
) -> bool
    decreases shapes, 0nat,
{
    &&& values.len() == shapes.len()
    &&& forall|i: int|
        0 <= i < shapes.len() ==> admits(
            shapes[i],
            lookup(entries, positional_name(i as nat)),
            source,
            #[trigger] values[i],
        )
}

/// Whether `carried` is a payload that the variant admits, where `scope` is
/// the node from which its fields are drawn. A variant without fields needs
/// no scope; one with fields needs an object.
pub open spec fn payload_admits(
    payload: VariantShape,
    scope: Option<ConfigNode>,
    source: spec_fn(u64, u64, u64) -> bool,
    carried: Payload,
) -> bool
    decreases payload, 0nat,
{
    match payload {
        VariantShape::NoPayload => carried is NoPayload,
        VariantShape::PositionalFields(shapes) => {
            &&& carried matches Payload::PositionalFields(values)
            &&& if shapes@.len() == 0 {
                values@.len() == 0
            } else {
                entries_of(scope) matches Some(entries) && positions_admit(
                    shapes@,
                    entries,
                    source,
                    values@,
                )
            }
        },
        VariantShape::NamedFields(fields) => {
            &&& carried matches Payload::NamedFields(values)
            &&& if fields@.len() == 0 {
                values@.len() == 0
            } else {
                entries_of(scope) matches Some(entries) && fields_admit(
                    fields@,
                    entries,
                    source,
                    values@,
                )
            }
        },
    }
}

/// Whether sampling the shape may succeed.
pub open spec fn can_succeed(
    shape: Shape,
    node: Option<ConfigNode>,
    source: spec_fn(u64, u64, u64) -> bool,
) -> bool {
    exists|v: Value| admits(shape, node, source, v)
}

/// Whether `e` is a failure that sampling the shape may return, where `node`
/// is what the enclosing scope holds under the key `name`.
///
/// - A scalar: see [`primitive_fails`].
/// - An optional: none if the node is absent or null, else a failure of the
///   inner shape.
/// - A sequence: none if the node is absent; a `WrongShape` if the node is no
///   array. Of scalars, an `EmptyDomain` if the candidate pool is empty. Of
///   anything else, what the first failing item gives: a `WrongShape` if it is
///   no object, else a failure of the inner shape under it.
/// - An indirection: a failure of the inner shape.
/// - A record: a `MissingConfig` if the node is absent, a `WrongShape` if it
///   is no object, else a failure of the first field that fails.
/// - A union: a `MissingConfig` if the node is absent, a `WrongShape` if it is
///   no object, a `NoVariantsAvailable` if the candidate set is empty, else
///   what some candidate gives when selected: see [`selected_fails`].
pub open spec fn fails(
    shape: Shape,
    node: Option<ConfigNode>,
    name: Seq<char>,
    source: spec_fn(u64, u64, u64) -> bool,
    e: SampleError,
) -> bool
    decreases shape, 0nat,
{
    match shape {
        Shape::Primitive(kind) => primitive_fails(kind, node, name, source, e),
        Shape::Optional(inner) => {
            &&& node is Some
            &&& node != Some(ConfigNode::Null)
            &&& fails(*inner, node, name, source, e)
        },
        Shape::Sequence(inner) => match node {
            None => false,
            Some(ConfigNode::Array(items)) => match *inner {
                Shape::Primitive(kind) => pool_size(kind, items@) == 0 && e.reports(
                    SampleErrorKind::EmptyDomain,
                    name,
                ),
                _ => elements_fail(*inner, items@, name, source, e),
            },
            Some(_) => e.reports(SampleErrorKind::WrongShape, name),
        },
        Shape::Indirect(inner) => fails(*inner, node, name, source, e),
        Shape::Record(fields) => match node {
            None => e.reports(SampleErrorKind::MissingConfig, name),
            Some(ConfigNode::Object(entries)) => fields_fail(fields@, entries@, source, e),
            Some(_) => e.reports(SampleErrorKind::WrongShape, name),
        },
        Shape::Union(variants) => match node {
            None => e.reports(SampleErrorKind::MissingConfig, name),
            Some(ConfigNode::Object(entries)) => if no_candidates(variants@, entries@) {
                e.reports(SampleErrorKind::NoVariantsAvailable, name)
            } else {
                exists|selected: Seq<char>|
                    #[trigger] is_candidate(variants@, entries@, selected) && selected_fails(
                        variants@,
                        entries@,
                        selected,
                        source,
                        e,
                    )
            },
            Some(_) => e.reports(SampleErrorKind::WrongShape, name),
        },
    }
}

/// Whether `e` is what the first failing item of the array gives: every item
/// before it is an object under which the shape may succeed, and the item is
/// no object, which is a `WrongShape`, or `e` is a failure of the shape under
/// it.
pub open spec fn elements_fail(
    inner: Shape,
    items: Seq<ConfigNode>,
    name: Seq<char>,
    source: spec_fn(u64, u64, u64) -> bool,
    e: SampleError,
) -> bool
    decreases inner, 1nat,
{
    exists|i: int|
        {
            &&& 0 <= i < items.len()
            &&& forall|j: int|
                0 <= j < i ==> (#[trigger] items[j]) is Object && can_succeed(
                    inner,
                    Some(items[j]),
                    source,
                )
            &&& if (#[trigger] items[i]) is Object {
                fails(inner, Some(items[i]), name, source, e)
            } else {
                e.reports(SampleErrorKind::WrongShape, name)
            }
        }
}

/// Whether `e` is a failure that the union may return once the name is
/// selected: an `UnknownVariant` if no declared variant has the name, else a
/// failure of the payload of the variant that has it.
pub open spec fn selected_fails(
    variants: Seq<Variant>,
    entries: Seq<Entry>,
    selected: Seq<char>,
    source: spec_fn(u64, u64, u64) -> bool,
    e: SampleError,
) -> bool
    decreases variants, 0nat,
{
    match declared(variants, selected) {
        None => e.reports(SampleErrorKind::UnknownVariant, selected),
        Some(d) => 0 <= d < variants.len() && payload_fails(
            variants[d].payload,
            payload_scope(entries, selected),
            selected,
            source,
            e,
        ),
    }
}

/// Whether `e` is the failure of the first field that fails: every field
/// before it may succeed, and `e` is a failure of its shape.
pub open spec fn fields_fail(
    fields: Seq<Field>,
    entries: Seq<Entry>,
    source: spec_fn(u64, u64, u64) -> bool,
    e: SampleError,
) -> bool
    decreases fields, 0nat,
{
    exists|i: int|
        {
            &&& 0 <= i < fields.len()
            &&& forall|j: int|
                0 <= j < i ==> can_succeed(
                    (#[trigger] fields[j]).shape,
                    lookup(entries, fields[j].name@),
                    source,
                )
            &&& fails(
                (#[trigger] fields[i]).shape,
                lookup(entries, fields[i].name@),
                fields[i].name@,
                source,
                e,
            )
        }
}

/// Whether `e` is the failure of the first position that fails: every position
/// before it may succeed, and `e` is a failure of its shape.
pub open spec fn positions_fail(
    shapes: Seq<Shape>,
    entries: Seq<Entry>,
    source: spec_fn(u64, u64, u64) -> bool,
    e: SampleError,
) -> bool
    decreases shapes, 0nat,
{
    exists|i: int|
        {
            &&& 0 <= i < shapes.len()
            &&& forall|j: int|
                0 <= j < i ==> can_succeed(
                    #[trigger] shapes[j],
                    lookup(entries, positional_name(j as nat)),
                    source,
                )
            &&& fails(
                #[trigger] shapes[i],
                lookup(entries, positional_name(i as nat)),
                positional_name(i as nat),
                source,
                e,
            )
        }
}

/// Whether `e` is a failure that the payload of the named variant may meet,
/// where `scope` is the node from which its fields are drawn: a
/// `MissingOrInvalidVariantConfig` if the variant has fields and the scope is
/// no object, else the failure of the first field that fails.
pub open spec fn payload_fails(
    payload: VariantShape,
    scope: Option<ConfigNode>,
    selected: Seq<char>,
    source: spec_fn(u64, u64, u64) -> bool,
    e: SampleError,
) -> bool
    decreases payload, 0nat,
{
    match payload {
        VariantShape::NoPayload => false,
        VariantShape::PositionalFields(shapes) => shapes@.len() > 0 && match entries_of(scope) {
            Some(entries) => positions_fail(shapes@, entries, source, e),
            None => e.reports(SampleErrorKind::MissingOrInvalidVariantConfig, selected),
        },
        VariantShape::NamedFields(fields) => fields@.len() > 0 && match entries_of(scope) {
            Some(entries) => fields_fail(fields@, entries, source, e),
            None => e.reports(SampleErrorKind::MissingOrInvalidVariantConfig, selected),
        },
    }
}

/// Whether sampling the shape cannot fail.
pub open spec fn never_fails(
    shape: Shape,
    node: Option<ConfigNode>,
    name: Seq<char>,
    source: spec_fn(u64, u64, u64) -> bool,
) -> bool {
    forall|e: SampleError| !fails(shape, node, name, source, e)
}

/// Whether the result is one that sampling the shape may return.
pub open spec fn is_outcome(
    shape: Shape,
    node: Option<ConfigNode>,
    name: Seq<char>,
    source: spec_fn(u64, u64, u64) -> bool,
    result: Result<Value, SampleError>,
) -> bool {
    match result {
        Ok(v) => admits(shape, node, source, v),
        Err(e) => fails(shape, node, name, source, e),
    }
}

} // verus!
