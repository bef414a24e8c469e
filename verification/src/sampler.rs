//! The sampler: one recursive walk over a shape and the configuration that
//! mirrors it.

use crate::config::{find, held, lookup, ConfigNode, Entry};
use crate::draw::pick_one;
use crate::error::{SampleError, SampleErrorKind};
use crate::keys::{positional_key, positional_name};
use crate::pool::sample_scalars;
use crate::rules::{
    admits, can_succeed, declared, declared_from, elements_admit, elements_fail, fields_admit,
    fields_fail, is_candidate, is_outcome, named_candidates, offers_text, payload_admits,
    payload_fails, payload_scope, positions_admit, positions_fail, selected_fails,
};
use crate::scalar::{answers, draws_doubles, sample_primitive};
use crate::shape::{Field, Shape, Variant, VariantShape};
use crate::value::{FieldValue, Payload, Value};
use vstd::prelude::*;

verus! {

/// Whether every item is a string.
fn all_text(items: &Vec<ConfigNode>) -> (r: bool)
    ensures
        r == forall|i: int| 0 <= i < items@.len() ==> (#[trigger] items@[i]) is Text,
{
    let mut i: usize = 0;
    while i < items.len()
        invariant
            i <= items.len(),
            forall|k: int| 0 <= k < i ==> (#[trigger] items@[k]) is Text,
        decreases items.len() - i,
    {
        match &items[i] {
            ConfigNode::Text(_) => {},
            _ => {
                return false;
            },
        }
        i += 1;
    }
    true
}

/// The names that the object of a union gives to select from, if it gives
/// any.
pub fn named_items<'a>(entries: &'a Vec<Entry>) -> (found: Option<&'a Vec<ConfigNode>>)
    ensures
        found matches Some(items) ==> named_candidates(entries@) == Some(items@),
        found is None ==> named_candidates(entries@) is None,
{
    let key = String::from_str("variants");
    match find(entries, &key) {
        Some(ConfigNode::Array(items)) => {
            if items.len() > 0 && all_text(items) {
                Some(items)
            } else {
                None
            }
        },
        _ => None,
    }
}

/// The position of the declared variant with the given name.
pub fn find_variant(variants: &Vec<Variant>, name: &String) -> (found: Option<usize>)
    ensures
        found matches Some(d) ==> d < variants@.len() && declared(variants@, name@) == Some(
            d as int,
        ),
        found is None ==> declared(variants@, name@) is None,
{
    let mut i: usize = 0;
    while i < variants.len()
        invariant
            i <= variants.len(),
            declared_from(variants@, name@, 0) == declared_from(variants@, name@, i as int),
        decreases variants.len() - i,
    {
        if variants[i].name == *name {
            return Some(i);
        }
        i += 1;
    }
    None
}

/// The node from which the fields of the named variant are drawn.
pub fn find_payload_scope<'a>(entries: &'a Vec<Entry>, selected: &String) -> (found: Option<
    &'a ConfigNode,
>)
    ensures
        held(found) == payload_scope(entries@, selected@),
{
    let key = String::from_str("variant_data");
    match find(entries, &key) {
        Some(ConfigNode::Object(data)) => find(data, selected),
        _ => None,
    }
}

/// Samples a value of the shape, where `node` is what the enclosing scope
/// holds under the key `name`, or `None` where it holds nothing. Doubles are
/// asked of `draw`, by the bit patterns of the bounds.
///
/// The result is a value that the shape admits under the node, or a failure
/// that it may meet there, both with what `draw` may answer: a sampled double
/// is an answer of `draw` to the request for its range, and a range of
/// doubles that is in order fails only where `draw` may answer outside it.
pub fn sample_field<D: Fn(u64, u64) -> u64>(
    shape: &Shape,
    node: Option<&ConfigNode>,
    name: &String,
    draw: &D,
) -> (result: Result<Value, SampleError>)
    requires
        draws_doubles(draw),
    ensures
        is_outcome(*shape, held(node), name@, answers(draw), result),
    decreases shape, 0nat,
{
    match shape {
        Shape::Primitive(kind) => sample_primitive(*kind, node, name, draw),
        Shape::Optional(inner) => match node {
            None => Ok(Value::Optional(None)),
            Some(ConfigNode::Null) => Ok(Value::Optional(None)),
            Some(_) => match sample_field(inner, node, name, draw) {
                Ok(present) => Ok(Value::Optional(Some(Box::new(present)))),
                Err(e) => Err(e),
            },
        },
        Shape::Sequence(inner) => match node {
            None => Ok(Value::Sequence(Vec::new())),
            Some(ConfigNode::Array(items)) => match &**inner {
                Shape::Primitive(kind) => match sample_scalars(*kind, items, name) {
                    Ok(values) => Ok(Value::Sequence(values)),
                    Err(e) => Err(e),
                },
                _ => match sample_elements(inner, items, name, draw) {
                    Ok(values) => Ok(Value::Sequence(values)),
                    Err(e) => Err(e),
                },
            },
            Some(_) => Err(SampleError::new(SampleErrorKind::WrongShape, name)),
        },
        Shape::Indirect(inner) => match sample_field(inner, node, name, draw) {
            Ok(owned) => Ok(Value::Indirect(Box::new(owned))),
            Err(e) => Err(e),
        },
        Shape::Record(fields) => match node {
            None => Err(SampleError::new(SampleErrorKind::MissingConfig, name)),
            Some(ConfigNode::Object(entries)) => match sample_fields(fields, entries, draw) {
                Ok(values) => Ok(Value::Record(values)),
                Err(e) => Err(e),
            },
            Some(_) => Err(SampleError::new(SampleErrorKind::WrongShape, name)),
        },
        Shape::Union(variants) => sample_union(variants, node, name, draw),
    }
}

/// Samples one value of the shape for each item of the array, in order; each
/// item must be an object. The first item that fails ends the sampling.
pub fn sample_elements<D: Fn(u64, u64) -> u64>(
    inner: &Shape,
    items: &Vec<ConfigNode>,
    name: &String,
    draw: &D,
) -> (result: Result<Vec<Value>, SampleError>)
    requires
        draws_doubles(draw),
    ensures
        result matches Ok(values) ==> elements_admit(*inner, items@, answers(draw), values@),
        result matches Err(e) ==> elements_fail(*inner, items@, name@, answers(draw), e),
    decreases inner, 1nat,
{
    let mut values: Vec<Value> = Vec::new();
    let mut i: usize = 0;
    while i < items.len()
        invariant
            draws_doubles(draw),
            i <= items.len(),
            values@.len() == i,
            forall|j: int|
                0 <= j < i ==> (#[trigger] items@[j]) is Object && admits(
                    *inner,
                    Some(items@[j]),
                    answers(draw),
                    values@[j],
                ),
        decreases items.len() - i,
    {
        proof {
            assert forall|j: int| 0 <= j < i implies (#[trigger] items@[j]) is Object
                && can_succeed(*inner, Some(items@[j]), answers(draw)) by {
                assert(admits(*inner, Some(items@[j]), answers(draw), values@[j]));
            }
        }
        match &items[i] {
            ConfigNode::Object(_) => match sample_field(inner, Some(&items[i]), name, draw) {
                Ok(v) => {
                    values.push(v);
                },
                Err(e) => {
                    assert(items@[i as int] is Object);
                    return Err(e);
                },
            },
            _ => {
                assert(!(items@[i as int] is Object));
                return Err(SampleError::new(SampleErrorKind::WrongShape, name));
            },
        }
        i += 1;
    }
    Ok(values)
}

/// Samples every field, in declaration order, each under what the scope holds
/// under the field's name. The first field that fails ends the sampling.
pub fn sample_fields<D: Fn(u64, u64) -> u64>(
    fields: &Vec<Field>,
    entries: &Vec<Entry>,
    draw: &D,
) -> (result: Result<Vec<FieldValue>, SampleError>)
    requires
        draws_doubles(draw),
    ensures
        result matches Ok(values) ==> fields_admit(fields@, entries@, answers(draw), values@),
        result matches Err(e) ==> fields_fail(fields@, entries@, answers(draw), e),
    decreases fields, 0nat,
{
    let mut values: Vec<FieldValue> = Vec::new();
    let mut i: usize = 0;
    while i < fields.len()
        invariant
            draws_doubles(draw),
            i <= fields.len(),
            values@.len() == i,
            forall|j: int|
                0 <= j < i ==> (#[trigger] values@[j]).name@ == fields@[j].name@ && admits(
                    fields@[j].shape,
                    lookup(entries@, fields@[j].name@),
                    answers(draw),
                    values@[j].value,
                ),
        decreases fields.len() - i,
    {
        proof {
            assert forall|j: int| 0 <= j < i implies can_succeed(
                (#[trigger] fields@[j]).shape,
                lookup(entries@, fields@[j].name@),
                answers(draw),
            ) by {
                assert(admits(
                    fields@[j].shape,
                    lookup(entries@, fields@[j].name@),
                    answers(draw),
                    values@[j].value,
                ));
            }
            assert(decreases_to!(*fields => fields@[i as int].shape));
        }
        let field = &fields[i];
        match sample_field(&field.shape, find(entries, &field.name), &field.name, draw) {
            Ok(value) => {
                values.push(FieldValue { name: field.name.clone(), value });
            },
            Err(e) => {
                return Err(e);
            },
        }
        i += 1;
    }
    Ok(values)
}

/// Samples every unnamed field, in declaration order, each under what the
/// scope holds under the key of its position. The first position that fails
/// ends the sampling.
pub fn sample_positions<D: Fn(u64, u64) -> u64>(
    shapes: &Vec<Shape>,
    entries: &Vec<Entry>,
    draw: &D,
) -> (result: Result<Vec<Value>, SampleError>)
    requires
        draws_doubles(draw),
    ensures
        result matches Ok(values) ==> positions_admit(shapes@, entries@, answers(draw), values@),
        result matches Err(e) ==> positions_fail(shapes@, entries@, answers(draw), e),
    decreases shapes, 0nat,
{
    let mut values: Vec<Value> = Vec::new();
    let mut i: usize = 0;
    while i < shapes.len()
        invariant
            draws_doubles(draw),
            i <= shapes.len(),
            values@.len() == i,
            forall|j: int|
                0 <= j < i ==> admits(
                    shapes@[j],
                    lookup(entries@, positional_name(j as nat)),
                    answers(draw),
                    #[trigger] values@[j],
                ),
        decreases shapes.len() - i,
    {
        proof {
            assert forall|j: int| 0 <= j < i implies can_succeed(
                #[trigger] shapes@[j],
                lookup(entries@, positional_name(j as nat)),
                answers(draw),
            ) by {
                assert(admits(
                    shapes@[j],
                    lookup(entries@, positional_name(j as nat)),
                    answers(draw),
                    values@[j],
                ));
            }
            assert(decreases_to!(*shapes => shapes@[i as int]));
        }
        let key = positional_key(i);
        match sample_field(&shapes[i], find(entries, &key), &key, draw) {
            Ok(value) => {
                values.push(value);
            },
            Err(e) => {
                return Err(e);
            },
        }
        i += 1;
    }
    Ok(values)
}

/// Samples what the named variant carries, where `scope` is the node from
/// which its fields are drawn. A variant without fields needs no scope; for
/// one with fields, a scope that is no object is a
/// `MissingOrInvalidVariantConfig`.
pub fn sample_payload<D: Fn(u64, u64) -> u64>(
    payload: &VariantShape,
    scope: Option<&ConfigNode>,
    selected: &String,
    draw: &D,
) -> (result: Result<Payload, SampleError>)
    requires
        draws_doubles(draw),
    ensures
        result matches Ok(carried) ==> payload_admits(
            *payload,
            held(scope),
            answers(draw),
            carried,
        ),
        result matches Err(e) ==> payload_fails(*payload, held(scope), selected@, answers(draw), e),
    decreases payload, 0nat,
{
    match payload {
        VariantShape::NoPayload => Ok(Payload::NoPayload),
        VariantShape::PositionalFields(shapes) => {
            if shapes.len() == 0 {
                return Ok(Payload::PositionalFields(Vec::new()));
            }
            match scope {
                Some(ConfigNode::Object(entries)) => match sample_positions(
                    shapes,
                    entries,
                    draw,
                ) {
                    Ok(values) => Ok(Payload::PositionalFields(values)),
                    Err(e) => Err(e),
                },
                _ => Err(
                    SampleError::new(SampleErrorKind::MissingOrInvalidVariantConfig, selected),
                ),
            }
        },
        VariantShape::NamedFields(fields) => {
            if fields.len() == 0 {
                return Ok(Payload::NamedFields(Vec::new()));
            }
            match scope {
                Some(ConfigNode::Object(entries)) => match sample_fields(fields, entries, draw) {
                    Ok(values) => Ok(Payload::NamedFields(values)),
                    Err(e) => Err(e),
                },
                _ => Err(
                    SampleError::new(SampleErrorKind::MissingOrInvalidVariantConfig, selected),
                ),
            }
        },
    }
}

/// Samples the union once a name is selected: looks the name up among the
/// declared variants and samples what the variant carries. A name that no
/// declared variant has is an `UnknownVariant`.
pub fn sample_selected<D: Fn(u64, u64) -> u64>(
    variants: &Vec<Variant>,
    entries: &Vec<Entry>,
    selected: &String,
    draw: &D,
) -> (result: Result<Value, SampleError>)
    requires
        draws_doubles(draw),
    ensures
        result matches Ok(v) ==> {
            &&& v matches Value::Union(name, carried)
            &&& name@ == selected@
            &&& declared(variants@, selected@) matches Some(d)
            &&& 0 <= d < variants@.len()
            &&& payload_admits(
                variants@[d].payload,
                payload_scope(entries@, selected@),
                answers(draw),
                carried,
            )
        },
        result matches Err(e) ==> selected_fails(variants@, entries@, selected@, answers(draw), e),
    decreases variants, 0nat,
{
    match find_variant(variants, selected) {
        None => Err(SampleError::new(SampleErrorKind::UnknownVariant, selected)),
        Some(d) => {
            proof {
                assert(decreases_to!(*variants => variants@[d as int].payload));
            }
            let scope = find_payload_scope(entries, selected);
            match sample_payload(&variants[d].payload, scope, selected, draw) {
                Ok(carried) => Ok(Value::Union(selected.clone(), carried)),
                Err(e) => Err(e),
            }
        },
    }
}

/// Samples a union: selects one name of the candidate set at random, then
/// samples the variant of that name.
pub fn sample_union<D: Fn(u64, u64) -> u64>(
    variants: &Vec<Variant>,
    node: Option<&ConfigNode>,
    name: &String,
    draw: &D,
) -> (result: Result<Value, SampleError>)
    requires
        draws_doubles(draw),
    ensures
        is_outcome(Shape::Union(*variants), held(node), name@, answers(draw), result),
    decreases variants, 1nat,
{
    match node {
        None => Err(SampleError::new(SampleErrorKind::MissingConfig, name)),
        Some(ConfigNode::Object(entries)) => {
            let selected: &String = match named_items(entries) {
                Some(items) => match pick_one(items) {
                    Some(ConfigNode::Text(chosen)) => {
                        assert(offers_text(items@, chosen@)) by {
                            let i = choose|i: int|
                                0 <= i < items@.len() && items@[i] == ConfigNode::Text(*chosen);
                            assert(items@[i].text() == Some(chosen@));
                        }
                        chosen
                    },
                    _ => unreached(),
                },
                None => match pick_one(variants) {
                    Some(variant) => {
                        assert(is_candidate(variants@, entries@, variant.name@)) by {
                            let i = choose|i: int|
                                0 <= i < variants@.len() && variants@[i] == *variant;
                            assert(variants@[i].name@ == variant.name@);
                        }
                        &variant.name
                    },
                    None => {
                        return Err(SampleError::new(SampleErrorKind::NoVariantsAvailable, name));
                    },
                },
            };
            assert(is_candidate(variants@, entries@, selected@));
            sample_selected(variants, entries, selected, draw)
        },
        Some(_) => Err(SampleError::new(SampleErrorKind::WrongShape, name)),
    }
}

/// Samples a value of the shape from the root of a configuration. Doubles are
/// asked of `draw`, by the bit patterns of the bounds.
///
/// The result is a value that the shape admits under the configuration, or a
/// failure that it may meet there, both with what `draw` may answer; the
/// place of a failure at the root is the empty name.
pub fn sample<D: Fn(u64, u64) -> u64>(shape: &Shape, config: &ConfigNode, draw: &D) -> (result:
    Result<Value, SampleError>)
    requires
        draws_doubles(draw),
    ensures
        is_outcome(*shape, Some(*config), Seq::<char>::empty(), answers(draw), result),
{
    let root = String::new();
    sample_field(shape, Some(config), &root, draw)
}

} // verus!
