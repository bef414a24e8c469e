//! Sampling of scalars: numbers from a range, strings from a list of
//! choices or a literal, booleans from a literal.

use crate::config::{held, ConfigNode};
use crate::draw::{draw_int, pick_one};
use crate::error::{SampleError, SampleErrorKind};
use crate::number::{float_less, float_within, less, narrow, within};
use crate::rules::{
    bool_admits, bool_fails, double_admits, double_fails, integer_admits, integer_fails,
    primitive_admits, primitive_fails, text_admits, text_fails,
};
use crate::shape::{IntWidth, PrimitiveKind};
use crate::value::Value;
use vstd::prelude::*;

verus! {

/// Whether the source of doubles can be asked for a number of every interval
/// `[low, high)` of finite doubles with `low < high`, given as bit patterns.
pub open spec fn draws_doubles<D: Fn(u64, u64) -> u64>(draw: &D) -> bool {
    forall|low: u64, high: u64| float_less(low, high) ==> #[trigger] draw.requires((low, high))
}

/// What the source of doubles may answer: `drawn` to the request for a double
/// of `[low, high)`, all three given as bit patterns.
pub open spec fn answers<D: Fn(u64, u64) -> u64>(draw: &D) -> spec_fn(u64, u64, u64) -> bool {
    |low: u64, high: u64, drawn: u64| draw.ensures((low, high), drawn)
}

/// Whether the result is one that sampling a scalar of the kind may return,
/// where `source` says what the source of doubles may answer.
pub open spec fn is_primitive_outcome(
    kind: PrimitiveKind,
    node: Option<ConfigNode>,
    name: Seq<char>,
    source: spec_fn(u64, u64, u64) -> bool,
    result: Result<Value, SampleError>,
) -> bool {
    match result {
        Ok(v) => primitive_admits(kind, node, source, v),
        Err(e) => primitive_fails(kind, node, name, source, e),
    }
}

/// Samples an integer: draws it from the range `[low, high)` that the node
/// configures and narrows it to the width.
pub fn sample_integer(width: IntWidth, node: Option<&ConfigNode>, name: &String) -> (result: Result<
    Value,
    SampleError,
>)
    ensures
        result matches Ok(v) ==> integer_admits(width, held(node), v),
        result matches Err(e) ==> integer_fails(held(node), name@, e),
{
    match node {
        None => Err(SampleError::new(SampleErrorKind::MissingConfig, name)),
        Some(ConfigNode::Array(items)) => {
            if items.len() != 2 {
                return Err(SampleError::new(SampleErrorKind::WrongShape, name));
            }
            match (&items[0], &items[1]) {
                (ConfigNode::Number(low), ConfigNode::Number(high)) => match (
                    low.as_integer,
                    high.as_integer,
                ) {
                    (Some(low), Some(high)) => {
                        if low < high {
                            let drawn = draw_int(low, high);
                            Ok(Value::Int(narrow(drawn, width)))
                        } else {
                            Err(SampleError::new(SampleErrorKind::InvalidRangeValues, name))
                        }
                    },
                    _ => Err(SampleError::new(SampleErrorKind::InvalidRangeValues, name)),
                },
                _ => Err(SampleError::new(SampleErrorKind::InvalidRangeValues, name)),
            }
        },
        Some(_) => Err(SampleError::new(SampleErrorKind::WrongShape, name)),
    }
}

/// Takes a drawn double for the interval `[low, high)` if it lies in it, and
/// refuses it otherwise.
pub fn accept_double(low: u64, high: u64, drawn: u64, name: &String) -> (result: Result<
    Value,
    SampleError,
>)
    ensures
        float_within(low, drawn, high) ==> result == Ok::<Value, SampleError>(Value::Float(drawn)),
        !float_within(low, drawn, high) ==> (result matches Err(e) && e.reports(
            SampleErrorKind::InvalidRangeValues,
            name@,
        )),
{
    if within(low, drawn, high) {
        Ok(Value::Float(drawn))
    } else {
        Err(SampleError::new(SampleErrorKind::InvalidRangeValues, name))
    }
}

/// Samples a double: asks the source for a number of the range `[low, high)`
/// that the node configures, and takes it if it lies in the range. The source
/// is asked only where the node configures such a range, and then once, with
/// the bit patterns of the two bounds.
pub fn sample_double<D: Fn(u64, u64) -> u64>(
    node: Option<&ConfigNode>,
    name: &String,
    draw: &D,
) -> (result: Result<Value, SampleError>)
    requires
        draws_doubles(draw),
    ensures
        result matches Ok(v) ==> double_admits(held(node), answers(draw), v),
        result matches Err(e) ==> double_fails(held(node), name@, answers(draw), e),
{
    match node {
        None => Err(SampleError::new(SampleErrorKind::MissingConfig, name)),
        Some(ConfigNode::Array(items)) => {
            if items.len() != 2 {
                return Err(SampleError::new(SampleErrorKind::WrongShape, name));
            }
            match (&items[0], &items[1]) {
                (ConfigNode::Number(low), ConfigNode::Number(high)) => match (
                    low.as_float_bits,
                    high.as_float_bits,
                ) {
                    (Some(low), Some(high)) => {
                        if less(low, high) {
                            let drawn = draw(low, high);
                            assert(answers(draw)(low, high, drawn));
                            accept_double(low, high, drawn, name)
                        } else {
                            Err(SampleError::new(SampleErrorKind::InvalidRangeValues, name))
                        }
                    },
                    _ => Err(SampleError::new(SampleErrorKind::InvalidRangeValues, name)),
                },
                _ => Err(SampleError::new(SampleErrorKind::InvalidRangeValues, name)),
            }
        },
        Some(_) => Err(SampleError::new(SampleErrorKind::WrongShape, name)),
    }
}

/// The positions of the strings among the items.
fn text_positions(items: &Vec<ConfigNode>) -> (positions: Vec<usize>)
    ensures
        forall|j: int|
            0 <= j < positions@.len() ==> (#[trigger] positions@[j]) < items@.len()
                && items@[positions@[j] as int] is Text,
        forall|i: int|
            0 <= i < items@.len() && (#[trigger] items@[i]) is Text ==> positions@.len() > 0,
{
    let mut positions: Vec<usize> = Vec::new();
    let mut i: usize = 0;
    while i < items.len()
        invariant
            i <= items.len(),
            forall|j: int|
                0 <= j < positions@.len() ==> (#[trigger] positions@[j]) < items@.len()
                    && items@[positions@[j] as int] is Text,
            forall|k: int| 0 <= k < i && (#[trigger] items@[k]) is Text ==> positions@.len() > 0,
        decreases items.len() - i,
    {
        if let ConfigNode::Text(_) = &items[i] {
            positions.push(i);
        }
        i += 1;
    }
    positions
}

/// Samples a string: one of the strings of the array that the node is, or the
/// string that the node is.
pub fn sample_text(node: Option<&ConfigNode>, name: &String) -> (result: Result<Value, SampleError>)
    ensures
        result matches Ok(v) ==> text_admits(held(node), v),
        result matches Err(e) ==> text_fails(held(node), name@, e),
{
    match node {
        None => Err(SampleError::new(SampleErrorKind::MissingConfig, name)),
        Some(ConfigNode::Array(items)) => {
            let positions = text_positions(items);
            match pick_one(&positions) {
                Some(position) => match &items[*position] {
                    ConfigNode::Text(choice) => {
                        assert(items@[*position as int].text() == Some(choice@));
                        Ok(Value::Text(choice.clone()))
                    },
                    _ => unreached(),
                },
                None => Err(SampleError::new(SampleErrorKind::EmptyDomain, name)),
            }
        },
        Some(ConfigNode::Text(literal)) => Ok(Value::Text(literal.clone())),
        Some(_) => Err(SampleError::new(SampleErrorKind::WrongShape, name)),
    }
}

/// Samples a boolean: the one that the node is.
pub fn sample_bool(node: Option<&ConfigNode>, name: &String) -> (result: Result<Value, SampleError>)
    ensures
        result matches Ok(v) ==> bool_admits(held(node), v),
        result matches Err(e) ==> bool_fails(held(node), name@, e),
{
    match node {
        None => Err(SampleError::new(SampleErrorKind::MissingConfig, name)),
        Some(ConfigNode::Bool(b)) => Ok(Value::Bool(*b)),
        Some(_) => Err(SampleError::new(SampleErrorKind::WrongShape, name)),
    }
}

/// Samples a scalar of the kind, where `node` is what the enclosing scope
/// holds under the key `name`.
pub fn sample_primitive<D: Fn(u64, u64) -> u64>(
    kind: PrimitiveKind,
    node: Option<&ConfigNode>,
    name: &String,
    draw: &D,
) -> (result: Result<Value, SampleError>)
    requires
        draws_doubles(draw),
    ensures
        is_primitive_outcome(kind, held(node), name@, answers(draw), result),
{
    match kind {
        PrimitiveKind::Int(width) => sample_integer(width, node, name),
        PrimitiveKind::Float => sample_double(node, name, draw),
        PrimitiveKind::Text => sample_text(node, name),
        PrimitiveKind::Bool => sample_bool(node, name),
    }
}

} // verus!
