//! Sampling of a sequence of scalars: a draw, without replacement, from the
//! items of an array that can be read as scalars of the wanted kind.

use crate::config::ConfigNode;
use crate::draw::{draw_size, drawn_from, is_selection, pick_several};
use crate::error::{SampleError, SampleErrorKind};
use crate::number::narrow;
use crate::rules::{drawn_from_pool, parses, picks, pool_size, reads_as};
use crate::shape::PrimitiveKind;
use crate::value::Value;
use vstd::prelude::*;

verus! {

/// Whether the positions are those of items that can be read as scalars of
/// the kind, in rising order.
pub open spec fn is_pool(
    kind: PrimitiveKind,
    items: Seq<ConfigNode>,
    positions: Seq<usize>,
) -> bool {
    &&& forall|j: int|
        0 <= j < positions.len() ==> (#[trigger] positions[j]) < items.len() && parses(
            kind,
            items[positions[j] as int],
        )
    &&& forall|j: int, k: int|
        0 <= j < k < positions.len() ==> (#[trigger] positions[j]) < (#[trigger] positions[k])
}

/// Whether the node can be read as a scalar of the kind.
pub fn can_read(kind: PrimitiveKind, node: &ConfigNode) -> (r: bool)
    ensures
        r == parses(kind, *node),
{
    match kind {
        PrimitiveKind::Int(_) => match node {
            ConfigNode::Number(n) => n.as_integer.is_some(),
            _ => false,
        },
        PrimitiveKind::Float => match node {
            ConfigNode::Number(n) => n.as_float_bits.is_some(),
            _ => false,
        },
        PrimitiveKind::Text => match node {
            ConfigNode::Text(_) => true,
            _ => false,
        },
        PrimitiveKind::Bool => match node {
            ConfigNode::Bool(_) => true,
            _ => false,
        },
    }
}

/// Reads the scalar of the kind that the node holds. A node that holds none
/// gives `None`.
pub fn read_scalar(kind: PrimitiveKind, node: &ConfigNode) -> (read: Option<Value>)
    ensures
        read is Some <==> parses(kind, *node),
        read matches Some(v) ==> reads_as(kind, *node, v),
{
    match kind {
        PrimitiveKind::Int(width) => match node {
            ConfigNode::Number(n) => match n.as_integer {
                Some(i) => Some(Value::Int(narrow(i, width))),
                None => None,
            },
            _ => None,
        },
        PrimitiveKind::Float => match node {
            ConfigNode::Number(n) => match n.as_float_bits {
                Some(x) => Some(Value::Float(x)),
                None => None,
            },
            _ => None,
        },
        PrimitiveKind::Text => match node {
            ConfigNode::Text(s) => Some(Value::Text(s.clone())),
            _ => None,
        },
        PrimitiveKind::Bool => match node {
            ConfigNode::Bool(b) => Some(Value::Bool(*b)),
            _ => None,
        },
    }
}

/// The candidate pool of an array: the positions of the items that can be
/// read as scalars of the kind.
pub fn pool_positions(kind: PrimitiveKind, items: &Vec<ConfigNode>) -> (positions: Vec<usize>)
    ensures
        positions@.len() == pool_size(kind, items@),
        is_pool(kind, items@, positions@),
{
    let mut positions: Vec<usize> = Vec::new();
    let mut i: usize = 0;
    assert(items@.take(0) =~= Seq::<ConfigNode>::empty());
    while i < items.len()
        invariant
            i <= items.len(),
            positions@.len() == pool_size(kind, items@.take(i as int)),
            is_pool(kind, items@, positions@),
            forall|j: int| 0 <= j < positions@.len() ==> (#[trigger] positions@[j]) < i,
        decreases items.len() - i,
    {
        assert(items@.take(i + 1).drop_last() =~= items@.take(i as int));
        assert(items@.take(i + 1).last() == items@[i as int]);
        if can_read(kind, &items[i]) {
            positions.push(i);
        }
        i += 1;
    }
    assert(items@.take(i as int) =~= items@);
    positions
}

/// Reads the scalars at the picked positions, in the order of the picks.
pub fn gather(kind: PrimitiveKind, items: &Vec<ConfigNode>, picked: &Vec<usize>) -> (values: Vec<
    Value,
>)
    requires
        forall|j: int|
            0 <= j < picked@.len() ==> (#[trigger] picked@[j]) < items@.len() && parses(
                kind,
                items@[picked@[j] as int],
            ),
    ensures
        values@.len() == picked@.len(),
        forall|j: int|
            0 <= j < picked@.len() ==> reads_as(
                kind,
                items@[picked@[j] as int],
                #[trigger] values@[j],
            ),
{
    let mut values: Vec<Value> = Vec::new();
    let mut j: usize = 0;
    while j < picked.len()
        invariant
            j <= picked.len(),
            values@.len() == j,
            forall|k: int|
                0 <= k < picked@.len() ==> (#[trigger] picked@[k]) < items@.len() && parses(
                    kind,
                    items@[picked@[k] as int],
                ),
            forall|k: int|
                0 <= k < j ==> reads_as(kind, items@[picked@[k] as int], #[trigger] values@[k]),
        decreases picked.len() - j,
    {
        let position = picked[j];
        let v = match read_scalar(kind, &items[position]) {
            Some(v) => v,
            None => unreached(),
        };
        values.push(v);
        j += 1;
    }
    values
}

/// A selection from a pool in rising order takes no position of the array
/// twice, and takes only positions of the pool.
pub proof fn lemma_selection_picks(
    kind: PrimitiveKind,
    items: Seq<ConfigNode>,
    pool: Seq<usize>,
    picked: Seq<usize>,
)
    requires
        is_pool(kind, items, pool),
        is_selection(picked, pool),
    ensures
        forall|j: int|
            0 <= j < picked.len() ==> (#[trigger] picked[j]) < items.len() && parses(
                kind,
                items[picked[j] as int],
            ),
        forall|j: int, k: int|
            0 <= j < k < picked.len() ==> (#[trigger] picked[j]) != (#[trigger] picked[k]),
{
    let from = choose|from: Seq<int>| drawn_from(picked, pool, from);
    assert forall|j: int| 0 <= j < picked.len() implies (#[trigger] picked[j]) < items.len()
        && parses(kind, items[picked[j] as int]) by {
        assert(picked[j] == pool[from[j]]);
    }
    assert forall|j: int, k: int| 0 <= j < k < picked.len() implies (#[trigger] picked[j]) != (
    #[trigger] picked[k]) by {
        assert(picked[j] == pool[from[j]]);
        assert(picked[k] == pool[from[k]]);
        assert(from[j] != from[k]);
        if from[j] < from[k] {
            assert(pool[from[j]] < pool[from[k]]);
        } else {
            assert(pool[from[k]] < pool[from[j]]);
        }
    }
}

/// Samples a sequence of scalars from an array: draws a size between one and
/// the size of the candidate pool, then that many items of the pool, none
/// twice. An empty pool is an `EmptyDomain`.
pub fn sample_scalars(kind: PrimitiveKind, items: &Vec<ConfigNode>, name: &String) -> (result:
    Result<Vec<Value>, SampleError>)
    ensures
        result matches Ok(values) ==> drawn_from_pool(kind, items@, values@),
        result matches Err(e) ==> pool_size(kind, items@) == 0 && e.reports(
            SampleErrorKind::EmptyDomain,
            name@,
        ),
{
    let pool = pool_positions(kind, items);
    if pool.len() == 0 {
        return Err(SampleError::new(SampleErrorKind::EmptyDomain, name));
    }
    let size = draw_size(1, pool.len());
    let picked = pick_several(&pool, size);
    proof {
        lemma_selection_picks(kind, items@, pool@, picked@);
    }
    let values = gather(kind, items, &picked);
    proof {
        let at = Seq::new(picked@.len(), |j: int| picked@[j] as int);
        assert(picks(kind, items@, at, values@));
    }
    Ok(values)
}

} // verus!
