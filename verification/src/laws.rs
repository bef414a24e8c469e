//! What holds of every sampled value, proved from the relations of
//! [`crate::rules`] that the sampler's contracts are stated in.

use crate::config::{lookup, ConfigNode, Entry};
use crate::error::{SampleError, SampleErrorKind};
use crate::number::{fits, float_within, narrowed};
use crate::rules::{
    admits, declared, declared_from, elements_admit, fails, fields_fail, float_range, int_range,
    is_candidate, is_text, keeps_to_interval, may_stray, named_candidates, never_fails,
    no_candidates, offers_text, picks, pool_size, variants_key,
};
use crate::shape::{distinct_variant_names, Field, IntWidth, PrimitiveKind, Shape, Variant};
use crate::value::Value;
use vstd::prelude::*;

verus! {

/// An integer field configured with a range `[low, high)`, `low < high`, is
/// always sampled, and where the width holds every number of the range, the
/// sampled integer lies in the range.
pub proof fn law_integer_in_range(
    width: IntWidth,
    node: Option<ConfigNode>,
    name: Seq<char>,
    low: i64,
    high: i64,
    v: Value,
    source: spec_fn(u64, u64, u64) -> bool,
)
    requires
        int_range(node) == Some((low, high)),
        fits(width, low as int),
        fits(width, high - 1),
        admits(Shape::Primitive(PrimitiveKind::Int(width)), node, source, v),
    ensures
        v matches Value::Int(x) && low <= x < high,
        forall|e: SampleError| !fails(
            Shape::Primitive(PrimitiveKind::Int(width)),
            node,
            name,
            source,
            e,
        ),
{
    let drawn = choose|drawn: i64|
        low <= drawn < high && v == Value::Int(#[trigger] narrowed(drawn, width));
    assert(fits(width, drawn as int));
}

/// A double sampled from a range `[low, high)`, `low < high`, is an answer of
/// the source to the request for a double of that range, and lies in the
/// range. The field fails there only with `InvalidRangeValues`, and only if
/// the source may answer that request with a double outside the range.
pub proof fn law_double_in_range(
    node: Option<ConfigNode>,
    name: Seq<char>,
    source: spec_fn(u64, u64, u64) -> bool,
    low: u64,
    high: u64,
)
    requires
        float_range(node) == Some((low, high)),
    ensures
        forall|v: Value|
            admits(
                Shape::Primitive(PrimitiveKind::Float),
                node,
                source,
                v,
            ) ==> (v matches Value::Float(
                x,
            ) && source(low, high, x) && float_within(low, x, high)),
        forall|e: SampleError|
            fails(Shape::Primitive(PrimitiveKind::Float), node, name, source, e) ==> e.reports(
                SampleErrorKind::InvalidRangeValues,
                name,
            ) && may_stray(source, low, high),
{
}

/// With a source that keeps to the interval it is asked for, a double field
/// configured with a range `[low, high)`, `low < high`, is always sampled.
pub proof fn law_double_is_sampled(
    node: Option<ConfigNode>,
    name: Seq<char>,
    source: spec_fn(u64, u64, u64) -> bool,
)
    requires
        keeps_to_interval(source),
        float_range(node) is Some,
    ensures
        never_fails(Shape::Primitive(PrimitiveKind::Float), node, name, source),
{
    let (low, high) = float_range(node)->Some_0;
    assert forall|e: SampleError|
        !fails(Shape::Primitive(PrimitiveKind::Float), node, name, source, e) by {
        if fails(Shape::Primitive(PrimitiveKind::Float), node, name, source, e) {
            let drawn = choose|drawn: u64|
                #[trigger] source(low, high, drawn) && !float_within(low, drawn, high);
            assert(float_within(low, drawn, high));
        }
    }
}

/// A record under an object is always sampled where none of its fields can
/// fail under what the object holds under the field's name.
pub proof fn law_record_is_sampled(
    fields: Vec<Field>,
    entries: Vec<Entry>,
    name: Seq<char>,
    source: spec_fn(u64, u64, u64) -> bool,
)
    requires
        forall|i: int|
            0 <= i < fields@.len() ==> never_fails(
                (#[trigger] fields@[i]).shape,
                lookup(entries@, fields@[i].name@),
                fields@[i].name@,
                source,
            ),
    ensures
        never_fails(Shape::Record(fields), Some(ConfigNode::Object(entries)), name, source),
{
    assert forall|e: SampleError|
        !fails(Shape::Record(fields), Some(ConfigNode::Object(entries)), name, source, e) by {
        if fails(Shape::Record(fields), Some(ConfigNode::Object(entries)), name, source, e) {
            assert(fields_fail(fields@, entries@, source, e));
            let i = choose|i: int|
                0 <= i < fields@.len() && fails(
                    (#[trigger] fields@[i]).shape,
                    lookup(entries@, fields@[i].name@),
                    fields@[i].name@,
                    source,
                    e,
                );
            assert(never_fails(
                fields@[i].shape,
                lookup(entries@, fields@[i].name@),
                fields@[i].name@,
                source,
            ));
        }
    }
}

/// A string field configured with an array that holds a string is always
/// sampled, and the sampled string is one of the array.
pub proof fn law_text_is_a_choice(
    items: Vec<ConfigNode>,
    name: Seq<char>,
    some_choice: Seq<char>,
    v: Value,
    source: spec_fn(u64, u64, u64) -> bool,
)
    requires
        offers_text(items@, some_choice),
        admits(
            Shape::Primitive(PrimitiveKind::Text),
            Some(ConfigNode::Array(items)),
            source,
            v,
        ),
    ensures
        v matches Value::Text(s) && offers_text(items@, s@),
        forall|e: SampleError|
            !fails(
                Shape::Primitive(PrimitiveKind::Text),
                Some(ConfigNode::Array(items)),
                name,
                source,
                e,
            ),
{
}

/// A string field configured with a literal is always sampled, and is that
/// literal.
pub proof fn law_text_literal(
    literal: String,
    name: Seq<char>,
    v: Value,
    source: spec_fn(u64, u64, u64) -> bool,
)
    requires
        admits(
            Shape::Primitive(PrimitiveKind::Text),
            Some(ConfigNode::Text(literal)),
            source,
            v,
        ),
    ensures
        is_text(v, literal@),
        forall|e: SampleError|
            !fails(
                Shape::Primitive(PrimitiveKind::Text),
                Some(ConfigNode::Text(literal)),
                name,
                source,
                e,
            ),
{
}

/// A boolean field configured with a literal is always sampled, and is that
/// literal.
pub proof fn law_bool_literal(
    literal: bool,
    name: Seq<char>,
    v: Value,
    source: spec_fn(u64, u64, u64) -> bool,
)
    requires
        admits(
            Shape::Primitive(PrimitiveKind::Bool),
            Some(ConfigNode::Bool(literal)),
            source,
            v,
        ),
    ensures
        v == Value::Bool(literal),
        forall|e: SampleError|
            !fails(
                Shape::Primitive(PrimitiveKind::Bool),
                Some(ConfigNode::Bool(literal)),
                name,
                source,
                e,
            ),
{
}

/// An optional field whose key is absent or null is absent: that is the one
/// value it admits, and it never fails.
pub proof fn law_optional_absent(
    inner: Shape,
    node: Option<ConfigNode>,
    name: Seq<char>,
    source: spec_fn(u64, u64, u64) -> bool,
)
    requires
        node is None || node == Some(ConfigNode::Null),
    ensures
        forall|v: Value|
            admits(Shape::Optional(Box::new(inner)), node, source, v) <==> v == Value::Optional(
                None,
            ),
        forall|e: SampleError| !fails(Shape::Optional(Box::new(inner)), node, name, source, e),
{
    assert forall|v: Value|
        admits(Shape::Optional(Box::new(inner)), node, source, v) <==> v == Value::Optional(
            None,
        ) by {
        if v == Value::Optional(None) {
            assert(admits(Shape::Optional(Box::new(inner)), node, source, v));
        }
    }
}

/// An optional field whose key is present and not null is present: its value
/// is one that the inner shape admits under the same key, and it fails
/// exactly as the inner shape does.
pub proof fn law_optional_present(
    inner: Shape,
    node: ConfigNode,
    name: Seq<char>,
    source: spec_fn(u64, u64, u64) -> bool,
)
    requires
        node != ConfigNode::Null,
    ensures
        forall|v: Value|
            admits(
                Shape::Optional(Box::new(inner)),
                Some(node),
                source,
                v,
            ) ==> (v matches Value::Optional(
                Some(present),
            ) && admits(inner, Some(node), source, *present)),
        forall|e: SampleError|
            fails(Shape::Optional(Box::new(inner)), Some(node), name, source, e) <==> fails(
                inner,
                Some(node),
                name,
                source,
                e,
            ),
{
}

/// An indirection is sampled exactly as the shape inside: it admits the
/// values that the inner shape admits, singly owned, and fails exactly as the
/// inner shape does.
pub proof fn law_indirect_is_transparent(
    inner: Shape,
    node: Option<ConfigNode>,
    name: Seq<char>,
    source: spec_fn(u64, u64, u64) -> bool,
)
    ensures
        forall|v: Value|
            admits(
                Shape::Indirect(Box::new(inner)),
                node,
                source,
                v,
            ) <==> (v matches Value::Indirect(
                owned,
            ) && admits(inner, node, source, *owned)),
        forall|e: SampleError|
            fails(Shape::Indirect(Box::new(inner)), node, name, source, e) <==> fails(
                inner,
                node,
                name,
                source,
                e,
            ),
{
}

/// A sequence whose key is absent is empty: it admits only the empty sequence
/// and never fails.
pub proof fn law_sequence_absent(
    inner: Shape,
    name: Seq<char>,
    v: Value,
    source: spec_fn(u64, u64, u64) -> bool,
)
    requires
        admits(Shape::Sequence(Box::new(inner)), None, source, v),
    ensures
        v matches Value::Sequence(values) && values@.len() == 0,
        forall|e: SampleError| !fails(Shape::Sequence(Box::new(inner)), None, name, source, e),
{
}

/// A sequence of scalars whose candidate pool holds `n >= 1` items is always
/// sampled; it holds between 1 and `n` values, each read from an item of the
/// pool, and no item is taken twice.
pub proof fn law_scalar_sequence(
    kind: PrimitiveKind,
    items: Vec<ConfigNode>,
    name: Seq<char>,
    v: Value,
    source: spec_fn(u64, u64, u64) -> bool,
)
    requires
        pool_size(kind, items@) >= 1,
        admits(
            Shape::Sequence(Box::new(Shape::Primitive(kind))),
            Some(ConfigNode::Array(items)),
            source,
            v,
        ),
    ensures
        v matches Value::Sequence(values) && 1 <= values@.len() <= pool_size(kind, items@)
            && exists|at: Seq<int>| picks(kind, items@, at, values@),
        forall|e: SampleError|
            !fails(
                Shape::Sequence(Box::new(Shape::Primitive(kind))),
                Some(ConfigNode::Array(items)),
                name,
                source,
                e,
            ),
{
}

/// A sequence of anything but scalars has one value for each item of the
/// array, and each is a value that the inner shape admits under its item.
pub proof fn law_composite_sequence(
    inner: Shape,
    items: Vec<ConfigNode>,
    name: Seq<char>,
    v: Value,
    source: spec_fn(u64, u64, u64) -> bool,
)
    requires
        !(inner is Primitive),
        admits(
            Shape::Sequence(Box::new(inner)),
            Some(ConfigNode::Array(items)),
            source,
            v,
        ),
    ensures
        v matches Value::Sequence(values) && values@.len() == items@.len() && forall|i: int|
            0 <= i < items@.len() ==> admits(inner, Some(#[trigger] items@[i]), source, values@[i]),
{
    let values = v->Sequence_0;
    assert(elements_admit(inner, items@, source, values@));
}

/// The variant that a union selects is a member of the candidate set.
pub proof fn law_union_selects_candidate(
    variants: Vec<Variant>,
    entries: Vec<Entry>,
    name: Seq<char>,
    v: Value,
    source: spec_fn(u64, u64, u64) -> bool,
)
    requires
        admits(Shape::Union(variants), Some(ConfigNode::Object(entries)), source, v),
    ensures
        v matches Value::Union(selected, _) && is_candidate(variants@, entries@, selected@),
{
}

/// A union with an empty candidate set always fails with
/// `NoVariantsAvailable`.
pub proof fn law_union_without_candidates(
    variants: Vec<Variant>,
    entries: Vec<Entry>,
    name: Seq<char>,
    source: spec_fn(u64, u64, u64) -> bool,
)
    requires
        no_candidates(variants@, entries@),
    ensures
        forall|v: Value|
            !admits(Shape::Union(variants), Some(ConfigNode::Object(entries)), source, v),
        forall|e: SampleError|
            fails(
                Shape::Union(variants),
                Some(ConfigNode::Object(entries)),
                name,
                source,
                e,
            )
                <==> e.reports(SampleErrorKind::NoVariantsAvailable, name),
{
}

/// An empty array under `"variants"` names no candidates, so the declared
/// variants are the candidate set; where none is declared either, the union
/// always fails with `NoVariantsAvailable`.
pub proof fn law_union_empty_override(
    variants: Vec<Variant>,
    entries: Vec<Entry>,
    items: Vec<ConfigNode>,
    name: Seq<char>,
    source: spec_fn(u64, u64, u64) -> bool,
)
    requires
        lookup(entries@, variants_key()) == Some(ConfigNode::Array(items)),
        items@.len() == 0,
    ensures
        named_candidates(entries@) is None,
        forall|selected: Seq<char>|
            is_candidate(variants@, entries@, selected) <==> exists|i: int|
                0 <= i < variants@.len() && (#[trigger] variants@[i]).name@ == selected,
        variants@.len() == 0 ==> forall|e: SampleError|
            fails(
                Shape::Union(variants),
                Some(ConfigNode::Object(entries)),
                name,
                source,
                e,
            )
                <==> e.reports(SampleErrorKind::NoVariantsAvailable, name),
{
}

/// The first variant at or after `start` with the name of the variant at
/// `at` is the one at `at`, where no variant between the two has the name.
proof fn lemma_declared_from(variants: Seq<Variant>, start: int, at: int)
    requires
        0 <= start <= at < variants.len(),
        forall|k: int| start <= k < at ==> (#[trigger] variants[k]).name@ != variants[at].name@,
    ensures
        declared_from(variants, variants[at].name@, start) == Some(at),
    decreases at - start,
{
    if start < at {
        assert(variants[start].name@ != variants[at].name@);
        lemma_declared_from(variants, start + 1, at);
    }
}

/// Among variants with unique names, each is the declared variant of its own
/// name.
pub proof fn law_declared_by_its_name(variants: Seq<Variant>, at: int)
    requires
        distinct_variant_names(variants),
        0 <= at < variants.len(),
    ensures
        declared(variants, variants[at].name@) == Some(at),
{
    lemma_declared_from(variants, 0, at);
}

} // verus!
