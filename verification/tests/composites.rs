use rand::Rng;
use samplify::config::{
    are_entries_well_keyed, are_items_well_keyed, find, has_distinct_keys, is_well_keyed,
};
use samplify::sampler::{
    find_payload_scope, find_variant, named_items, sample_field, sample_fields, sample_payload,
    sample_positions, sample_selected, sample_union,
};
use samplify::{
    sample, ConfigNode, Entry, Field, FieldValue, IntWidth, Number, Payload, PrimitiveKind,
    SampleError, SampleErrorKind, Shape, Value, Variant, VariantShape,
};

fn draw(low: u64, high: u64) -> u64 {
    rand::thread_rng()
        .gen_range(f64::from_bits(low)..f64::from_bits(high))
        .to_bits()
}

fn name(s: &str) -> String {
    String::from(s)
}

fn whole(n: i64) -> ConfigNode {
    ConfigNode::Number(Number { as_integer: Some(n), as_float_bits: Some((n as f64).to_bits()) })
}

fn text(s: &str) -> ConfigNode {
    ConfigNode::Text(String::from(s))
}

fn entry(key: &str, node: ConfigNode) -> Entry {
    Entry { key: String::from(key), node }
}

fn object(entries: Vec<Entry>) -> ConfigNode {
    ConfigNode::Object(entries)
}

fn error(kind: SampleErrorKind, path: &str) -> SampleError {
    SampleError { kind, path: String::from(path) }
}

fn field(key: &str, shape: Shape) -> Field {
    Field { name: String::from(key), shape }
}

fn held(key: &str, value: Value) -> FieldValue {
    FieldValue { name: String::from(key), value }
}

fn a_text() -> Shape {
    Shape::Primitive(PrimitiveKind::Text)
}

fn a_bool() -> Shape {
    Shape::Primitive(PrimitiveKind::Bool)
}

fn optional(inner: Shape) -> Shape {
    Shape::Optional(Box::new(inner))
}

fn status() -> Vec<Variant> {
    vec![
        Variant { name: name("Active"), payload: VariantShape::NoPayload },
        Variant { name: name("Inactive"), payload: VariantShape::NoPayload },
        Variant {
            name: name("Suspended"),
            payload: VariantShape::NamedFields(vec![field("reason", a_text())]),
        },
    ]
}

fn names(items: &[&str]) -> ConfigNode {
    ConfigNode::Array(items.iter().map(|s| text(s)).collect())
}

#[test]
fn find_takes_the_first_entry_of_the_key() {
    let entries = vec![entry("a", whole(1)), entry("b", whole(2)), entry("a", whole(3))];
    assert_eq!(find(&entries, &name("a")), Some(&whole(1)));
    assert_eq!(find(&entries, &name("b")), Some(&whole(2)));
    assert_eq!(find(&entries, &name("c")), None);
    assert_eq!(find(&entries, &name("A")), None);
    assert_eq!(find(&vec![], &name("a")), None);
}

#[test]
fn keys_must_differ_within_an_object() {
    assert!(has_distinct_keys(&vec![]));
    assert!(has_distinct_keys(&vec![entry("a", whole(1)), entry("b", whole(1))]));
    assert!(!has_distinct_keys(&vec![entry("a", whole(1)), entry("b", whole(2)), entry("a", whole(3))]));
    assert!(is_well_keyed(&whole(1)));
    assert!(is_well_keyed(&ConfigNode::Null));
    assert!(is_well_keyed(&object(vec![entry("a", object(vec![entry("a", whole(1))]))])));
    let twice = object(vec![entry("a", whole(1)), entry("a", whole(2))]);
    assert!(!is_well_keyed(&twice));
    assert!(!is_well_keyed(&ConfigNode::Array(vec![whole(1), object(vec![entry("x", twice)])])));
    assert!(are_items_well_keyed(&vec![whole(1), text("a")]));
    assert!(!are_items_well_keyed(&vec![object(vec![entry("a", whole(1)), entry("a", whole(2))])]));
    assert!(are_entries_well_keyed(&vec![entry("a", whole(1))]));
    assert!(!are_entries_well_keyed(&vec![entry(
        "a",
        object(vec![entry("b", whole(1)), entry("b", whole(2))])
    )]));
}

#[test]
fn optional_without_config_is_absent() {
    let shape = optional(a_text());
    for _ in 0..20 {
        assert_eq!(sample_field(&shape, None, &name("email"), &draw), Ok(Value::Optional(None)));
        assert_eq!(
            sample_field(&shape, Some(&ConfigNode::Null), &name("email"), &draw),
            Ok(Value::Optional(None))
        );
    }
    let composite = optional(Shape::Record(vec![field("account", a_text())]));
    assert_eq!(sample_field(&composite, None, &name("email"), &draw), Ok(Value::Optional(None)));
}

#[test]
fn optional_with_config_is_present() {
    let shape = optional(a_text());
    assert_eq!(
        sample_field(&shape, Some(&text("x")), &name("email"), &draw),
        Ok(Value::Optional(Some(Box::new(Value::Text(name("x"))))))
    );
    assert_eq!(
        sample_field(&shape, Some(&whole(1)), &name("email"), &draw),
        Err(error(SampleErrorKind::WrongShape, "email"))
    );
    let composite = optional(Shape::Indirect(Box::new(Shape::Record(vec![field(
        "account",
        a_text(),
    )]))));
    let node = object(vec![entry("account", names(&["hari"]))]);
    assert_eq!(
        sample_field(&composite, Some(&node), &name("email"), &draw),
        Ok(Value::Optional(Some(Box::new(Value::Indirect(Box::new(Value::Record(vec![held(
            "account",
            Value::Text(name("hari"))
        )])))))))
    );
}

#[test]
fn indirect_samples_what_is_inside() {
    let shape = Shape::Indirect(Box::new(a_bool()));
    assert_eq!(
        sample_field(&shape, Some(&ConfigNode::Bool(true)), &name("b"), &draw),
        Ok(Value::Indirect(Box::new(Value::Bool(true))))
    );
    assert_eq!(
        sample_field(&shape, None, &name("b"), &draw),
        Err(error(SampleErrorKind::MissingConfig, "b"))
    );
}

#[test]
fn record_samples_every_field_in_order() {
    let fields = vec![field("name", a_text()), field("admin", a_bool()), field("nick", optional(a_text()))];
    let entries = vec![entry("admin", ConfigNode::Bool(false)), entry("name", text("Alice"))];
    assert_eq!(
        sample_fields(&fields, &entries, &draw),
        Ok(vec![
            held("name", Value::Text(name("Alice"))),
            held("admin", Value::Bool(false)),
            held("nick", Value::Optional(None)),
        ])
    );
    assert_eq!(sample_fields(&vec![], &entries, &draw), Ok(vec![]));
}

#[test]
fn record_fails_with_its_first_failing_field() {
    let fields = vec![field("name", a_text()), field("admin", a_bool()), field("age", a_bool())];
    let entries = vec![entry("name", text("Alice")), entry("age", text("old"))];
    assert_eq!(
        sample_fields(&fields, &entries, &draw),
        Err(error(SampleErrorKind::MissingConfig, "admin"))
    );
    let entries = vec![entry("name", text("Alice")), entry("admin", ConfigNode::Bool(true)), entry("age", text("old"))];
    assert_eq!(
        sample_fields(&fields, &entries, &draw),
        Err(error(SampleErrorKind::WrongShape, "age"))
    );
}

#[test]
fn record_needs_an_object() {
    let shape = Shape::Record(vec![field("name", a_text())]);
    assert_eq!(
        sample_field(&shape, None, &name("user"), &draw),
        Err(error(SampleErrorKind::MissingConfig, "user"))
    );
    assert_eq!(
        sample_field(&shape, Some(&text("x")), &name("user"), &draw),
        Err(error(SampleErrorKind::WrongShape, "user"))
    );
    assert_eq!(sample(&shape, &names(&["x"]), &draw), Err(error(SampleErrorKind::WrongShape, "")));
    let nested = Shape::Record(vec![field("user", Shape::Record(vec![field("name", a_text())]))]);
    assert_eq!(
        sample(&nested, &object(vec![entry("user", object(vec![entry("name", text("Bob"))]))]), &draw),
        Ok(Value::Record(vec![held("user", Value::Record(vec![held("name", Value::Text(name("Bob")))]))]))
    );
    assert_eq!(
        sample(&nested, &object(vec![]), &draw),
        Err(error(SampleErrorKind::MissingConfig, "user"))
    );
}

#[test]
fn positions_are_read_under_their_keys() {
    let shapes = vec![a_text(), a_bool()];
    let entries = vec![entry("field1", ConfigNode::Bool(true)), entry("field0", text("zero"))];
    assert_eq!(
        sample_positions(&shapes, &entries, &draw),
        Ok(vec![Value::Text(name("zero")), Value::Bool(true)])
    );
    let entries = vec![entry("field1", ConfigNode::Bool(true))];
    assert_eq!(
        sample_positions(&shapes, &entries, &draw),
        Err(error(SampleErrorKind::MissingConfig, "field0"))
    );
    let entries = vec![entry("field0", text("zero")), entry("field1", text("one"))];
    assert_eq!(
        sample_positions(&shapes, &entries, &draw),
        Err(error(SampleErrorKind::WrongShape, "field1"))
    );
}

#[test]
fn named_items_need_a_non_empty_array_of_strings() {
    let given = vec![entry("variants", names(&["A", "B"]))];
    assert_eq!(named_items(&given), Some(&vec![text("A"), text("B")]));
    assert_eq!(named_items(&vec![entry("variants", names(&[]))]), None);
    assert_eq!(named_items(&vec![entry("variants", ConfigNode::Array(vec![text("A"), whole(1)]))]), None);
    assert_eq!(named_items(&vec![entry("variants", text("A"))]), None);
    assert_eq!(named_items(&vec![entry("variant", names(&["A"]))]), None);
    assert_eq!(named_items(&vec![]), None);
}

#[test]
fn find_variant_goes_by_the_declared_names() {
    let variants = status();
    assert_eq!(find_variant(&variants, &name("Active")), Some(0));
    assert_eq!(find_variant(&variants, &name("Suspended")), Some(2));
    assert_eq!(find_variant(&variants, &name("suspended")), None);
    assert_eq!(find_variant(&vec![], &name("Active")), None);
}

#[test]
fn payload_scope_is_under_variant_data() {
    let entries = vec![entry("variant_data", object(vec![entry("Suspended", object(vec![]))]))];
    assert_eq!(find_payload_scope(&entries, &name("Suspended")), Some(&object(vec![])));
    assert_eq!(find_payload_scope(&entries, &name("Active")), None);
    assert_eq!(find_payload_scope(&vec![], &name("Suspended")), None);
    let no_object = vec![entry("variant_data", names(&["Suspended"]))];
    assert_eq!(find_payload_scope(&no_object, &name("Suspended")), None);
}

#[test]
fn payload_without_fields_needs_no_config() {
    assert_eq!(
        sample_payload(&VariantShape::NoPayload, None, &name("Active"), &draw),
        Ok(Payload::NoPayload)
    );
    assert_eq!(
        sample_payload(&VariantShape::PositionalFields(vec![]), None, &name("Empty"), &draw),
        Ok(Payload::PositionalFields(vec![]))
    );
    assert_eq!(
        sample_payload(&VariantShape::NamedFields(vec![]), Some(&text("x")), &name("Empty"), &draw),
        Ok(Payload::NamedFields(vec![]))
    );
}

#[test]
fn payload_with_fields_needs_an_object() {
    let named = VariantShape::NamedFields(vec![field("reason", a_text())]);
    assert_eq!(
        sample_payload(&named, None, &name("Suspended"), &draw),
        Err(error(SampleErrorKind::MissingOrInvalidVariantConfig, "Suspended"))
    );
    assert_eq!(
        sample_payload(&named, Some(&text("x")), &name("Suspended"), &draw),
        Err(error(SampleErrorKind::MissingOrInvalidVariantConfig, "Suspended"))
    );
    assert_eq!(
        sample_payload(&named, Some(&object(vec![])), &name("Suspended"), &draw),
        Err(error(SampleErrorKind::MissingConfig, "reason"))
    );
    assert_eq!(
        sample_payload(&named, Some(&object(vec![entry("reason", text("Other"))])), &name("Suspended"), &draw),
        Ok(Payload::NamedFields(vec![held("reason", Value::Text(name("Other")))]))
    );
    let positional = VariantShape::PositionalFields(vec![a_bool()]);
    assert_eq!(
        sample_payload(&positional, None, &name("Flag"), &draw),
        Err(error(SampleErrorKind::MissingOrInvalidVariantConfig, "Flag"))
    );
    assert_eq!(
        sample_payload(&positional, Some(&object(vec![entry("field0", ConfigNode::Bool(true))])), &name("Flag"), &draw),
        Ok(Payload::PositionalFields(vec![Value::Bool(true)]))
    );
}

#[test]
fn selected_variant_must_be_declared() {
    let variants = status();
    assert_eq!(
        sample_selected(&variants, &vec![], &name("Active"), &draw),
        Ok(Value::Union(name("Active"), Payload::NoPayload))
    );
    assert_eq!(
        sample_selected(&variants, &vec![], &name("Deleted"), &draw),
        Err(error(SampleErrorKind::UnknownVariant, "Deleted"))
    );
    assert_eq!(
        sample_selected(&variants, &vec![], &name("Suspended"), &draw),
        Err(error(SampleErrorKind::MissingOrInvalidVariantConfig, "Suspended"))
    );
}

#[test]
fn union_selects_among_the_declared_variants() {
    let variants = vec![
        Variant { name: name("Active"), payload: VariantShape::NoPayload },
        Variant { name: name("Inactive"), payload: VariantShape::NoPayload },
    ];
    let node = object(vec![]);
    let mut seen = [false; 2];
    for _ in 0..200 {
        match sample_union(&variants, Some(&node), &name("status"), &draw) {
            Ok(Value::Union(selected, Payload::NoPayload)) => match selected.as_str() {
                "Active" => seen[0] = true,
                "Inactive" => seen[1] = true,
                other => panic!("unexpected {}", other),
            },
            other => panic!("unexpected {:?}", other),
        }
    }
    assert_eq!(seen, [true, true]);
}

#[test]
fn union_selects_among_the_named_candidates() {
    let node = object(vec![entry("variants", names(&["Inactive"]))]);
    for _ in 0..50 {
        assert_eq!(
            sample_union(&status(), Some(&node), &name("status"), &draw),
            Ok(Value::Union(name("Inactive"), Payload::NoPayload))
        );
    }
}

#[test]
fn union_meets_an_unknown_name_only_when_it_selects_it() {
    let node = object(vec![entry("variants", names(&["Active", "Deleted"]))]);
    let mut seen = [false; 2];
    for _ in 0..200 {
        match sample_union(&status(), Some(&node), &name("status"), &draw) {
            Ok(v) => {
                assert_eq!(v, Value::Union(name("Active"), Payload::NoPayload));
                seen[0] = true;
            }
            Err(e) => {
                assert_eq!(e, error(SampleErrorKind::UnknownVariant, "Deleted"));
                seen[1] = true;
            }
        }
    }
    assert_eq!(seen, [true, true]);
}

#[test]
fn union_falls_back_to_the_declared_variants() {
    let variants = vec![Variant { name: name("Only"), payload: VariantShape::NoPayload }];
    for given in [names(&[]), ConfigNode::Array(vec![text("Other"), whole(1)]), text("Other"), ConfigNode::Null] {
        let node = object(vec![entry("variants", given)]);
        assert_eq!(
            sample_union(&variants, Some(&node), &name("u"), &draw),
            Ok(Value::Union(name("Only"), Payload::NoPayload))
        );
    }
}

#[test]
fn union_without_candidates_fails() {
    assert_eq!(
        sample_union(&vec![], Some(&object(vec![])), &name("u"), &draw),
        Err(error(SampleErrorKind::NoVariantsAvailable, "u"))
    );
    let node = object(vec![entry("variants", names(&[]))]);
    for _ in 0..20 {
        assert_eq!(
            sample_union(&vec![], Some(&node), &name("u"), &draw),
            Err(error(SampleErrorKind::NoVariantsAvailable, "u"))
        );
    }
    assert_eq!(
        sample(&Shape::Union(vec![]), &object(vec![]), &draw),
        Err(error(SampleErrorKind::NoVariantsAvailable, ""))
    );
}

#[test]
fn union_needs_an_object() {
    assert_eq!(
        sample_union(&status(), None, &name("status"), &draw),
        Err(error(SampleErrorKind::MissingConfig, "status"))
    );
    assert_eq!(
        sample_union(&status(), Some(&names(&["Active"])), &name("status"), &draw),
        Err(error(SampleErrorKind::WrongShape, "status"))
    );
}

#[test]
fn union_draws_positional_fields() {
    let variants = vec![Variant {
        name: name("Pair"),
        payload: VariantShape::PositionalFields(vec![
            Shape::Primitive(PrimitiveKind::Int(IntWidth::I32)),
            a_text(),
        ]),
    }];
    let node = object(vec![entry(
        "variant_data",
        object(vec![entry(
            "Pair",
            object(vec![
                entry("field0", ConfigNode::Array(vec![whole(4), whole(5)])),
                entry("field1", names(&["x"])),
            ]),
        )]),
    )]);
    assert_eq!(
        sample(&Shape::Union(variants), &node, &draw),
        Ok(Value::Union(
            name("Pair"),
            Payload::PositionalFields(vec![Value::Int(4), Value::Text(name("x"))])
        ))
    );
}
