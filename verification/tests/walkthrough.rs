use rand::Rng;
use samplify::{
    sample, ConfigNode, Entry, Field, FieldValue, IntWidth, Number, Payload, PrimitiveKind,
    SampleError, SampleErrorKind, Shape, Value, Variant, VariantShape,
};

fn draw(low: u64, high: u64) -> u64 {
    rand::thread_rng()
        .gen_range(f64::from_bits(low)..f64::from_bits(high))
        .to_bits()
}

fn name(s: &str) -> String {
    String::from(s)
}

fn whole(n: i64) -> ConfigNode {
    ConfigNode::Number(Number { as_integer: Some(n), as_float_bits: Some((n as f64).to_bits()) })
}

fn double(x: f64) -> ConfigNode {
    ConfigNode::Number(Number { as_integer: None, as_float_bits: Some(x.to_bits()) })
}

fn text(s: &str) -> ConfigNode {
    ConfigNode::Text(String::from(s))
}

fn names(items: &[&str]) -> ConfigNode {
    ConfigNode::Array(items.iter().map(|s| text(s)).collect())
}

fn entry(key: &str, node: ConfigNode) -> Entry {
    Entry { key: String::from(key), node }
}

fn field(key: &str, shape: Shape) -> Field {
    Field { name: String::from(key), shape }
}

fn a_text() -> Shape {
    Shape::Primitive(PrimitiveKind::Text)
}

fn status() -> Shape {
    Shape::Union(vec![
        Variant { name: name("Active"), payload: VariantShape::NoPayload },
        Variant { name: name("Inactive"), payload: VariantShape::NoPayload },
        Variant {
            name: name("Suspended"),
            payload: VariantShape::NamedFields(vec![field("reason", a_text())]),
        },
    ])
}

#[test]
fn transaction_has_a_currency_and_an_amount() {
    let shape = Shape::Record(vec![
        field("currency", a_text()),
        field("amount", Shape::Primitive(PrimitiveKind::Float)),
    ]);
    let config = ConfigNode::Object(vec![
        entry("amount", ConfigNode::Array(vec![double(10.0), double(1000.0)])),
        entry("currency", names(&["USD", "EUR", "GBP"])),
    ]);
    for _ in 0..300 {
        match sample(&shape, &config, &draw) {
            Ok(Value::Record(fields)) => {
                assert_eq!(fields.len(), 2);
                assert_eq!(fields[0].name, "currency");
                match &fields[0].value {
                    Value::Text(s) => assert!(s == "USD" || s == "EUR" || s == "GBP"),
                    other => panic!("unexpected {:?}", other),
                }
                assert_eq!(fields[1].name, "amount");
                match &fields[1].value {
                    Value::Float(bits) => {
                        let amount = f64::from_bits(*bits);
                        assert!(10.0 <= amount && amount < 1000.0);
                    }
                    other => panic!("unexpected {:?}", other),
                }
            }
            other => panic!("unexpected {:?}", other),
        }
    }
}

#[test]
fn suspended_is_the_only_candidate() {
    let config = ConfigNode::Object(vec![
        entry("variants", names(&["Suspended"])),
        entry(
            "variant_data",
            ConfigNode::Object(vec![entry(
                "Suspended",
                ConfigNode::Object(vec![entry("reason", names(&["Violation"]))]),
            )]),
        ),
    ]);
    for _ in 0..100 {
        assert_eq!(
            sample(&status(), &config, &draw),
            Ok(Value::Union(
                name("Suspended"),
                Payload::NamedFields(vec![FieldValue {
                    name: name("reason"),
                    value: Value::Text(name("Violation")),
                }])
            ))
        );
    }
}

#[test]
fn missing_name_is_reported() {
    let shape = Shape::Record(vec![field("name", a_text())]);
    assert_eq!(
        sample(&shape, &ConfigNode::Object(vec![]), &draw),
        Err(SampleError { kind: SampleErrorKind::MissingConfig, path: name("name") })
    );
}

#[test]
fn preferences_are_a_subset_without_repeats() {
    let shape = Shape::Record(vec![field("preferences", Shape::Sequence(Box::new(a_text())))]);
    let config = ConfigNode::Object(vec![entry(
        "preferences",
        names(&["news", "updates", "offers", "events"]),
    )]);
    let mut smaller = false;
    for _ in 0..300 {
        match sample(&shape, &config, &draw) {
            Ok(Value::Record(fields)) => match &fields[0].value {
                Value::Sequence(values) => {
                    assert!(1 <= values.len() && values.len() <= 4);
                    smaller = smaller || values.len() < 4;
                    for (j, v) in values.iter().enumerate() {
                        match v {
                            Value::Text(s) => assert!(
                                s == "news" || s == "updates" || s == "offers" || s == "events"
                            ),
                            other => panic!("unexpected {:?}", other),
                        }
                        assert!(!values[..j].contains(v));
                    }
                }
                other => panic!("unexpected {:?}", other),
            },
            other => panic!("unexpected {:?}", other),
        }
    }
    assert!(smaller);
}

#[test]
fn user_is_sampled_whole() {
    let email = Shape::Record(vec![field("account", a_text()), field("domain", a_text())]);
    let address = Shape::Record(vec![
        field("street", a_text()),
        field("city", a_text()),
        field("zipcode", a_text()),
    ]);
    let user = Shape::Record(vec![
        field("name", a_text()),
        field("age", Shape::Primitive(PrimitiveKind::Int(IntWidth::U32))),
        field("address", Shape::Sequence(Box::new(address))),
        field("email", Shape::Optional(Box::new(Shape::Indirect(Box::new(email))))),
        field("preferences", Shape::Sequence(Box::new(a_text()))),
        field("status", status()),
    ]);
    let config = ConfigNode::Object(vec![
        entry("name", names(&["Alice", "Bob", "Charlie"])),
        entry("age", ConfigNode::Array(vec![whole(18), whole(65)])),
        entry(
            "address",
            ConfigNode::Array(vec![
                ConfigNode::Object(vec![
                    entry("street", names(&["123 Main St", "456 Elm St"])),
                    entry("city", names(&["New York", "Los Angeles"])),
                    entry("zipcode", names(&["10001", "90001"])),
                ]),
                ConfigNode::Object(vec![
                    entry("street", names(&["789 Oak St", "321 Pine St"])),
                    entry("city", names(&["Chicago", "San Francisco"])),
                    entry("zipcode", names(&["60601", "94101"])),
                ]),
            ]),
        ),
        entry(
            "email",
            ConfigNode::Object(vec![
                entry("account", names(&["hari", "shankar", "harishankar"])),
                entry("domain", names(&["gmail.com", "hotmail.com"])),
            ]),
        ),
        entry("preferences", names(&["news", "updates", "offers", "events"])),
        entry(
            "status",
            ConfigNode::Object(vec![
                entry("variants", names(&["Active", "Inactive", "Suspended"])),
                entry(
                    "variant_data",
                    ConfigNode::Object(vec![entry(
                        "Suspended",
                        ConfigNode::Object(vec![entry(
                            "reason",
                            names(&["Violation", "Payment Issue", "Other"]),
                        )]),
                    )]),
                ),
            ]),
        ),
    ]);
    for _ in 0..100 {
        match sample(&user, &config, &draw) {
            Ok(Value::Record(fields)) => {
                let keys: Vec<&str> = fields.iter().map(|f| f.name.as_str()).collect();
                assert_eq!(keys, vec!["name", "age", "address", "email", "preferences", "status"]);
                assert!(matches!(&fields[1].value, Value::Int(age) if 18 <= *age && *age < 65));
                assert!(matches!(&fields[2].value, Value::Sequence(rows) if rows.len() == 2));
                assert!(matches!(&fields[3].value, Value::Optional(Some(_))));
                match &fields[5].value {
                    Value::Union(selected, Payload::NoPayload) => {
                        assert!(selected == "Active" || selected == "Inactive")
                    }
                    Value::Union(selected, Payload::NamedFields(reason)) => {
                        assert_eq!(selected, "Suspended");
                        assert_eq!(reason.len(), 1);
                    }
                    other => panic!("unexpected {:?}", other),
                }
            }
            other => panic!("unexpected {:?}", other),
        }
    }
}
