use std::collections::hash_map::DefaultHasher;
use std::hash::{Hash, Hasher};

use atspi_common::events::PropertyChangeEvent;
use atspi_common::property::Property;
use atspi_common::role::{Role, LAST_ROLE_CODE};
use atspi_common::value::{Accessible, DecodeError, EventBody, Value};

fn item() -> Accessible {
    Accessible { name: ":1.42".to_string(), path: "/org/a11y/atspi/accessible/7".to_string() }
}

fn body(kind: &str, any_data: Value) -> EventBody {
    EventBody::new(kind.to_string(), 0, 0, any_data)
}

fn hash_of<T: Hash>(t: &T) -> u64 {
    let mut h = DefaultHasher::new();
    t.hash(&mut h);
    h.finish()
}

#[test]
fn unknown_key_keeps_payload() {
    let r = Property::try_from_body(body("unrecognized-key-xyz", Value::I64(-5)));
    assert_eq!(r, Ok(Property::Other(("unrecognized-key-xyz".to_string(), Value::I64(-5)))));
}

#[test]
fn unknown_key_keeps_opaque_payload() {
    let raw = zvariant::OwnedValue::from(zvariant::Value::F64(2.5));
    let r = Property::try_from_body(body("unrecognized-key-xyz", Value::Opaque(raw.clone())));
    assert_eq!(r, Ok(Property::Other(("unrecognized-key-xyz".to_string(), Value::Opaque(raw)))));
}

#[test]
fn opaque_value_survives_encoding() {
    let raw = zvariant::OwnedValue::from(zvariant::Value::F64(-0.25));
    let ev = PropertyChangeEvent {
        item: item(),
        property: "x-scale".to_string(),
        value: Property::Other(("x-scale".to_string(), Value::Opaque(raw.clone()))),
    };
    let b = ev.body();
    assert_eq!(b.kind, "x-scale");
    assert_eq!(b.any_data, Value::Opaque(raw));
    assert_eq!(PropertyChangeEvent::build(item(), b), Ok(ev));
}

#[test]
fn unknown_key_with_string_payload() {
    let r = Property::try_from_body(body("unrecognized-key-xyz", Value::Str("x".to_string())));
    assert_eq!(
        r,
        Ok(Property::Other(("unrecognized-key-xyz".to_string(), Value::Str("x".to_string()))))
    );
}

#[test]
fn name_with_integer_payload_fails() {
    let r = Property::try_from_body(body("accessible-name", Value::I32(3)));
    assert_eq!(r, Err(DecodeError::PropertyPayloadMismatch("accessible-name".to_string())));
}

#[test]
fn role_outside_range_fails() {
    let r = Property::try_from_body(body("accessible-role", Value::U32(LAST_ROLE_CODE + 1)));
    assert_eq!(r, Err(DecodeError::PropertyPayloadMismatch("accessible-role".to_string())));
    let r = Property::try_from_body(body("accessible-role", Value::U32(u32::MAX)));
    assert_eq!(r, Err(DecodeError::PropertyPayloadMismatch("accessible-role".to_string())));
}

#[test]
fn role_with_signed_payload_fails() {
    let r = Property::try_from_body(body("accessible-role", Value::I32(34)));
    assert_eq!(r, Err(DecodeError::PropertyPayloadMismatch("accessible-role".to_string())));
}

#[test]
fn parent_with_string_payload_fails() {
    let r = Property::try_from_body(body("accessible-parent", Value::Str(":1.1".to_string())));
    assert_eq!(r, Err(DecodeError::PropertyPayloadMismatch("accessible-parent".to_string())));
}

#[test]
fn role_34_decodes_and_encodes_back() {
    let b = EventBody {
        kind: "accessible-role".to_string(),
        detail1: 0,
        detail2: 0,
        any_data: Value::U32(34),
        properties: Vec::new(),
    };
    let ev = PropertyChangeEvent::build(item(), b).unwrap();
    assert_eq!(ev.value, Property::Role(Role::MenuBar));
    assert_eq!(ev.property, "accessible-role");
    let back = ev.body();
    assert_eq!(back.any_data, Value::U32(34));
    assert_eq!(back.kind, "accessible-role");
    assert!(back.properties.is_empty());
}

#[test]
fn each_known_property_decodes() {
    let s = |t: &str| Value::Str(t.to_string());
    let cases = vec![
        ("accessible-name", s("n"), Property::Name("n".to_string())),
        ("accessible-description", s("d"), Property::Description("d".to_string())),
        ("accessible-role", Value::U32(43), Property::Role(Role::PushButton)),
        ("accessible-parent", Value::Accessible(item()), Property::Parent(item())),
        ("accessible-table-caption", s("c"), Property::TableCaption("c".to_string())),
        ("table-column-description", s("cd"), Property::TableColumnDescription("cd".to_string())),
        ("table-column-header", s("ch"), Property::TableColumnHeader("ch".to_string())),
        ("table-row-description", s("rd"), Property::TableRowDescription("rd".to_string())),
        ("table-row-header", s("rh"), Property::TableRowHeader("rh".to_string())),
        ("table-summary", s("ts"), Property::TableSummary("ts".to_string())),
    ];
    for (key, data, expected) in cases {
        let got = Property::try_from_body(body(key, data.clone()));
        assert_eq!(got, Ok(expected.clone()), "{}", key);
        assert_eq!(expected.into_value(), data, "{}", key);
    }
}

#[test]
fn other_encodes_to_its_raw_value() {
    let p = Property::Other(("some-key".to_string(), Value::U16(9)));
    assert_eq!(p.into_value(), Value::U16(9));
}

#[test]
fn property_change_round_trip() {
    let ev = PropertyChangeEvent {
        item: item(),
        property: "accessible-description".to_string(),
        value: Property::Description("a button".to_string()),
    };
    assert_eq!(PropertyChangeEvent::build(item(), ev.body()), Ok(ev.clone()));
    let other = PropertyChangeEvent {
        item: item(),
        property: "x-custom".to_string(),
        value: Property::Other(("x-custom".to_string(), Value::Bool(true))),
    };
    assert_eq!(PropertyChangeEvent::build(item(), other.body()), Ok(other.clone()));
}

#[test]
fn property_change_decode_error_propagates() {
    let r = PropertyChangeEvent::build(item(), body("table-summary", Value::U8(1)));
    assert_eq!(r, Err(DecodeError::PropertyPayloadMismatch("table-summary".to_string())));
}

#[test]
fn hash_narrower_than_equality() {
    let a = PropertyChangeEvent {
        item: item(),
        property: "accessible-name".to_string(),
        value: Property::Name("a".to_string()),
    };
    let b = PropertyChangeEvent {
        item: item(),
        property: "accessible-name".to_string(),
        value: Property::Name("b".to_string()),
    };
    assert_ne!(a, b);
    assert_eq!(hash_of(&a), hash_of(&b));
    let c = PropertyChangeEvent { property: "accessible-description".to_string(), ..a.clone() };
    assert_ne!(hash_of(&a), hash_of(&c));
}

#[test]
fn property_defaults() {
    assert_eq!(Property::default(), Property::Other((String::new(), Value::U64(0))));
    let ev = PropertyChangeEvent::default();
    assert_eq!(ev.item, Accessible::default());
    assert_eq!(ev.item.name, ":0.0");
    assert_eq!(ev.item.path, "/org/a11y/atspi/accessible/null");
    assert_eq!(ev.property, "");
}

#[test]
fn role_codes() {
    assert_eq!(Role::from_code(0), Some(Role::Invalid));
    assert_eq!(Role::from_code(34), Some(Role::MenuBar));
    assert_eq!(Role::from_code(LAST_ROLE_CODE), Some(Role::PushButtonMenu));
    assert_eq!(Role::from_code(LAST_ROLE_CODE + 1), None);
    assert_eq!(Role::MenuBar.code(), 34);
    for c in 0..=LAST_ROLE_CODE {
        assert_eq!(Role::from_code(c).unwrap().code(), c);
    }
}
