use atspi_common::events::{ChildrenChangedEvent, TextCaretMovedEvent};
use atspi_common::message::{DispatchError, Event, IncomingMessage};
use atspi_common::object::{ObjectEventKind, ObjectEvents, OBJECT_INTERFACE, OBJECT_REGISTRY_TAG};
use atspi_common::value::{Accessible, DecodeError, EventBody, Value};

fn reference() -> Accessible {
    Accessible { name: ":1.9".to_string(), path: "/org/a11y/atspi/accessible/40".to_string() }
}

fn message(interface: &str, member: Option<&str>, body: EventBody) -> IncomingMessage {
    IncomingMessage {
        interface: interface.to_string(),
        member: member.map(|m| m.to_string()),
        sender: ":1.9".to_string(),
        path: "/org/a11y/atspi/accessible/2".to_string(),
        body,
    }
}

fn zero_body() -> EventBody {
    EventBody::new(String::new(), 0, 0, Value::U8(0))
}

#[test]
fn children_changed_message() {
    let body = EventBody::new("add".to_string(), 3, 0, Value::Accessible(reference()));
    let r = Event::try_from_message(message(OBJECT_INTERFACE, Some("ChildrenChanged"), body));
    let expected = ChildrenChangedEvent {
        item: Accessible {
            name: ":1.9".to_string(),
            path: "/org/a11y/atspi/accessible/2".to_string(),
        },
        operation: "add".to_string(),
        index_in_parent: 3,
        child: reference(),
    };
    assert_eq!(r, Ok(Event::Object(ObjectEvents::ChildrenChanged(expected))));
}

#[test]
fn every_member_reaches_its_event() {
    for kind in ObjectEventKind::all() {
        let body = EventBody::new("add".to_string(), 1, 2, Value::Accessible(reference()));
        let msg = message(OBJECT_INTERFACE, Some(kind.member()), body);
        match Event::try_from_message(msg) {
            Ok(Event::Object(ev)) => assert_eq!(ev.kind(), kind),
            Err(DispatchError::Decode(_)) => {
                assert!(matches!(kind, ObjectEventKind::PropertyChange | ObjectEventKind::TextChanged))
            }
            other => panic!("{:?} gave {:?}", kind, other),
        }
    }
}

#[test]
fn member_lookup_is_exact() {
    assert_eq!(ObjectEventKind::from_member("TextCaretMoved"), Some(ObjectEventKind::TextCaretMoved));
    assert_eq!(ObjectEventKind::from_member("textcaretmoved"), None);
    assert_eq!(ObjectEventKind::from_member("TextCaretMoved "), None);
    assert_eq!(ObjectEventKind::from_member(""), None);
    for kind in ObjectEventKind::all() {
        assert_eq!(ObjectEventKind::from_member(kind.member()), Some(kind));
    }
}

#[test]
fn unknown_interface() {
    let msg = message("org.a11y.atspi.Event.Window", Some("Minimize"), zero_body());
    assert_eq!(Event::try_from_message(msg), Err(DispatchError::UnknownInterface));
    let msg = message("org.a11y.atspi.Event.object", Some("BoundsChanged"), zero_body());
    assert_eq!(Event::try_from_message(msg), Err(DispatchError::UnknownInterface));
}

#[test]
fn unknown_member() {
    let msg = message(OBJECT_INTERFACE, Some("Minimize"), zero_body());
    assert_eq!(
        Event::try_from_message(msg),
        Err(DispatchError::UnknownMember(OBJECT_INTERFACE.to_string(), "Minimize".to_string()))
    );
}

#[test]
fn missing_member() {
    let msg = message(OBJECT_INTERFACE, None, zero_body());
    assert_eq!(Event::try_from_message(msg), Err(DispatchError::MissingMember));
}

#[test]
fn decode_error_is_returned() {
    let body = EventBody::new("add".to_string(), 0, 0, Value::I32(1));
    let msg = message(OBJECT_INTERFACE, Some("ActiveDescendantChanged"), body);
    assert_eq!(
        Event::try_from_message(msg),
        Err(DispatchError::Decode(DecodeError::PayloadShapeMismatch))
    );
}

#[test]
fn group_ignores_interface() {
    let msg = message("anything", Some("RowDeleted"), zero_body());
    assert!(matches!(ObjectEvents::try_from_message(msg), Ok(ObjectEvents::RowDeleted(_))));
}

#[test]
fn outgoing_message_round_trip() {
    let ev = ObjectEvents::TextCaretMoved(TextCaretMovedEvent { item: reference(), position: 11 });
    let out = Event::Object(ev.clone()).to_message();
    assert_eq!(out.interface, "org.a11y.atspi.Event.Object");
    assert_eq!(out.member, "TextCaretMoved");
    assert_eq!(out.path, "/org/a11y/atspi/accessible/40");
    assert_eq!(out.body.detail1, 11);
    let back = IncomingMessage {
        interface: out.interface,
        member: Some(out.member),
        sender: ev.item().name.clone(),
        path: out.path,
        body: out.body,
    };
    assert_eq!(Event::try_from_message(back), Ok(Event::Object(ev)));
}

#[test]
fn match_rules_and_tag() {
    assert_eq!(ObjectEvents::match_rule(), "type='signal',interface='org.a11y.atspi.Event.Object'");
    assert_eq!(
        ObjectEventKind::PropertyChange.match_rule(),
        "type='signal',interface='org.a11y.atspi.Event.Object',member='PropertyChange'"
    );
    for kind in ObjectEventKind::all() {
        let expected = format!(
            "type='signal',interface='org.a11y.atspi.Event.Object',member='{}'",
            kind.member()
        );
        assert_eq!(kind.match_rule(), expected);
    }
    assert_eq!(ObjectEvents::interface(), OBJECT_INTERFACE);
    assert_eq!(ObjectEvents::registry_tag(), "Object:");
    assert_eq!(OBJECT_REGISTRY_TAG, "Object:");
}
