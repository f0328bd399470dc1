use atspi_common::events::{
    ActiveDescendantChangedEvent, AnnouncementEvent, AttributesChangedEvent, BoundsChangedEvent,
    ChildrenChangedEvent, ColumnDeletedEvent, ColumnInsertedEvent, ColumnReorderedEvent,
    LinkSelectedEvent, ModelChangedEvent, PropertyChangeEvent, RowDeletedEvent, RowInsertedEvent,
    RowReorderedEvent, SelectionChangedEvent, StateChangedEvent, TextAttributesChangedEvent,
    TextBoundsChangedEvent, TextCaretMovedEvent, TextChangedEvent, TextSelectionChangedEvent,
    VisibleDataChangedEvent,
};
use atspi_common::object::{ObjectEventKind, ObjectEvents};
use atspi_common::property::Property;
use atspi_common::state::State;
use atspi_common::text::str_eq;
use atspi_common::value::{Accessible, DecodeError, EventBody, Value};

fn item() -> Accessible {
    Accessible { name: ":1.7".to_string(), path: "/org/a11y/atspi/accessible/12".to_string() }
}

fn child() -> Accessible {
    Accessible { name: ":1.7".to_string(), path: "/org/a11y/atspi/accessible/13".to_string() }
}

fn samples() -> Vec<ObjectEvents> {
    let i = item;
    vec![
        ObjectEvents::PropertyChange(PropertyChangeEvent {
            item: i(),
            property: "accessible-parent".to_string(),
            value: Property::Parent(child()),
        }),
        ObjectEvents::BoundsChanged(BoundsChangedEvent { item: i() }),
        ObjectEvents::LinkSelected(LinkSelectedEvent { item: i() }),
        ObjectEvents::StateChanged(StateChangedEvent { item: i(), state: State::Focused, enabled: 1 }),
        ObjectEvents::ChildrenChanged(ChildrenChangedEvent {
            item: i(),
            operation: "remove".to_string(),
            index_in_parent: -1,
            child: child(),
        }),
        ObjectEvents::VisibleDataChanged(VisibleDataChangedEvent { item: i() }),
        ObjectEvents::SelectionChanged(SelectionChangedEvent { item: i() }),
        ObjectEvents::ModelChanged(ModelChangedEvent { item: i() }),
        ObjectEvents::ActiveDescendantChanged(ActiveDescendantChangedEvent { item: i(), child: child() }),
        ObjectEvents::Announcement(AnnouncementEvent { item: i(), text: "Saved".to_string() }),
        ObjectEvents::AttributesChanged(AttributesChangedEvent { item: i() }),
        ObjectEvents::RowInserted(RowInsertedEvent { item: i() }),
        ObjectEvents::RowReordered(RowReorderedEvent { item: i() }),
        ObjectEvents::RowDeleted(RowDeletedEvent { item: i() }),
        ObjectEvents::ColumnInserted(ColumnInsertedEvent { item: i() }),
        ObjectEvents::ColumnReordered(ColumnReorderedEvent { item: i() }),
        ObjectEvents::ColumnDeleted(ColumnDeletedEvent { item: i() }),
        ObjectEvents::TextBoundsChanged(TextBoundsChangedEvent { item: i() }),
        ObjectEvents::TextSelectionChanged(TextSelectionChangedEvent { item: i() }),
        ObjectEvents::TextChanged(TextChangedEvent {
            item: i(),
            operation: "insert/system".to_string(),
            start_pos: 4,
            length: 5,
            text: "hello".to_string(),
        }),
        ObjectEvents::TextAttributesChanged(TextAttributesChangedEvent { item: i() }),
        ObjectEvents::TextCaretMoved(TextCaretMovedEvent { item: i(), position: i32::MAX }),
    ]
}

#[test]
fn every_variant_round_trips() {
    let all = samples();
    assert_eq!(all.len(), ObjectEventKind::all().len());
    for ev in all {
        let body = ev.body();
        assert!(body.properties.is_empty());
        let back = ObjectEvents::decode(ev.kind(), ev.item().clone(), body);
        assert_eq!(back, Ok(ev.clone()));
    }
}

#[test]
fn every_kind_has_a_sample() {
    let kinds: Vec<ObjectEventKind> = samples().iter().map(|e| e.kind()).collect();
    assert_eq!(kinds, ObjectEventKind::all());
}

#[test]
fn every_state_round_trips() {
    let all = [
        State::Invalid, State::Active, State::Armed, State::Busy, State::Checked,
        State::Collapsed, State::Defunct, State::Editable, State::Enabled, State::Expandable,
        State::Expanded, State::Focusable, State::Focused, State::HasTooltip, State::Horizontal,
        State::Iconified, State::Modal, State::MultiLine, State::Multiselectable, State::Opaque,
        State::Pressed, State::Resizable, State::Selectable, State::Selected, State::Sensitive,
        State::Showing, State::SingleLine, State::Stale, State::Transient, State::Vertical,
        State::Visible, State::ManagesDescendants, State::Indeterminate, State::Required,
        State::Truncated, State::Animated, State::InvalidEntry, State::SupportsAutocompletion,
        State::SelectableText, State::IsDefault, State::Visited, State::Checkable,
        State::HasPopup, State::ReadOnly,
    ];
    for s in all {
        let ev = StateChangedEvent { item: item(), state: s, enabled: 0 };
        assert_eq!(StateChangedEvent::build(item(), ev.body()), Ok(ev.clone()));
    }
}

#[test]
fn state_names() {
    assert_eq!(State::Focused.name(), "focused");
    assert_eq!(State::HasTooltip.name(), "has-tooltip");
    assert_eq!(State::from_name("read-only"), State::ReadOnly);
    assert_eq!(State::from_name("no-such-state"), State::Invalid);
    assert_eq!(State::from_name("Focused"), State::Invalid);
    assert_eq!(State::from_name(""), State::Invalid);
}

#[test]
fn state_changed_reads_kind_and_detail1() {
    let b = EventBody::new("checked".to_string(), 1, 77, Value::I32(5));
    let ev = StateChangedEvent::build(item(), b).unwrap();
    assert_eq!(ev, StateChangedEvent { item: item(), state: State::Checked, enabled: 1 });
}

#[test]
fn state_changed_body_fields() {
    let ev = StateChangedEvent { item: item(), state: State::Visible, enabled: 1 };
    let b = ev.body();
    assert_eq!(b.kind, "visible");
    assert_eq!(b.detail1, 1);
    assert_eq!(b.detail2, 0);
    assert_eq!(b.any_data, Value::U8(0));
}

#[test]
fn children_changed_add() {
    let b = EventBody::new("add".to_string(), 3, 0, Value::Accessible(child()));
    let ev = ChildrenChangedEvent::build(item(), b).unwrap();
    assert_eq!(ev.operation, "add");
    assert_eq!(ev.index_in_parent, 3);
    assert_eq!(ev.child, child());
    assert_eq!(ev.item, item());
}

#[test]
fn children_changed_needs_a_reference() {
    let b = EventBody::new("add".to_string(), 3, 0, Value::Str(":1.7".to_string()));
    assert_eq!(ChildrenChangedEvent::build(item(), b), Err(DecodeError::PayloadShapeMismatch));
}

#[test]
fn active_descendant_needs_a_reference() {
    let b = EventBody::new(String::new(), 0, 0, Value::ObjectPath("/a".to_string()));
    assert_eq!(
        ActiveDescendantChangedEvent::build(item(), b),
        Err(DecodeError::PayloadShapeMismatch)
    );
}

#[test]
fn text_changed_fields() {
    let b = EventBody::new("delete".to_string(), 2, 3, Value::Str("abc".to_string()));
    let ev = TextChangedEvent::build(item(), b).unwrap();
    assert_eq!(
        ev,
        TextChangedEvent {
            item: item(),
            operation: "delete".to_string(),
            start_pos: 2,
            length: 3,
            text: "abc".to_string(),
        }
    );
    let out = ev.body();
    assert_eq!((out.kind.as_str(), out.detail1, out.detail2), ("delete", 2, 3));
    assert_eq!(out.any_data, Value::Str("abc".to_string()));
}

#[test]
fn text_changed_needs_text() {
    let b = EventBody::new("insert".to_string(), 0, 1, Value::U32(65));
    assert_eq!(TextChangedEvent::build(item(), b), Err(DecodeError::PayloadShapeMismatch));
}

#[test]
fn unused_fields_are_ignored() {
    let mut b = EventBody::new("anything".to_string(), 9, 9, Value::Bool(false));
    b.properties.push(("k".to_string(), Value::U8(1)));
    assert_eq!(RowInsertedEvent::build(item(), b), Ok(RowInsertedEvent { item: item() }));
    let b = EventBody::new("x".to_string(), 17, 4, Value::Str("y".to_string()));
    assert_eq!(
        TextCaretMovedEvent::build(item(), b),
        Ok(TextCaretMovedEvent { item: item(), position: 17 })
    );
    let b = EventBody::new("Hello there".to_string(), 1, 2, Value::U8(0));
    assert_eq!(
        AnnouncementEvent::build(item(), b),
        Ok(AnnouncementEvent { item: item(), text: "Hello there".to_string() })
    );
}

#[test]
fn plain_body_is_zero_filled() {
    let b = ColumnDeletedEvent { item: item() }.body();
    assert_eq!(b, EventBody::new(String::new(), 0, 0, Value::U8(0)));
}

#[test]
fn sender_and_path() {
    let ev = LinkSelectedEvent { item: item() };
    assert_eq!(ev.sender(), ":1.7");
    assert_eq!(ev.path(), "/org/a11y/atspi/accessible/12");
    let ev = TextChangedEvent { item: child(), ..Default::default() };
    assert_eq!(ev.path(), "/org/a11y/atspi/accessible/13");
}

#[test]
fn string_comparison() {
    assert!(str_eq("", ""));
    assert!(str_eq("accessible-name", "accessible-name"));
    assert!(!str_eq("accessible-name", "accessible-names"));
    assert!(!str_eq("abc", "abd"));
    assert!(str_eq("ünï", "ünï"));
    assert!(!str_eq("ü", "u"));
}
