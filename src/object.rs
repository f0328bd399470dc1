use crate::events::{
    PropertyChangeEvent,
    BoundsChangedEvent,
    LinkSelectedEvent,
    StateChangedEvent,
    ChildrenChangedEvent,
    VisibleDataChangedEvent,
    SelectionChangedEvent,
    ModelChangedEvent,
    ActiveDescendantChangedEvent,
    AnnouncementEvent,
    AttributesChangedEvent,
    RowInsertedEvent,
    RowReorderedEvent,
    RowDeletedEvent,
    ColumnInsertedEvent,
    ColumnReorderedEvent,
    ColumnDeletedEvent,
    TextBoundsChangedEvent,
    TextSelectionChangedEvent,
    TextChangedEvent,
    TextAttributesChangedEvent,
    TextCaretMovedEvent,
};
use crate::property::lemma_property_round_trip;
use crate::state::lemma_state_name_round_trip;
use crate::text::{name_key, str_eq};
use crate::value::{Accessible, DecodeError, EventBody};
use vstd::prelude::*;

verus! {

/// The bus interface of the object events.
pub const OBJECT_INTERFACE: &'static str = "org.a11y.atspi.Event.Object";

/// The short tag under which a registry files listeners of the object events.
pub const OBJECT_REGISTRY_TAG: &'static str = "Object:";

/// The bus filter that selects every signal of an interface.
pub open spec fn interface_match_rule(interface: Seq<char>) -> Seq<char> {
    "type='signal',interface='"@ + interface + "'"@
}

/// The bus filter that selects the signals of one member of an interface.
pub open spec fn member_match_rule(interface: Seq<char>, member: Seq<char>) -> Seq<char> {
    "type='signal',interface='"@ + interface + "',member='"@ + member + "'"@
}

/// The events of the object interface, by member name, without their fields.
#[derive(Clone, Copy, Debug, PartialEq, Eq, Hash)]
pub enum ObjectEventKind {
    PropertyChange,
    BoundsChanged,
    LinkSelected,
    StateChanged,
    ChildrenChanged,
    VisibleDataChanged,
    SelectionChanged,
    ModelChanged,
    ActiveDescendantChanged,
    Announcement,
    AttributesChanged,
    RowInserted,
    RowReordered,
    RowDeleted,
    ColumnInserted,
    ColumnReordered,
    ColumnDeleted,
    TextBoundsChanged,
    TextSelectionChanged,
    TextChanged,
    TextAttributesChanged,
    TextCaretMoved,
}

impl ObjectEventKind {
    /// The member name of the event on the bus.
    pub open spec fn spec_member(self) -> Seq<char> {
        match self {
            ObjectEventKind::PropertyChange => "PropertyChange"@,
            ObjectEventKind::BoundsChanged => "BoundsChanged"@,
            ObjectEventKind::LinkSelected => "LinkSelected"@,
            ObjectEventKind::StateChanged => "StateChanged"@,
            ObjectEventKind::ChildrenChanged => "ChildrenChanged"@,
            ObjectEventKind::VisibleDataChanged => "VisibleDataChanged"@,
            ObjectEventKind::SelectionChanged => "SelectionChanged"@,
            ObjectEventKind::ModelChanged => "ModelChanged"@,
            ObjectEventKind::ActiveDescendantChanged => "ActiveDescendantChanged"@,
            ObjectEventKind::Announcement => "Announcement"@,
            ObjectEventKind::AttributesChanged => "AttributesChanged"@,
            ObjectEventKind::RowInserted => "RowInserted"@,
            ObjectEventKind::RowReordered => "RowReordered"@,
            ObjectEventKind::RowDeleted => "RowDeleted"@,
            ObjectEventKind::ColumnInserted => "ColumnInserted"@,
            ObjectEventKind::ColumnReordered => "ColumnReordered"@,
            ObjectEventKind::ColumnDeleted => "ColumnDeleted"@,
            ObjectEventKind::TextBoundsChanged => "TextBoundsChanged"@,
            ObjectEventKind::TextSelectionChanged => "TextSelectionChanged"@,
            ObjectEventKind::TextChanged => "TextChanged"@,
            ObjectEventKind::TextAttributesChanged => "TextAttributesChanged"@,
            ObjectEventKind::TextCaretMoved => "TextCaretMoved"@,
        }
    }

    /// The event that a member name stands for, if any; names are matched
    /// exactly, case included.
    pub open spec fn of_member(member: Seq<char>) -> Option<ObjectEventKind> {
        if member == "PropertyChange"@ {
            Some(ObjectEventKind::PropertyChange)
        } else if member == "BoundsChanged"@ {
            Some(ObjectEventKind::BoundsChanged)
        } else if member == "LinkSelected"@ {
            Some(ObjectEventKind::LinkSelected)
        } else if member == "StateChanged"@ {
            Some(ObjectEventKind::StateChanged)
        } else if member == "ChildrenChanged"@ {
            Some(ObjectEventKind::ChildrenChanged)
        } else if member == "VisibleDataChanged"@ {
            Some(ObjectEventKind::VisibleDataChanged)
        } else if member == "SelectionChanged"@ {
            Some(ObjectEventKind::SelectionChanged)
        } else if member == "ModelChanged"@ {
            Some(ObjectEventKind::ModelChanged)
        } else if member == "ActiveDescendantChanged"@ {
            Some(ObjectEventKind::ActiveDescendantChanged)
        } else if member == "Announcement"@ {
            Some(ObjectEventKind::Announcement)
        } else if member == "AttributesChanged"@ {
            Some(ObjectEventKind::AttributesChanged)
        } else if member == "RowInserted"@ {
            Some(ObjectEventKind::RowInserted)
        } else if member == "RowReordered"@ {
            Some(ObjectEventKind::RowReordered)
        } else if member == "RowDeleted"@ {
            Some(ObjectEventKind::RowDeleted)
        } else if member == "ColumnInserted"@ {
            Some(ObjectEventKind::ColumnInserted)
        } else if member == "ColumnReordered"@ {
            Some(ObjectEventKind::ColumnReordered)
        } else if member == "ColumnDeleted"@ {
            Some(ObjectEventKind::ColumnDeleted)
        } else if member == "TextBoundsChanged"@ {
            Some(ObjectEventKind::TextBoundsChanged)
        } else if member == "TextSelectionChanged"@ {
            Some(ObjectEventKind::TextSelectionChanged)
        } else if member == "TextChanged"@ {
            Some(ObjectEventKind::TextChanged)
        } else if member == "TextAttributesChanged"@ {
            Some(ObjectEventKind::TextAttributesChanged)
        } else if member == "TextCaretMoved"@ {
            Some(ObjectEventKind::TextCaretMoved)
        } else {
            None
        }
    }

    /// The member name of the event on the bus.
    pub fn member(&self) -> (r: &'static str)
        ensures
            r@ == self.spec_member(),
    {
        match self {
            ObjectEventKind::PropertyChange => "PropertyChange",
            ObjectEventKind::BoundsChanged => "BoundsChanged",
            ObjectEventKind::LinkSelected => "LinkSelected",
            ObjectEventKind::StateChanged => "StateChanged",
            ObjectEventKind::ChildrenChanged => "ChildrenChanged",
            ObjectEventKind::VisibleDataChanged => "VisibleDataChanged",
            ObjectEventKind::SelectionChanged => "SelectionChanged",
            ObjectEventKind::ModelChanged => "ModelChanged",
            ObjectEventKind::ActiveDescendantChanged => "ActiveDescendantChanged",
            ObjectEventKind::Announcement => "Announcement",
            ObjectEventKind::AttributesChanged => "AttributesChanged",
            ObjectEventKind::RowInserted => "RowInserted",
            ObjectEventKind::RowReordered => "RowReordered",
            ObjectEventKind::RowDeleted => "RowDeleted",
            ObjectEventKind::ColumnInserted => "ColumnInserted",
            ObjectEventKind::ColumnReordered => "ColumnReordered",
            ObjectEventKind::ColumnDeleted => "ColumnDeleted",
            ObjectEventKind::TextBoundsChanged => "TextBoundsChanged",
            ObjectEventKind::TextSelectionChanged => "TextSelectionChanged",
            ObjectEventKind::TextChanged => "TextChanged",
            ObjectEventKind::TextAttributesChanged => "TextAttributesChanged",
            ObjectEventKind::TextCaretMoved => "TextCaretMoved",
        }
    }

    /// The event that a member name stands for, if any.
    pub fn from_member(member: &str) -> (r: Option<ObjectEventKind>)
        ensures
            r == ObjectEventKind::of_member(member@),
    {
        if str_eq(member, "PropertyChange") {
            Some(ObjectEventKind::PropertyChange)
        } else if str_eq(member, "BoundsChanged") {
            Some(ObjectEventKind::BoundsChanged)
        } else if str_eq(member, "LinkSelected") {
            Some(ObjectEventKind::LinkSelected)
        } else if str_eq(member, "StateChanged") {
            Some(ObjectEventKind::StateChanged)
        } else if str_eq(member, "ChildrenChanged") {
            Some(ObjectEventKind::ChildrenChanged)
        } else if str_eq(member, "VisibleDataChanged") {
            Some(ObjectEventKind::VisibleDataChanged)
        } else if str_eq(member, "SelectionChanged") {
            Some(ObjectEventKind::SelectionChanged)
        } else if str_eq(member, "ModelChanged") {
            Some(ObjectEventKind::ModelChanged)
        } else if str_eq(member, "ActiveDescendantChanged") {
            Some(ObjectEventKind::ActiveDescendantChanged)
        } else if str_eq(member, "Announcement") {
            Some(ObjectEventKind::Announcement)
        } else if str_eq(member, "AttributesChanged") {
            Some(ObjectEventKind::AttributesChanged)
        } else if str_eq(member, "RowInserted") {
            Some(ObjectEventKind::RowInserted)
        } else if str_eq(member, "RowReordered") {
            Some(ObjectEventKind::RowReordered)
        } else if str_eq(member, "RowDeleted") {
            Some(ObjectEventKind::RowDeleted)
        } else if str_eq(member, "ColumnInserted") {
            Some(ObjectEventKind::ColumnInserted)
        } else if str_eq(member, "ColumnReordered") {
            Some(ObjectEventKind::ColumnReordered)
        } else if str_eq(member, "ColumnDeleted") {
            Some(ObjectEventKind::ColumnDeleted)
        } else if str_eq(member, "TextBoundsChanged") {
            Some(ObjectEventKind::TextBoundsChanged)
        } else if str_eq(member, "TextSelectionChanged") {
            Some(ObjectEventKind::TextSelectionChanged)
        } else if str_eq(member, "TextChanged") {
            Some(ObjectEventKind::TextChanged)
        } else if str_eq(member, "TextAttributesChanged") {
            Some(ObjectEventKind::TextAttributesChanged)
        } else if str_eq(member, "TextCaretMoved") {
            Some(ObjectEventKind::TextCaretMoved)
        } else {
            None
        }
    }

    /// The bus filter that selects the signals of this event only.
    pub fn match_rule(&self) -> (r: &'static str)
        ensures
            r@ == member_match_rule(OBJECT_INTERFACE@, self.spec_member()),
    {
        let rule = match self {
            ObjectEventKind::PropertyChange => "type='signal',interface='org.a11y.atspi.Event.Object',member='PropertyChange'",
            ObjectEventKind::BoundsChanged => "type='signal',interface='org.a11y.atspi.Event.Object',member='BoundsChanged'",
            ObjectEventKind::LinkSelected => "type='signal',interface='org.a11y.atspi.Event.Object',member='LinkSelected'",
            ObjectEventKind::StateChanged => "type='signal',interface='org.a11y.atspi.Event.Object',member='StateChanged'",
            ObjectEventKind::ChildrenChanged => "type='signal',interface='org.a11y.atspi.Event.Object',member='ChildrenChanged'",
            ObjectEventKind::VisibleDataChanged => "type='signal',interface='org.a11y.atspi.Event.Object',member='VisibleDataChanged'",
            ObjectEventKind::SelectionChanged => "type='signal',interface='org.a11y.atspi.Event.Object',member='SelectionChanged'",
            ObjectEventKind::ModelChanged => "type='signal',interface='org.a11y.atspi.Event.Object',member='ModelChanged'",
            ObjectEventKind::ActiveDescendantChanged => "type='signal',interface='org.a11y.atspi.Event.Object',member='ActiveDescendantChanged'",
            ObjectEventKind::Announcement => "type='signal',interface='org.a11y.atspi.Event.Object',member='Announcement'",
            ObjectEventKind::AttributesChanged => "type='signal',interface='org.a11y.atspi.Event.Object',member='AttributesChanged'",
            ObjectEventKind::RowInserted => "type='signal',interface='org.a11y.atspi.Event.Object',member='RowInserted'",
            ObjectEventKind::RowReordered => "type='signal',interface='org.a11y.atspi.Event.Object',member='RowReordered'",
            ObjectEventKind::RowDeleted => "type='signal',interface='org.a11y.atspi.Event.Object',member='RowDeleted'",
            ObjectEventKind::ColumnInserted => "type='signal',interface='org.a11y.atspi.Event.Object',member='ColumnInserted'",
            ObjectEventKind::ColumnReordered => "type='signal',interface='org.a11y.atspi.Event.Object',member='ColumnReordered'",
            ObjectEventKind::ColumnDeleted => "type='signal',interface='org.a11y.atspi.Event.Object',member='ColumnDeleted'",
            ObjectEventKind::TextBoundsChanged => "type='signal',interface='org.a11y.atspi.Event.Object',member='TextBoundsChanged'",
            ObjectEventKind::TextSelectionChanged => "type='signal',interface='org.a11y.atspi.Event.Object',member='TextSelectionChanged'",
            ObjectEventKind::TextChanged => "type='signal',interface='org.a11y.atspi.Event.Object',member='TextChanged'",
            ObjectEventKind::TextAttributesChanged => "type='signal',interface='org.a11y.atspi.Event.Object',member='TextAttributesChanged'",
            ObjectEventKind::TextCaretMoved => "type='signal',interface='org.a11y.atspi.Event.Object',member='TextCaretMoved'",
        };
        proof {
            reveal_strlit("type='signal',interface='");
            reveal_strlit("org.a11y.atspi.Event.Object");
            reveal_strlit("',member='");
            reveal_strlit("'");
            reveal_strlit("PropertyChange");
            reveal_strlit("type='signal',interface='org.a11y.atspi.Event.Object',member='PropertyChange'");
            reveal_strlit("BoundsChanged");
            reveal_strlit("type='signal',interface='org.a11y.atspi.Event.Object',member='BoundsChanged'");
            reveal_strlit("LinkSelected");
            reveal_strlit("type='signal',interface='org.a11y.atspi.Event.Object',member='LinkSelected'");
            reveal_strlit("StateChanged");
            reveal_strlit("type='signal',interface='org.a11y.atspi.Event.Object',member='StateChanged'");
            reveal_strlit("ChildrenChanged");
            reveal_strlit("type='signal',interface='org.a11y.atspi.Event.Object',member='ChildrenChanged'");
            reveal_strlit("VisibleDataChanged");
            reveal_strlit("type='signal',interface='org.a11y.atspi.Event.Object',member='VisibleDataChanged'");
            reveal_strlit("SelectionChanged");
            reveal_strlit("type='signal',interface='org.a11y.atspi.Event.Object',member='SelectionChanged'");
            reveal_strlit("ModelChanged");
            reveal_strlit("type='signal',interface='org.a11y.atspi.Event.Object',member='ModelChanged'");
            reveal_strlit("ActiveDescendantChanged");
            reveal_strlit("type='signal',interface='org.a11y.atspi.Event.Object',member='ActiveDescendantChanged'");
            reveal_strlit("Announcement");
            reveal_strlit("type='signal',interface='org.a11y.atspi.Event.Object',member='Announcement'");
            reveal_strlit("AttributesChanged");
            reveal_strlit("type='signal',interface='org.a11y.atspi.Event.Object',member='AttributesChanged'");
            reveal_strlit("RowInserted");
            reveal_strlit("type='signal',interface='org.a11y.atspi.Event.Object',member='RowInserted'");
            reveal_strlit("RowReordered");
            reveal_strlit("type='signal',interface='org.a11y.atspi.Event.Object',member='RowReordered'");
            reveal_strlit("RowDeleted");
            reveal_strlit("type='signal',interface='org.a11y.atspi.Event.Object',member='RowDeleted'");
            reveal_strlit("ColumnInserted");
            reveal_strlit("type='signal',interface='org.a11y.atspi.Event.Object',member='ColumnInserted'");
            reveal_strlit("ColumnReordered");
            reveal_strlit("type='signal',interface='org.a11y.atspi.Event.Object',member='ColumnReordered'");
            reveal_strlit("ColumnDeleted");
            reveal_strlit("type='signal',interface='org.a11y.atspi.Event.Object',member='ColumnDeleted'");
            reveal_strlit("TextBoundsChanged");
            reveal_strlit("type='signal',interface='org.a11y.atspi.Event.Object',member='TextBoundsChanged'");
            reveal_strlit("TextSelectionChanged");
            reveal_strlit("type='signal',interface='org.a11y.atspi.Event.Object',member='TextSelectionChanged'");
            reveal_strlit("TextChanged");
            reveal_strlit("type='signal',interface='org.a11y.atspi.Event.Object',member='TextChanged'");
            reveal_strlit("TextAttributesChanged");
            reveal_strlit("type='signal',interface='org.a11y.atspi.Event.Object',member='TextAttributesChanged'");
            reveal_strlit("TextCaretMoved");
            reveal_strlit("type='signal',interface='org.a11y.atspi.Event.Object',member='TextCaretMoved'");
        }
        assert(rule@ =~= member_match_rule(OBJECT_INTERFACE@, self.spec_member()));
        rule
    }

    /// Every kind of event, each once, in the order of the member table.
    pub fn all() -> (r: Vec<ObjectEventKind>)
        ensures
            r@.len() == 22,
            forall|k: ObjectEventKind| r@.contains(k),
            r@.no_duplicates(),
    {
        let r = vec![ObjectEventKind::PropertyChange, ObjectEventKind::BoundsChanged, ObjectEventKind::LinkSelected, ObjectEventKind::StateChanged, ObjectEventKind::ChildrenChanged, ObjectEventKind::VisibleDataChanged, ObjectEventKind::SelectionChanged, ObjectEventKind::ModelChanged, ObjectEventKind::ActiveDescendantChanged, ObjectEventKind::Announcement, ObjectEventKind::AttributesChanged, ObjectEventKind::RowInserted, ObjectEventKind::RowReordered, ObjectEventKind::RowDeleted, ObjectEventKind::ColumnInserted, ObjectEventKind::ColumnReordered, ObjectEventKind::ColumnDeleted, ObjectEventKind::TextBoundsChanged, ObjectEventKind::TextSelectionChanged, ObjectEventKind::TextChanged, ObjectEventKind::TextAttributesChanged, ObjectEventKind::TextCaretMoved];
        assert(forall|k: ObjectEventKind| r@.contains(k)) by {
            assert forall|k: ObjectEventKind| r@.contains(k) by {
                match k {
                    ObjectEventKind::PropertyChange => assert(r@[0] == k),
                    ObjectEventKind::BoundsChanged => assert(r@[1] == k),
                    ObjectEventKind::LinkSelected => assert(r@[2] == k),
                    ObjectEventKind::StateChanged => assert(r@[3] == k),
                    ObjectEventKind::ChildrenChanged => assert(r@[4] == k),
                    ObjectEventKind::VisibleDataChanged => assert(r@[5] == k),
                    ObjectEventKind::SelectionChanged => assert(r@[6] == k),
                    ObjectEventKind::ModelChanged => assert(r@[7] == k),
                    ObjectEventKind::ActiveDescendantChanged => assert(r@[8] == k),
                    ObjectEventKind::Announcement => assert(r@[9] == k),
                    ObjectEventKind::AttributesChanged => assert(r@[10] == k),
                    ObjectEventKind::RowInserted => assert(r@[11] == k),
                    ObjectEventKind::RowReordered => assert(r@[12] == k),
                    ObjectEventKind::RowDeleted => assert(r@[13] == k),
                    ObjectEventKind::ColumnInserted => assert(r@[14] == k),
                    ObjectEventKind::ColumnReordered => assert(r@[15] == k),
                    ObjectEventKind::ColumnDeleted => assert(r@[16] == k),
                    ObjectEventKind::TextBoundsChanged => assert(r@[17] == k),
                    ObjectEventKind::TextSelectionChanged => assert(r@[18] == k),
                    ObjectEventKind::TextChanged => assert(r@[19] == k),
                    ObjectEventKind::TextAttributesChanged => assert(r@[20] == k),
                    ObjectEventKind::TextCaretMoved => assert(r@[21] == k),
                }
            }
        }
        r
    }
}

/// The signature of each member name; no two of them agree.
proof fn lemma_member_name_keys()
    ensures
        name_key("PropertyChange"@) == (14int, 'P', 'r', 'g', 'e'),
        name_key("BoundsChanged"@) == (13int, 'B', 'o', 'e', 'd'),
        name_key("LinkSelected"@) == (12int, 'L', 'i', 'e', 'd'),
        name_key("StateChanged"@) == (12int, 'S', 't', 'e', 'd'),
        name_key("ChildrenChanged"@) == (15int, 'C', 'h', 'e', 'd'),
        name_key("VisibleDataChanged"@) == (18int, 'V', 'i', 'e', 'd'),
        name_key("SelectionChanged"@) == (16int, 'S', 'e', 'e', 'd'),
        name_key("ModelChanged"@) == (12int, 'M', 'o', 'e', 'd'),
        name_key("ActiveDescendantChanged"@) == (23int, 'A', 'c', 'e', 'd'),
        name_key("Announcement"@) == (12int, 'A', 'n', 'n', 't'),
        name_key("AttributesChanged"@) == (17int, 'A', 't', 'e', 'd'),
        name_key("RowInserted"@) == (11int, 'R', 'o', 'e', 'd'),
        name_key("RowReordered"@) == (12int, 'R', 'o', 'e', 'd'),
        name_key("RowDeleted"@) == (10int, 'R', 'o', 'e', 'd'),
        name_key("ColumnInserted"@) == (14int, 'C', 'o', 'e', 'd'),
        name_key("ColumnReordered"@) == (15int, 'C', 'o', 'e', 'd'),
        name_key("ColumnDeleted"@) == (13int, 'C', 'o', 'e', 'd'),
        name_key("TextBoundsChanged"@) == (17int, 'T', 'e', 'e', 'd'),
        name_key("TextSelectionChanged"@) == (20int, 'T', 'e', 'e', 'd'),
        name_key("TextChanged"@) == (11int, 'T', 'e', 'e', 'd'),
        name_key("TextAttributesChanged"@) == (21int, 'T', 'e', 'e', 'd'),
        name_key("TextCaretMoved"@) == (14int, 'T', 'e', 'e', 'd'),
{
    reveal_strlit("PropertyChange");
    reveal_strlit("BoundsChanged");
    reveal_strlit("LinkSelected");
    reveal_strlit("StateChanged");
    reveal_strlit("ChildrenChanged");
    reveal_strlit("VisibleDataChanged");
    reveal_strlit("SelectionChanged");
    reveal_strlit("ModelChanged");
    reveal_strlit("ActiveDescendantChanged");
    reveal_strlit("Announcement");
    reveal_strlit("AttributesChanged");
    reveal_strlit("RowInserted");
    reveal_strlit("RowReordered");
    reveal_strlit("RowDeleted");
    reveal_strlit("ColumnInserted");
    reveal_strlit("ColumnReordered");
    reveal_strlit("ColumnDeleted");
    reveal_strlit("TextBoundsChanged");
    reveal_strlit("TextSelectionChanged");
    reveal_strlit("TextChanged");
    reveal_strlit("TextAttributesChanged");
    reveal_strlit("TextCaretMoved");
}

/// Each event of the object interface has a member name of its own: looking
/// up the name of an event finds that event.
pub proof fn lemma_member_lookup(kind: ObjectEventKind)
    ensures
        ObjectEventKind::of_member(kind.spec_member()) == Some(kind),
{
    lemma_member_name_keys();
}

/// The events of the object interface.
#[derive(Debug, PartialEq, Eq, Hash, Clone)]
pub enum ObjectEvents {
    PropertyChange(PropertyChangeEvent),
    BoundsChanged(BoundsChangedEvent),
    LinkSelected(LinkSelectedEvent),
    StateChanged(StateChangedEvent),
    ChildrenChanged(ChildrenChangedEvent),
    VisibleDataChanged(VisibleDataChangedEvent),
    SelectionChanged(SelectionChangedEvent),
    ModelChanged(ModelChangedEvent),
    ActiveDescendantChanged(ActiveDescendantChangedEvent),
    Announcement(AnnouncementEvent),
    AttributesChanged(AttributesChangedEvent),
    RowInserted(RowInsertedEvent),
    RowReordered(RowReorderedEvent),
    RowDeleted(RowDeletedEvent),
    ColumnInserted(ColumnInsertedEvent),
    ColumnReordered(ColumnReorderedEvent),
    ColumnDeleted(ColumnDeletedEvent),
    TextBoundsChanged(TextBoundsChangedEvent),
    TextSelectionChanged(TextSelectionChangedEvent),
    TextChanged(TextChangedEvent),
    TextAttributesChanged(TextAttributesChangedEvent),
    TextCaretMoved(TextCaretMovedEvent),
}

impl ObjectEvents {
    /// Which event this is.
    pub open spec fn spec_kind(&self) -> ObjectEventKind {
        match self {
            ObjectEvents::PropertyChange(_) => ObjectEventKind::PropertyChange,
            ObjectEvents::BoundsChanged(_) => ObjectEventKind::BoundsChanged,
            ObjectEvents::LinkSelected(_) => ObjectEventKind::LinkSelected,
            ObjectEvents::StateChanged(_) => ObjectEventKind::StateChanged,
            ObjectEvents::ChildrenChanged(_) => ObjectEventKind::ChildrenChanged,
            ObjectEvents::VisibleDataChanged(_) => ObjectEventKind::VisibleDataChanged,
            ObjectEvents::SelectionChanged(_) => ObjectEventKind::SelectionChanged,
            ObjectEvents::ModelChanged(_) => ObjectEventKind::ModelChanged,
            ObjectEvents::ActiveDescendantChanged(_) => ObjectEventKind::ActiveDescendantChanged,
            ObjectEvents::Announcement(_) => ObjectEventKind::Announcement,
            ObjectEvents::AttributesChanged(_) => ObjectEventKind::AttributesChanged,
            ObjectEvents::RowInserted(_) => ObjectEventKind::RowInserted,
            ObjectEvents::RowReordered(_) => ObjectEventKind::RowReordered,
            ObjectEvents::RowDeleted(_) => ObjectEventKind::RowDeleted,
            ObjectEvents::ColumnInserted(_) => ObjectEventKind::ColumnInserted,
            ObjectEvents::ColumnReordered(_) => ObjectEventKind::ColumnReordered,
            ObjectEvents::ColumnDeleted(_) => ObjectEventKind::ColumnDeleted,
            ObjectEvents::TextBoundsChanged(_) => ObjectEventKind::TextBoundsChanged,
            ObjectEvents::TextSelectionChanged(_) => ObjectEventKind::TextSelectionChanged,
            ObjectEvents::TextChanged(_) => ObjectEventKind::TextChanged,
            ObjectEvents::TextAttributesChanged(_) => ObjectEventKind::TextAttributesChanged,
            ObjectEvents::TextCaretMoved(_) => ObjectEventKind::TextCaretMoved,
        }
    }

    /// The object that the event concerns.
    pub open spec fn spec_item(&self) -> Accessible {
        match self {
            ObjectEvents::PropertyChange(e) => e.item,
            ObjectEvents::BoundsChanged(e) => e.item,
            ObjectEvents::LinkSelected(e) => e.item,
            ObjectEvents::StateChanged(e) => e.item,
            ObjectEvents::ChildrenChanged(e) => e.item,
            ObjectEvents::VisibleDataChanged(e) => e.item,
            ObjectEvents::SelectionChanged(e) => e.item,
            ObjectEvents::ModelChanged(e) => e.item,
            ObjectEvents::ActiveDescendantChanged(e) => e.item,
            ObjectEvents::Announcement(e) => e.item,
            ObjectEvents::AttributesChanged(e) => e.item,
            ObjectEvents::RowInserted(e) => e.item,
            ObjectEvents::RowReordered(e) => e.item,
            ObjectEvents::RowDeleted(e) => e.item,
            ObjectEvents::ColumnInserted(e) => e.item,
            ObjectEvents::ColumnReordered(e) => e.item,
            ObjectEvents::ColumnDeleted(e) => e.item,
            ObjectEvents::TextBoundsChanged(e) => e.item,
            ObjectEvents::TextSelectionChanged(e) => e.item,
            ObjectEvents::TextChanged(e) => e.item,
            ObjectEvents::TextAttributesChanged(e) => e.item,
            ObjectEvents::TextCaretMoved(e) => e.item,
        }
    }

    /// A property change names the property its value is of; every other
    /// event is well formed as it is.
    pub open spec fn wf(&self) -> bool {
        match self {
            ObjectEvents::PropertyChange(e) => e.wf(),
            _ => true,
        }
    }

    /// `body` is the body that the event travels in.
    pub open spec fn is_body(&self, body: EventBody) -> bool {
        match self {
            ObjectEvents::PropertyChange(e) => e.is_body(body),
            ObjectEvents::BoundsChanged(e) => e.is_body(body),
            ObjectEvents::LinkSelected(e) => e.is_body(body),
            ObjectEvents::StateChanged(e) => e.is_body(body),
            ObjectEvents::ChildrenChanged(e) => e.is_body(body),
            ObjectEvents::VisibleDataChanged(e) => e.is_body(body),
            ObjectEvents::SelectionChanged(e) => e.is_body(body),
            ObjectEvents::ModelChanged(e) => e.is_body(body),
            ObjectEvents::ActiveDescendantChanged(e) => e.is_body(body),
            ObjectEvents::Announcement(e) => e.is_body(body),
            ObjectEvents::AttributesChanged(e) => e.is_body(body),
            ObjectEvents::RowInserted(e) => e.is_body(body),
            ObjectEvents::RowReordered(e) => e.is_body(body),
            ObjectEvents::RowDeleted(e) => e.is_body(body),
            ObjectEvents::ColumnInserted(e) => e.is_body(body),
            ObjectEvents::ColumnReordered(e) => e.is_body(body),
            ObjectEvents::ColumnDeleted(e) => e.is_body(body),
            ObjectEvents::TextBoundsChanged(e) => e.is_body(body),
            ObjectEvents::TextSelectionChanged(e) => e.is_body(body),
            ObjectEvents::TextChanged(e) => e.is_body(body),
            ObjectEvents::TextAttributesChanged(e) => e.is_body(body),
            ObjectEvents::TextCaretMoved(e) => e.is_body(body),
        }
    }

    /// The event of the given kind that a body announces for `item`.
    pub open spec fn decoded(kind: ObjectEventKind, item: Accessible, body: EventBody) -> Result<
        ObjectEvents,
        DecodeError,
    > {
        match kind {
            ObjectEventKind::PropertyChange => match PropertyChangeEvent::decoded(item, body) {
                Ok(e) => Ok(ObjectEvents::PropertyChange(e)),
                Err(e) => Err(e),
            },
            ObjectEventKind::BoundsChanged => match BoundsChangedEvent::decoded(item, body) {
                Ok(e) => Ok(ObjectEvents::BoundsChanged(e)),
                Err(e) => Err(e),
            },
            ObjectEventKind::LinkSelected => match LinkSelectedEvent::decoded(item, body) {
                Ok(e) => Ok(ObjectEvents::LinkSelected(e)),
                Err(e) => Err(e),
            },
            ObjectEventKind::StateChanged => match StateChangedEvent::decoded(item, body) {
                Ok(e) => Ok(ObjectEvents::StateChanged(e)),
                Err(e) => Err(e),
            },
            ObjectEventKind::ChildrenChanged => match ChildrenChangedEvent::decoded(item, body) {
                Ok(e) => Ok(ObjectEvents::ChildrenChanged(e)),
                Err(e) => Err(e),
            },
            ObjectEventKind::VisibleDataChanged => match VisibleDataChangedEvent::decoded(item, body) {
                Ok(e) => Ok(ObjectEvents::VisibleDataChanged(e)),
                Err(e) => Err(e),
            },
            ObjectEventKind::SelectionChanged => match SelectionChangedEvent::decoded(item, body) {
                Ok(e) => Ok(ObjectEvents::SelectionChanged(e)),
                Err(e) => Err(e),
            },
            ObjectEventKind::ModelChanged => match ModelChangedEvent::decoded(item, body) {
                Ok(e) => Ok(ObjectEvents::ModelChanged(e)),
                Err(e) => Err(e),
            },
            ObjectEventKind::ActiveDescendantChanged => match ActiveDescendantChangedEvent::decoded(item, body) {
                Ok(e) => Ok(ObjectEvents::ActiveDescendantChanged(e)),
                Err(e) => Err(e),
            },
            ObjectEventKind::Announcement => match AnnouncementEvent::decoded(item, body) {
                Ok(e) => Ok(ObjectEvents::Announcement(e)),
                Err(e) => Err(e),
            },
            ObjectEventKind::AttributesChanged => match AttributesChangedEvent::decoded(item, body) {
                Ok(e) => Ok(ObjectEvents::AttributesChanged(e)),
                Err(e) => Err(e),
            },
            ObjectEventKind::RowInserted => match RowInsertedEvent::decoded(item, body) {
                Ok(e) => Ok(ObjectEvents::RowInserted(e)),
                Err(e) => Err(e),
            },
            ObjectEventKind::RowReordered => match RowReorderedEvent::decoded(item, body) {
                Ok(e) => Ok(ObjectEvents::RowReordered(e)),
                Err(e) => Err(e),
            },
            ObjectEventKind::RowDeleted => match RowDeletedEvent::decoded(item, body) {
                Ok(e) => Ok(ObjectEvents::RowDeleted(e)),
                Err(e) => Err(e),
            },
            ObjectEventKind::ColumnInserted => match ColumnInsertedEvent::decoded(item, body) {
                Ok(e) => Ok(ObjectEvents::ColumnInserted(e)),
                Err(e) => Err(e),
            },
            ObjectEventKind::ColumnReordered => match ColumnReorderedEvent::decoded(item, body) {
                Ok(e) => Ok(ObjectEvents::ColumnReordered(e)),
                Err(e) => Err(e),
            },
            ObjectEventKind::ColumnDeleted => match ColumnDeletedEvent::decoded(item, body) {
                Ok(e) => Ok(ObjectEvents::ColumnDeleted(e)),
                Err(e) => Err(e),
            },
            ObjectEventKind::TextBoundsChanged => match TextBoundsChangedEvent::decoded(item, body) {
                Ok(e) => Ok(ObjectEvents::TextBoundsChanged(e)),
                Err(e) => Err(e),
            },
            ObjectEventKind::TextSelectionChanged => match TextSelectionChangedEvent::decoded(item, body) {
                Ok(e) => Ok(ObjectEvents::TextSelectionChanged(e)),
                Err(e) => Err(e),
            },
            ObjectEventKind::TextChanged => match TextChangedEvent::decoded(item, body) {
                Ok(e) => Ok(ObjectEvents::TextChanged(e)),
                Err(e) => Err(e),
            },
            ObjectEventKind::TextAttributesChanged => match TextAttributesChangedEvent::decoded(item, body) {
                Ok(e) => Ok(ObjectEvents::TextAttributesChanged(e)),
                Err(e) => Err(e),
            },
            ObjectEventKind::TextCaretMoved => match TextCaretMovedEvent::decoded(item, body) {
                Ok(e) => Ok(ObjectEvents::TextCaretMoved(e)),
                Err(e) => Err(e),
            },
        }
    }

    /// Decodes the event of the given kind for `item` from a body.
    pub fn decode(kind: ObjectEventKind, item: Accessible, body: EventBody) -> (r: Result<
        ObjectEvents,
        DecodeError,
    >)
        ensures
            r == ObjectEvents::decoded(kind, item, body),
    {
        match kind {
            ObjectEventKind::PropertyChange => match PropertyChangeEvent::build(item, body) {
                Ok(e) => Ok(ObjectEvents::PropertyChange(e)),
                Err(e) => Err(e),
            },
            ObjectEventKind::BoundsChanged => match BoundsChangedEvent::build(item, body) {
                Ok(e) => Ok(ObjectEvents::BoundsChanged(e)),
                Err(e) => Err(e),
            },
            ObjectEventKind::LinkSelected => match LinkSelectedEvent::build(item, body) {
                Ok(e) => Ok(ObjectEvents::LinkSelected(e)),
                Err(e) => Err(e),
            },
            ObjectEventKind::StateChanged => match StateChangedEvent::build(item, body) {
                Ok(e) => Ok(ObjectEvents::StateChanged(e)),
                Err(e) => Err(e),
            },
            ObjectEventKind::ChildrenChanged => match ChildrenChangedEvent::build(item, body) {
                Ok(e) => Ok(ObjectEvents::ChildrenChanged(e)),
                Err(e) => Err(e),
            },
            ObjectEventKind::VisibleDataChanged => match VisibleDataChangedEvent::build(item, body) {
                Ok(e) => Ok(ObjectEvents::VisibleDataChanged(e)),
                Err(e) => Err(e),
            },
            ObjectEventKind::SelectionChanged => match SelectionChangedEvent::build(item, body) {
                Ok(e) => Ok(ObjectEvents::SelectionChanged(e)),
                Err(e) => Err(e),
            },
            ObjectEventKind::ModelChanged => match ModelChangedEvent::build(item, body) {
                Ok(e) => Ok(ObjectEvents::ModelChanged(e)),
                Err(e) => Err(e),
            },
            ObjectEventKind::ActiveDescendantChanged => match ActiveDescendantChangedEvent::build(item, body) {
                Ok(e) => Ok(ObjectEvents::ActiveDescendantChanged(e)),
                Err(e) => Err(e),
            },
            ObjectEventKind::Announcement => match AnnouncementEvent::build(item, body) {
                Ok(e) => Ok(ObjectEvents::Announcement(e)),
                Err(e) => Err(e),
            },
            ObjectEventKind::AttributesChanged => match AttributesChangedEvent::build(item, body) {
                Ok(e) => Ok(ObjectEvents::AttributesChanged(e)),
                Err(e) => Err(e),
            },
            ObjectEventKind::RowInserted => match RowInsertedEvent::build(item, body) {
                Ok(e) => Ok(ObjectEvents::RowInserted(e)),
                Err(e) => Err(e),
            },
            ObjectEventKind::RowReordered => match RowReorderedEvent::build(item, body) {
                Ok(e) => Ok(ObjectEvents::RowReordered(e)),
                Err(e) => Err(e),
            },
            ObjectEventKind::RowDeleted => match RowDeletedEvent::build(item, body) {
                Ok(e) => Ok(ObjectEvents::RowDeleted(e)),
                Err(e) => Err(e),
            },
            ObjectEventKind::ColumnInserted => match ColumnInsertedEvent::build(item, body) {
                Ok(e) => Ok(ObjectEvents::ColumnInserted(e)),
                Err(e) => Err(e),
            },
            ObjectEventKind::ColumnReordered => match ColumnReorderedEvent::build(item, body) {
                Ok(e) => Ok(ObjectEvents::ColumnReordered(e)),
                Err(e) => Err(e),
            },
            ObjectEventKind::ColumnDeleted => match ColumnDeletedEvent::build(item, body) {
                Ok(e) => Ok(ObjectEvents::ColumnDeleted(e)),
                Err(e) => Err(e),
            },
            ObjectEventKind::TextBoundsChanged => match TextBoundsChangedEvent::build(item, body) {
                Ok(e) => Ok(ObjectEvents::TextBoundsChanged(e)),
                Err(e) => Err(e),
            },
            ObjectEventKind::TextSelectionChanged => match TextSelectionChangedEvent::build(item, body) {
                Ok(e) => Ok(ObjectEvents::TextSelectionChanged(e)),
                Err(e) => Err(e),
            },
            ObjectEventKind::TextChanged => match TextChangedEvent::build(item, body) {
                Ok(e) => Ok(ObjectEvents::TextChanged(e)),
                Err(e) => Err(e),
            },
            ObjectEventKind::TextAttributesChanged => match TextAttributesChangedEvent::build(item, body) {
                Ok(e) => Ok(ObjectEvents::TextAttributesChanged(e)),
                Err(e) => Err(e),
            },
            ObjectEventKind::TextCaretMoved => match TextCaretMovedEvent::build(item, body) {
                Ok(e) => Ok(ObjectEvents::TextCaretMoved(e)),
                Err(e) => Err(e),
            },
        }
    }

    /// Which event this is.
    pub fn kind(&self) -> (r: ObjectEventKind)
        ensures
            r == self.spec_kind(),
    {
        match self {
            ObjectEvents::PropertyChange(_) => ObjectEventKind::PropertyChange,
            ObjectEvents::BoundsChanged(_) => ObjectEventKind::BoundsChanged,
            ObjectEvents::LinkSelected(_) => ObjectEventKind::LinkSelected,
            ObjectEvents::StateChanged(_) => ObjectEventKind::StateChanged,
            ObjectEvents::ChildrenChanged(_) => ObjectEventKind::ChildrenChanged,
            ObjectEvents::VisibleDataChanged(_) => ObjectEventKind::VisibleDataChanged,
            ObjectEvents::SelectionChanged(_) => ObjectEventKind::SelectionChanged,
            ObjectEvents::ModelChanged(_) => ObjectEventKind::ModelChanged,
            ObjectEvents::ActiveDescendantChanged(_) => ObjectEventKind::ActiveDescendantChanged,
            ObjectEvents::Announcement(_) => ObjectEventKind::Announcement,
            ObjectEvents::AttributesChanged(_) => ObjectEventKind::AttributesChanged,
            ObjectEvents::RowInserted(_) => ObjectEventKind::RowInserted,
            ObjectEvents::RowReordered(_) => ObjectEventKind::RowReordered,
            ObjectEvents::RowDeleted(_) => ObjectEventKind::RowDeleted,
            ObjectEvents::ColumnInserted(_) => ObjectEventKind::ColumnInserted,
            ObjectEvents::ColumnReordered(_) => ObjectEventKind::ColumnReordered,
            ObjectEvents::ColumnDeleted(_) => ObjectEventKind::ColumnDeleted,
            ObjectEvents::TextBoundsChanged(_) => ObjectEventKind::TextBoundsChanged,
            ObjectEvents::TextSelectionChanged(_) => ObjectEventKind::TextSelectionChanged,
            ObjectEvents::TextChanged(_) => ObjectEventKind::TextChanged,
            ObjectEvents::TextAttributesChanged(_) => ObjectEventKind::TextAttributesChanged,
            ObjectEvents::TextCaretMoved(_) => ObjectEventKind::TextCaretMoved,
        }
    }

    /// The object that the event concerns.
    pub fn item(&self) -> (r: &Accessible)
        ensures
            *r == self.spec_item(),
    {
        match self {
            ObjectEvents::PropertyChange(e) => &e.item,
            ObjectEvents::BoundsChanged(e) => &e.item,
            ObjectEvents::LinkSelected(e) => &e.item,
            ObjectEvents::StateChanged(e) => &e.item,
            ObjectEvents::ChildrenChanged(e) => &e.item,
            ObjectEvents::VisibleDataChanged(e) => &e.item,
            ObjectEvents::SelectionChanged(e) => &e.item,
            ObjectEvents::ModelChanged(e) => &e.item,
            ObjectEvents::ActiveDescendantChanged(e) => &e.item,
            ObjectEvents::Announcement(e) => &e.item,
            ObjectEvents::AttributesChanged(e) => &e.item,
            ObjectEvents::RowInserted(e) => &e.item,
            ObjectEvents::RowReordered(e) => &e.item,
            ObjectEvents::RowDeleted(e) => &e.item,
            ObjectEvents::ColumnInserted(e) => &e.item,
            ObjectEvents::ColumnReordered(e) => &e.item,
            ObjectEvents::ColumnDeleted(e) => &e.item,
            ObjectEvents::TextBoundsChanged(e) => &e.item,
            ObjectEvents::TextSelectionChanged(e) => &e.item,
            ObjectEvents::TextChanged(e) => &e.item,
            ObjectEvents::TextAttributesChanged(e) => &e.item,
            ObjectEvents::TextCaretMoved(e) => &e.item,
        }
    }

    /// The body that the event travels in.
    pub fn body(&self) -> (r: EventBody)
        ensures
            self.is_body(r),
    {
        match self {
            ObjectEvents::PropertyChange(e) => e.body(),
            ObjectEvents::BoundsChanged(e) => e.body(),
            ObjectEvents::LinkSelected(e) => e.body(),
            ObjectEvents::StateChanged(e) => e.body(),
            ObjectEvents::ChildrenChanged(e) => e.body(),
            ObjectEvents::VisibleDataChanged(e) => e.body(),
            ObjectEvents::SelectionChanged(e) => e.body(),
            ObjectEvents::ModelChanged(e) => e.body(),
            ObjectEvents::ActiveDescendantChanged(e) => e.body(),
            ObjectEvents::Announcement(e) => e.body(),
            ObjectEvents::AttributesChanged(e) => e.body(),
            ObjectEvents::RowInserted(e) => e.body(),
            ObjectEvents::RowReordered(e) => e.body(),
            ObjectEvents::RowDeleted(e) => e.body(),
            ObjectEvents::ColumnInserted(e) => e.body(),
            ObjectEvents::ColumnReordered(e) => e.body(),
            ObjectEvents::ColumnDeleted(e) => e.body(),
            ObjectEvents::TextBoundsChanged(e) => e.body(),
            ObjectEvents::TextSelectionChanged(e) => e.body(),
            ObjectEvents::TextChanged(e) => e.body(),
            ObjectEvents::TextAttributesChanged(e) => e.body(),
            ObjectEvents::TextCaretMoved(e) => e.body(),
        }
    }

    /// The bus interface of the object events.
    pub fn interface() -> (r: &'static str)
        ensures
            r@ == OBJECT_INTERFACE@,
    {
        OBJECT_INTERFACE
    }

    /// The bus filter that selects every signal of the object interface.
    pub fn match_rule() -> (r: &'static str)
        ensures
            r@ == interface_match_rule(OBJECT_INTERFACE@),
    {
        proof {
            reveal_strlit("type='signal',interface='");
            reveal_strlit("org.a11y.atspi.Event.Object");
            reveal_strlit("'");
            reveal_strlit("type='signal',interface='org.a11y.atspi.Event.Object'");
        }
        assert("type='signal',interface='org.a11y.atspi.Event.Object'"@ =~= interface_match_rule(OBJECT_INTERFACE@));
        "type='signal',interface='org.a11y.atspi.Event.Object'"
    }

    /// The short tag under which a registry files listeners of the object
    /// events.
    pub fn registry_tag() -> (r: &'static str)
        ensures
            r@ == OBJECT_REGISTRY_TAG@,
    {
        OBJECT_REGISTRY_TAG
    }
}

/// Decoding the body of a well-formed event, for the object the event
/// concerns and under its own kind, gives back the event.
pub proof fn lemma_event_round_trip(event: ObjectEvents, body: EventBody)
    requires
        event.wf(),
        event.is_body(body),
    ensures
        ObjectEvents::decoded(event.spec_kind(), event.spec_item(), body) == Ok::<
            ObjectEvents,
            DecodeError,
        >(event),
{
    match event {
        ObjectEvents::PropertyChange(e) => lemma_property_round_trip(e.value, body),
        ObjectEvents::StateChanged(e) => lemma_state_name_round_trip(e.state),
        _ => {},
    }
}

} // verus!
