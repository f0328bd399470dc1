use crate::property::Property;
use crate::state::State;
use crate::value::{Accessible, DecodeError, EventBody, Value};
use vstd::prelude::*;

verus! {

/// The `BoundsChanged` event of the object interface: it carries nothing but
/// the object.
#[derive(Debug, PartialEq, Eq, Hash, Clone, Default)]
pub struct BoundsChangedEvent {
    pub item: Accessible,
}

impl BoundsChangedEvent {
    /// The event that a body announces for `item`.
    pub open spec fn decoded(item: Accessible, _body: EventBody) -> Result<
        BoundsChangedEvent,
        DecodeError,
    > {
        Ok(BoundsChangedEvent { item })
    }

    /// `body` is the body that the event travels in: a blank one.
    pub open spec fn is_body(&self, body: EventBody) -> bool {
        body.is_blank()
    }

    /// Builds the event for `item` from a body; nothing of the body is read.
    pub fn build(item: Accessible, _body: EventBody) -> (r: Result<Self, DecodeError>)
        ensures
            r == Self::decoded(item, _body),
    {
        Ok(BoundsChangedEvent { item })
    }

    /// The bus name of the application that holds the object.
    pub fn sender(&self) -> (r: String)
        ensures
            r == self.item.name,
    {
        self.item.name.clone()
    }

    /// The object path of the object.
    pub fn path(&self) -> (r: String)
        ensures
            r == self.item.path,
    {
        self.item.path.clone()
    }

    /// The body that the event travels in.
    pub fn body(&self) -> (r: EventBody)
        ensures
            self.is_body(r),
    {
        EventBody::blank()
    }
}

/// The `LinkSelected` event of the object interface: it carries nothing but the
/// object.
#[derive(Debug, PartialEq, Eq, Hash, Clone, Default)]
pub struct LinkSelectedEvent {
    pub item: Accessible,
}

impl LinkSelectedEvent {
    /// The event that a body announces for `item`.
    pub open spec fn decoded(item: Accessible, _body: EventBody) -> Result<
        LinkSelectedEvent,
        DecodeError,
    > {
        Ok(LinkSelectedEvent { item })
    }

    /// `body` is the body that the event travels in: a blank one.
    pub open spec fn is_body(&self, body: EventBody) -> bool {
        body.is_blank()
    }

    /// Builds the event for `item` from a body; nothing of the body is read.
    pub fn build(item: Accessible, _body: EventBody) -> (r: Result<Self, DecodeError>)
        ensures
            r == Self::decoded(item, _body),
    {
        Ok(LinkSelectedEvent { item })
    }

    /// The bus name of the application that holds the object.
    pub fn sender(&self) -> (r: String)
        ensures
            r == self.item.name,
    {
        self.item.name.clone()
    }

    /// The object path of the object.
    pub fn path(&self) -> (r: String)
        ensures
            r == self.item.path,
    {
        self.item.path.clone()
    }

    /// The body that the event travels in.
    pub fn body(&self) -> (r: EventBody)
        ensures
            self.is_body(r),
    {
        EventBody::blank()
    }
}

/// The `StateChanged` event of the object interface. A state of the object was
/// switched on or off: `enabled` is 1 when it was switched on, 0 when off.
#[derive(Debug, PartialEq, Eq, Hash, Clone, Default)]
pub struct StateChangedEvent {
    pub item: Accessible,
    pub state: State,
    pub enabled: i32,
}

impl StateChangedEvent {
    /// The event that a body announces for `item`.
    pub open spec fn decoded(item: Accessible, body: EventBody) -> Result<
        StateChangedEvent,
        DecodeError,
    > {
        Ok(StateChangedEvent {
            item,
            state: State::of_name(body.kind@),
            enabled: body.detail1,
        })
    }

    /// `body` is the body that the event travels in: the fields it does not
    /// use hold zero values and it has no annotations.
    pub open spec fn is_body(&self, body: EventBody) -> bool {
        &&& body.kind@ == self.state.spec_name()
        &&& body.detail1 == self.enabled
        &&& body.detail2 == 0
        &&& body.any_data == Value::U8(0)
        &&& body.properties@.len() == 0
    }

    /// Builds the event for `item` from a body, reading only what the event
    /// carries.
    pub fn build(item: Accessible, body: EventBody) -> (r: Result<Self, DecodeError>)
        ensures
            r == Self::decoded(item, body),
    {
        Ok(StateChangedEvent {
            item,
            state: State::from_name(body.kind.as_str()),
            enabled: body.detail1,
        })
    }

    /// The bus name of the application that holds the object.
    pub fn sender(&self) -> (r: String)
        ensures
            r == self.item.name,
    {
        self.item.name.clone()
    }

    /// The object path of the object.
    pub fn path(&self) -> (r: String)
        ensures
            r == self.item.path,
    {
        self.item.path.clone()
    }

    /// The body that the event travels in.
    pub fn body(&self) -> (r: EventBody)
        ensures
            self.is_body(r),
    {
        EventBody::new(self.state.name().to_owned(), self.enabled, 0, Value::U8(0))
    }
}

/// The `ChildrenChanged` event of the object interface. A child was added to
/// the object or removed from it: `operation` says which, `index_in_parent`
/// where.
#[derive(Debug, PartialEq, Eq, Hash, Clone, Default)]
pub struct ChildrenChangedEvent {
    pub item: Accessible,
    pub operation: String,
    pub index_in_parent: i32,
    pub child: Accessible,
}

impl ChildrenChangedEvent {
    /// The event that a body announces for `item`.
    pub open spec fn decoded(item: Accessible, body: EventBody) -> Result<
        ChildrenChangedEvent,
        DecodeError,
    > {
        match body.any_data {
            Value::Accessible(payload) => Ok(ChildrenChangedEvent {
                item,
                operation: body.kind,
                index_in_parent: body.detail1,
                child: payload,
            }),
            _ => Err(DecodeError::PayloadShapeMismatch),
        }
    }

    /// `body` is the body that the event travels in: the fields it does not
    /// use hold zero values and it has no annotations.
    pub open spec fn is_body(&self, body: EventBody) -> bool {
        &&& body.kind == self.operation
        &&& body.detail1 == self.index_in_parent
        &&& body.detail2 == 0
        &&& body.any_data == Value::Accessible(self.child)
        &&& body.properties@.len() == 0
    }

    /// Builds the event for `item` from a body, reading only what the event
    /// carries.
    pub fn build(item: Accessible, body: EventBody) -> (r: Result<Self, DecodeError>)
        ensures
            r == Self::decoded(item, body),
    {
        match body.any_data {
            Value::Accessible(payload) => Ok(ChildrenChangedEvent {
                item,
                operation: body.kind,
                index_in_parent: body.detail1,
                child: payload,
            }),
            _ => Err(DecodeError::PayloadShapeMismatch),
        }
    }

    /// The bus name of the application that holds the object.
    pub fn sender(&self) -> (r: String)
        ensures
            r == self.item.name,
    {
        self.item.name.clone()
    }

    /// The object path of the object.
    pub fn path(&self) -> (r: String)
        ensures
            r == self.item.path,
    {
        self.item.path.clone()
    }

    /// The body that the event travels in.
    pub fn body(&self) -> (r: EventBody)
        ensures
            self.is_body(r),
    {
        EventBody::new(
            self.operation.clone(),
            self.index_in_parent,
            0,
            Value::Accessible(self.child.clone()),
        )
    }
}

/// The `VisibleDataChanged` event of the object interface: it carries nothing
/// but the object.
#[derive(Debug, PartialEq, Eq, Hash, Clone, Default)]
pub struct VisibleDataChangedEvent {
    pub item: Accessible,
}

impl VisibleDataChangedEvent {
    /// The event that a body announces for `item`.
    pub open spec fn decoded(item: Accessible, _body: EventBody) -> Result<
        VisibleDataChangedEvent,
        DecodeError,
    > {
        Ok(VisibleDataChangedEvent { item })
    }

    /// `body` is the body that the event travels in: a blank one.
    pub open spec fn is_body(&self, body: EventBody) -> bool {
        body.is_blank()
    }

    /// Builds the event for `item` from a body; nothing of the body is read.
    pub fn build(item: Accessible, _body: EventBody) -> (r: Result<Self, DecodeError>)
        ensures
            r == Self::decoded(item, _body),
    {
        Ok(VisibleDataChangedEvent { item })
    }

    /// The bus name of the application that holds the object.
    pub fn sender(&self) -> (r: String)
        ensures
            r == self.item.name,
    {
        self.item.name.clone()
    }

    /// The object path of the object.
    pub fn path(&self) -> (r: String)
        ensures
            r == self.item.path,
    {
        self.item.path.clone()
    }

    /// The body that the event travels in.
    pub fn body(&self) -> (r: EventBody)
        ensures
            self.is_body(r),
    {
        EventBody::blank()
    }
}

/// The `SelectionChanged` event of the object interface: it carries nothing but
/// the object.
#[derive(Debug, PartialEq, Eq, Hash, Clone, Default)]
pub struct SelectionChangedEvent {
    pub item: Accessible,
}

impl SelectionChangedEvent {
    /// The event that a body announces for `item`.
    pub open spec fn decoded(item: Accessible, _body: EventBody) -> Result<
        SelectionChangedEvent,
        DecodeError,
    > {
        Ok(SelectionChangedEvent { item })
    }

    /// `body` is the body that the event travels in: a blank one.
    pub open spec fn is_body(&self, body: EventBody) -> bool {
        body.is_blank()
    }

    /// Builds the event for `item` from a body; nothing of the body is read.
    pub fn build(item: Accessible, _body: EventBody) -> (r: Result<Self, DecodeError>)
        ensures
            r == Self::decoded(item, _body),
    {
        Ok(SelectionChangedEvent { item })
    }

    /// The bus name of the application that holds the object.
    pub fn sender(&self) -> (r: String)
        ensures
            r == self.item.name,
    {
        self.item.name.clone()
    }

    /// The object path of the object.
    pub fn path(&self) -> (r: String)
        ensures
            r == self.item.path,
    {
        self.item.path.clone()
    }

    /// The body that the event travels in.
    pub fn body(&self) -> (r: EventBody)
        ensures
            self.is_body(r),
    {
        EventBody::blank()
    }
}

/// The `ModelChanged` event of the object interface: it carries nothing but the
/// object.
#[derive(Debug, PartialEq, Eq, Hash, Clone, Default)]
pub struct ModelChangedEvent {
    pub item: Accessible,
}

impl ModelChangedEvent {
    /// The event that a body announces for `item`.
    pub open spec fn decoded(item: Accessible, _body: EventBody) -> Result<
        ModelChangedEvent,
        DecodeError,
    > {
        Ok(ModelChangedEvent { item })
    }

    /// `body` is the body that the event travels in: a blank one.
    pub open spec fn is_body(&self, body: EventBody) -> bool {
        body.is_blank()
    }

    /// Builds the event for `item` from a body; nothing of the body is read.
    pub fn build(item: Accessible, _body: EventBody) -> (r: Result<Self, DecodeError>)
        ensures
            r == Self::decoded(item, _body),
    {
        Ok(ModelChangedEvent { item })
    }

    /// The bus name of the application that holds the object.
    pub fn sender(&self) -> (r: String)
        ensures
            r == self.item.name,
    {
        self.item.name.clone()
    }

    /// The object path of the object.
    pub fn path(&self) -> (r: String)
        ensures
            r == self.item.path,
    {
        self.item.path.clone()
    }

    /// The body that the event travels in.
    pub fn body(&self) -> (r: EventBody)
        ensures
            self.is_body(r),
    {
        EventBody::blank()
    }
}

/// The `ActiveDescendantChanged` event of the object interface. The descendant
/// of the object that has the focus changed.
#[derive(Debug, PartialEq, Eq, Hash, Clone, Default)]
pub struct ActiveDescendantChangedEvent {
    pub item: Accessible,
    pub child: Accessible,
}

impl ActiveDescendantChangedEvent {
    /// The event that a body announces for `item`.
    pub open spec fn decoded(item: Accessible, body: EventBody) -> Result<
        ActiveDescendantChangedEvent,
        DecodeError,
    > {
        match body.any_data {
            Value::Accessible(payload) => Ok(ActiveDescendantChangedEvent { item, child: payload }),
            _ => Err(DecodeError::PayloadShapeMismatch),
        }
    }

    /// `body` is the body that the event travels in: the fields it does not
    /// use hold zero values and it has no annotations.
    pub open spec fn is_body(&self, body: EventBody) -> bool {
        &&& body.kind@ == Seq::<char>::empty()
        &&& body.detail1 == 0
        &&& body.detail2 == 0
        &&& body.any_data == Value::Accessible(self.child)
        &&& body.properties@.len() == 0
    }

    /// Builds the event for `item` from a body, reading only what the event
    /// carries.
    pub fn build(item: Accessible, body: EventBody) -> (r: Result<Self, DecodeError>)
        ensures
            r == Self::decoded(item, body),
    {
        match body.any_data {
            Value::Accessible(payload) => Ok(ActiveDescendantChangedEvent { item, child: payload }),
            _ => Err(DecodeError::PayloadShapeMismatch),
        }
    }

    /// The bus name of the application that holds the object.
    pub fn sender(&self) -> (r: String)
        ensures
            r == self.item.name,
    {
        self.item.name.clone()
    }

    /// The object path of the object.
    pub fn path(&self) -> (r: String)
        ensures
            r == self.item.path,
    {
        self.item.path.clone()
    }

    /// The body that the event travels in.
    pub fn body(&self) -> (r: EventBody)
        ensures
            self.is_body(r),
    {
        EventBody::new(String::new(), 0, 0, Value::Accessible(self.child.clone()))
    }
}

/// The `Announcement` event of the object interface. The object asks for a text
/// to be announced.
#[derive(Debug, PartialEq, Eq, Hash, Clone, Default)]
pub struct AnnouncementEvent {
    pub item: Accessible,
    pub text: String,
}

impl AnnouncementEvent {
    /// The event that a body announces for `item`.
    pub open spec fn decoded(item: Accessible, body: EventBody) -> Result<
        AnnouncementEvent,
        DecodeError,
    > {
        Ok(AnnouncementEvent { item, text: body.kind })
    }

    /// `body` is the body that the event travels in: the fields it does not
    /// use hold zero values and it has no annotations.
    pub open spec fn is_body(&self, body: EventBody) -> bool {
        &&& body.kind == self.text
        &&& body.detail1 == 0
        &&& body.detail2 == 0
        &&& body.any_data == Value::U8(0)
        &&& body.properties@.len() == 0
    }

    /// Builds the event for `item` from a body, reading only what the event
    /// carries.
    pub fn build(item: Accessible, body: EventBody) -> (r: Result<Self, DecodeError>)
        ensures
            r == Self::decoded(item, body),
    {
        Ok(AnnouncementEvent { item, text: body.kind })
    }

    /// The bus name of the application that holds the object.
    pub fn sender(&self) -> (r: String)
        ensures
            r == self.item.name,
    {
        self.item.name.clone()
    }

    /// The object path of the object.
    pub fn path(&self) -> (r: String)
        ensures
            r == self.item.path,
    {
        self.item.path.clone()
    }

    /// The body that the event travels in.
    pub fn body(&self) -> (r: EventBody)
        ensures
            self.is_body(r),
    {
        EventBody::new(self.text.clone(), 0, 0, Value::U8(0))
    }
}

/// The `AttributesChanged` event of the object interface: it carries nothing
/// but the object.
#[derive(Debug, PartialEq, Eq, Hash, Clone, Default)]
pub struct AttributesChangedEvent {
    pub item: Accessible,
}

impl AttributesChangedEvent {
    /// The event that a body announces for `item`.
    pub open spec fn decoded(item: Accessible, _body: EventBody) -> Result<
        AttributesChangedEvent,
        DecodeError,
    > {
        Ok(AttributesChangedEvent { item })
    }

    /// `body` is the body that the event travels in: a blank one.
    pub open spec fn is_body(&self, body: EventBody) -> bool {
        body.is_blank()
    }

    /// Builds the event for `item` from a body; nothing of the body is read.
    pub fn build(item: Accessible, _body: EventBody) -> (r: Result<Self, DecodeError>)
        ensures
            r == Self::decoded(item, _body),
    {
        Ok(AttributesChangedEvent { item })
    }

    /// The bus name of the application that holds the object.
    pub fn sender(&self) -> (r: String)
        ensures
            r == self.item.name,
    {
        self.item.name.clone()
    }

    /// The object path of the object.
    pub fn path(&self) -> (r: String)
        ensures
            r == self.item.path,
    {
        self.item.path.clone()
    }

    /// The body that the event travels in.
    pub fn body(&self) -> (r: EventBody)
        ensures
            self.is_body(r),
    {
        EventBody::blank()
    }
}

/// The `RowInserted` event of the object interface: it carries nothing but the
/// object.
#[derive(Debug, PartialEq, Eq, Hash, Clone, Default)]
pub struct RowInsertedEvent {
    pub item: Accessible,
}

impl RowInsertedEvent {
    /// The event that a body announces for `item`.
    pub open spec fn decoded(item: Accessible, _body: EventBody) -> Result<
        RowInsertedEvent,
        DecodeError,
    > {
        Ok(RowInsertedEvent { item })
    }

    /// `body` is the body that the event travels in: a blank one.
    pub open spec fn is_body(&self, body: EventBody) -> bool {
        body.is_blank()
    }

    /// Builds the event for `item` from a body; nothing of the body is read.
    pub fn build(item: Accessible, _body: EventBody) -> (r: Result<Self, DecodeError>)
        ensures
            r == Self::decoded(item, _body),
    {
        Ok(RowInsertedEvent { item })
    }

    /// The bus name of the application that holds the object.
    pub fn sender(&self) -> (r: String)
        ensures
            r == self.item.name,
    {
        self.item.name.clone()
    }

    /// The object path of the object.
    pub fn path(&self) -> (r: String)
        ensures
            r == self.item.path,
    {
        self.item.path.clone()
    }

    /// The body that the event travels in.
    pub fn body(&self) -> (r: EventBody)
        ensures
            self.is_body(r),
    {
        EventBody::blank()
    }
}

/// The `RowReordered` event of the object interface: it carries nothing but the
/// object.
#[derive(Debug, PartialEq, Eq, Hash, Clone, Default)]
pub struct RowReorderedEvent {
    pub item: Accessible,
}

impl RowReorderedEvent {
    /// The event that a body announces for `item`.
    pub open spec fn decoded(item: Accessible, _body: EventBody) -> Result<
        RowReorderedEvent,
        DecodeError,
    > {
        Ok(RowReorderedEvent { item })
    }

    /// `body` is the body that the event travels in: a blank one.
    pub open spec fn is_body(&self, body: EventBody) -> bool {
        body.is_blank()
    }

    /// Builds the event for `item` from a body; nothing of the body is read.
    pub fn build(item: Accessible, _body: EventBody) -> (r: Result<Self, DecodeError>)
        ensures
            r == Self::decoded(item, _body),
    {
        Ok(RowReorderedEvent { item })
    }

    /// The bus name of the application that holds the object.
    pub fn sender(&self) -> (r: String)
        ensures
            r == self.item.name,
    {
        self.item.name.clone()
    }

    /// The object path of the object.
    pub fn path(&self) -> (r: String)
        ensures
            r == self.item.path,
    {
        self.item.path.clone()
    }

    /// The body that the event travels in.
    pub fn body(&self) -> (r: EventBody)
        ensures
            self.is_body(r),
    {
        EventBody::blank()
    }
}

/// The `RowDeleted` event of the object interface: it carries nothing but the
/// object.
#[derive(Debug, PartialEq, Eq, Hash, Clone, Default)]
pub struct RowDeletedEvent {
    pub item: Accessible,
}

impl RowDeletedEvent {
    /// The event that a body announces for `item`.
    pub open spec fn decoded(item: Accessible, _body: EventBody) -> Result<
        RowDeletedEvent,
        DecodeError,
    > {
        Ok(RowDeletedEvent { item })
    }

    /// `body` is the body that the event travels in: a blank one.
    pub open spec fn is_body(&self, body: EventBody) -> bool {
        body.is_blank()
    }

    /// Builds the event for `item` from a body; nothing of the body is read.
    pub fn build(item: Accessible, _body: EventBody) -> (r: Result<Self, DecodeError>)
        ensures
            r == Self::decoded(item, _body),
    {
        Ok(RowDeletedEvent { item })
    }

    /// The bus name of the application that holds the object.
    pub fn sender(&self) -> (r: String)
        ensures
            r == self.item.name,
    {
        self.item.name.clone()
    }

    /// The object path of the object.
    pub fn path(&self) -> (r: String)
        ensures
            r == self.item.path,
    {
        self.item.path.clone()
    }

    /// The body that the event travels in.
    pub fn body(&self) -> (r: EventBody)
        ensures
            self.is_body(r),
    {
        EventBody::blank()
    }
}

/// The `ColumnInserted` event of the object interface: it carries nothing but
/// the object.
#[derive(Debug, PartialEq, Eq, Hash, Clone, Default)]
pub struct ColumnInsertedEvent {
    pub item: Accessible,
}

impl ColumnInsertedEvent {
    /// The event that a body announces for `item`.
    pub open spec fn decoded(item: Accessible, _body: EventBody) -> Result<
        ColumnInsertedEvent,
        DecodeError,
    > {
        Ok(ColumnInsertedEvent { item })
    }

    /// `body` is the body that the event travels in: a blank one.
    pub open spec fn is_body(&self, body: EventBody) -> bool {
        body.is_blank()
    }

    /// Builds the event for `item` from a body; nothing of the body is read.
    pub fn build(item: Accessible, _body: EventBody) -> (r: Result<Self, DecodeError>)
        ensures
            r == Self::decoded(item, _body),
    {
        Ok(ColumnInsertedEvent { item })
    }

    /// The bus name of the application that holds the object.
    pub fn sender(&self) -> (r: String)
        ensures
            r == self.item.name,
    {
        self.item.name.clone()
    }

    /// The object path of the object.
    pub fn path(&self) -> (r: String)
        ensures
            r == self.item.path,
    {
        self.item.path.clone()
    }

    /// The body that the event travels in.
    pub fn body(&self) -> (r: EventBody)
        ensures
            self.is_body(r),
    {
        EventBody::blank()
    }
}

/// The `ColumnReordered` event of the object interface: it carries nothing but
/// the object.
#[derive(Debug, PartialEq, Eq, Hash, Clone, Default)]
pub struct ColumnReorderedEvent {
    pub item: Accessible,
}

impl ColumnReorderedEvent {
    /// The event that a body announces for `item`.
    pub open spec fn decoded(item: Accessible, _body: EventBody) -> Result<
        ColumnReorderedEvent,
        DecodeError,
    > {
        Ok(ColumnReorderedEvent { item })
    }

    /// `body` is the body that the event travels in: a blank one.
    pub open spec fn is_body(&self, body: EventBody) -> bool {
        body.is_blank()
    }

    /// Builds the event for `item` from a body; nothing of the body is read.
    pub fn build(item: Accessible, _body: EventBody) -> (r: Result<Self, DecodeError>)
        ensures
            r == Self::decoded(item, _body),
    {
        Ok(ColumnReorderedEvent { item })
    }

    /// The bus name of the application that holds the object.
    pub fn sender(&self) -> (r: String)
        ensures
            r == self.item.name,
    {
        self.item.name.clone()
    }

    /// The object path of the object.
    pub fn path(&self) -> (r: String)
        ensures
            r == self.item.path,
    {
        self.item.path.clone()
    }

    /// The body that the event travels in.
    pub fn body(&self) -> (r: EventBody)
        ensures
            self.is_body(r),
    {
        EventBody::blank()
    }
}

/// The `ColumnDeleted` event of the object interface: it carries nothing but
/// the object.
#[derive(Debug, PartialEq, Eq, Hash, Clone, Default)]
pub struct ColumnDeletedEvent {
    pub item: Accessible,
}

impl ColumnDeletedEvent {
    /// The event that a body announces for `item`.
    pub open spec fn decoded(item: Accessible, _body: EventBody) -> Result<
        ColumnDeletedEvent,
        DecodeError,
    > {
        Ok(ColumnDeletedEvent { item })
    }

    /// `body` is the body that the event travels in: a blank one.
    pub open spec fn is_body(&self, body: EventBody) -> bool {
        body.is_blank()
    }

    /// Builds the event for `item` from a body; nothing of the body is read.
    pub fn build(item: Accessible, _body: EventBody) -> (r: Result<Self, DecodeError>)
        ensures
            r == Self::decoded(item, _body),
    {
        Ok(ColumnDeletedEvent { item })
    }

    /// The bus name of the application that holds the object.
    pub fn sender(&self) -> (r: String)
        ensures
            r == self.item.name,
    {
        self.item.name.clone()
    }

    /// The object path of the object.
    pub fn path(&self) -> (r: String)
        ensures
            r == self.item.path,
    {
        self.item.path.clone()
    }

    /// The body that the event travels in.
    pub fn body(&self) -> (r: EventBody)
        ensures
            self.is_body(r),
    {
        EventBody::blank()
    }
}

/// The `TextBoundsChanged` event of the object interface: it carries nothing
/// but the object.
#[derive(Debug, PartialEq, Eq, Hash, Clone, Default)]
pub struct TextBoundsChangedEvent {
    pub item: Accessible,
}

impl TextBoundsChangedEvent {
    /// The event that a body announces for `item`.
    pub open spec fn decoded(item: Accessible, _body: EventBody) -> Result<
        TextBoundsChangedEvent,
        DecodeError,
    > {
        Ok(TextBoundsChangedEvent { item })
    }

    /// `body` is the body that the event travels in: a blank one.
    pub open spec fn is_body(&self, body: EventBody) -> bool {
        body.is_blank()
    }

    /// Builds the event for `item` from a body; nothing of the body is read.
    pub fn build(item: Accessible, _body: EventBody) -> (r: Result<Self, DecodeError>)
        ensures
            r == Self::decoded(item, _body),
    {
        Ok(TextBoundsChangedEvent { item })
    }

    /// The bus name of the application that holds the object.
    pub fn sender(&self) -> (r: String)
        ensures
            r == self.item.name,
    {
        self.item.name.clone()
    }

    /// The object path of the object.
    pub fn path(&self) -> (r: String)
        ensures
            r == self.item.path,
    {
        self.item.path.clone()
    }

    /// The body that the event travels in.
    pub fn body(&self) -> (r: EventBody)
        ensures
            self.is_body(r),
    {
        EventBody::blank()
    }
}

/// The `TextSelectionChanged` event of the object interface: it carries nothing
/// but the object.
#[derive(Debug, PartialEq, Eq, Hash, Clone, Default)]
pub struct TextSelectionChangedEvent {
    pub item: Accessible,
}

impl TextSelectionChangedEvent {
    /// The event that a body announces for `item`.
    pub open spec fn decoded(item: Accessible, _body: EventBody) -> Result<
        TextSelectionChangedEvent,
        DecodeError,
    > {
        Ok(TextSelectionChangedEvent { item })
    }

    /// `body` is the body that the event travels in: a blank one.
    pub open spec fn is_body(&self, body: EventBody) -> bool {
        body.is_blank()
    }

    /// Builds the event for `item` from a body; nothing of the body is read.
    pub fn build(item: Accessible, _body: EventBody) -> (r: Result<Self, DecodeError>)
        ensures
            r == Self::decoded(item, _body),
    {
        Ok(TextSelectionChangedEvent { item })
    }

    /// The bus name of the application that holds the object.
    pub fn sender(&self) -> (r: String)
        ensures
            r == self.item.name,
    {
        self.item.name.clone()
    }

    /// The object path of the object.
    pub fn path(&self) -> (r: String)
        ensures
            r == self.item.path,
    {
        self.item.path.clone()
    }

    /// The body that the event travels in.
    pub fn body(&self) -> (r: EventBody)
        ensures
            self.is_body(r),
    {
        EventBody::blank()
    }
}

/// The `TextChanged` event of the object interface. Text was inserted into the
/// object or deleted from it: `operation` says which, from `start_pos` over
/// `length` characters.
#[derive(Debug, PartialEq, Eq, Hash, Clone, Default)]
pub struct TextChangedEvent {
    pub item: Accessible,
    pub operation: String,
    pub start_pos: i32,
    pub length: i32,
    pub text: String,
}

impl TextChangedEvent {
    /// The event that a body announces for `item`.
    pub open spec fn decoded(item: Accessible, body: EventBody) -> Result<
        TextChangedEvent,
        DecodeError,
    > {
        match body.any_data {
            Value::Str(payload) => Ok(TextChangedEvent {
                item,
                operation: body.kind,
                start_pos: body.detail1,
                length: body.detail2,
                text: payload,
            }),
            _ => Err(DecodeError::PayloadShapeMismatch),
        }
    }

    /// `body` is the body that the event travels in: the fields it does not
    /// use hold zero values and it has no annotations.
    pub open spec fn is_body(&self, body: EventBody) -> bool {
        &&& body.kind == self.operation
        &&& body.detail1 == self.start_pos
        &&& body.detail2 == self.length
        &&& body.any_data == Value::Str(self.text)
        &&& body.properties@.len() == 0
    }

    /// Builds the event for `item` from a body, reading only what the event
    /// carries.
    pub fn build(item: Accessible, body: EventBody) -> (r: Result<Self, DecodeError>)
        ensures
            r == Self::decoded(item, body),
    {
        match body.any_data {
            Value::Str(payload) => Ok(TextChangedEvent {
                item,
                operation: body.kind,
                start_pos: body.detail1,
                length: body.detail2,
                text: payload,
            }),
            _ => Err(DecodeError::PayloadShapeMismatch),
        }
    }

    /// The bus name of the application that holds the object.
    pub fn sender(&self) -> (r: String)
        ensures
            r == self.item.name,
    {
        self.item.name.clone()
    }

    /// The object path of the object.
    pub fn path(&self) -> (r: String)
        ensures
            r == self.item.path,
    {
        self.item.path.clone()
    }

    /// The body that the event travels in.
    pub fn body(&self) -> (r: EventBody)
        ensures
            self.is_body(r),
    {
        EventBody::new(
            self.operation.clone(),
            self.start_pos,
            self.length,
            Value::Str(self.text.clone()),
        )
    }
}

/// The `TextAttributesChanged` event of the object interface: it carries
/// nothing but the object.
#[derive(Debug, PartialEq, Eq, Hash, Clone, Default)]
pub struct TextAttributesChangedEvent {
    pub item: Accessible,
}

impl TextAttributesChangedEvent {
    /// The event that a body announces for `item`.
    pub open spec fn decoded(item: Accessible, _body: EventBody) -> Result<
        TextAttributesChangedEvent,
        DecodeError,
    > {
        Ok(TextAttributesChangedEvent { item })
    }

    /// `body` is the body that the event travels in: a blank one.
    pub open spec fn is_body(&self, body: EventBody) -> bool {
        body.is_blank()
    }

    /// Builds the event for `item` from a body; nothing of the body is read.
    pub fn build(item: Accessible, _body: EventBody) -> (r: Result<Self, DecodeError>)
        ensures
            r == Self::decoded(item, _body),
    {
        Ok(TextAttributesChangedEvent { item })
    }

    /// The bus name of the application that holds the object.
    pub fn sender(&self) -> (r: String)
        ensures
            r == self.item.name,
    {
        self.item.name.clone()
    }

    /// The object path of the object.
    pub fn path(&self) -> (r: String)
        ensures
            r == self.item.path,
    {
        self.item.path.clone()
    }

    /// The body that the event travels in.
    pub fn body(&self) -> (r: EventBody)
        ensures
            self.is_body(r),
    {
        EventBody::blank()
    }
}

/// The `TextCaretMoved` event of the object interface. The text caret of the
/// object moved to `position`.
#[derive(Debug, PartialEq, Eq, Hash, Clone, Default)]
pub struct TextCaretMovedEvent {
    pub item: Accessible,
    pub position: i32,
}

impl TextCaretMovedEvent {
    /// The event that a body announces for `item`.
    pub open spec fn decoded(item: Accessible, body: EventBody) -> Result<
        TextCaretMovedEvent,
        DecodeError,
    > {
        Ok(TextCaretMovedEvent { item, position: body.detail1 })
    }

    /// `body` is the body that the event travels in: the fields it does not
    /// use hold zero values and it has no annotations.
    pub open spec fn is_body(&self, body: EventBody) -> bool {
        &&& body.kind@ == Seq::<char>::empty()
        &&& body.detail1 == self.position
        &&& body.detail2 == 0
        &&& body.any_data == Value::U8(0)
        &&& body.properties@.len() == 0
    }

    /// Builds the event for `item` from a body, reading only what the event
    /// carries.
    pub fn build(item: Accessible, body: EventBody) -> (r: Result<Self, DecodeError>)
        ensures
            r == Self::decoded(item, body),
    {
        Ok(TextCaretMovedEvent { item, position: body.detail1 })
    }

    /// The bus name of the application that holds the object.
    pub fn sender(&self) -> (r: String)
        ensures
            r == self.item.name,
    {
        self.item.name.clone()
    }

    /// The object path of the object.
    pub fn path(&self) -> (r: String)
        ensures
            r == self.item.path,
    {
        self.item.path.clone()
    }

    /// The body that the event travels in.
    pub fn body(&self) -> (r: EventBody)
        ensures
            self.is_body(r),
    {
        EventBody::new(String::new(), self.position, 0, Value::U8(0))
    }
}

/// The `PropertyChange` event of the object interface: a property of the
/// object changed; `property` names it and `value` holds its new value. Its
/// hash covers the object and the property name only (the value adds nothing
/// to it), so two events with equal hashes can still differ in their values.
#[derive(Debug, PartialEq, Hash)]
pub struct PropertyChangeEvent {
    pub item: Accessible,
    pub property: String,
    pub value: Property,
}

impl Eq for PropertyChangeEvent {}

impl Clone for PropertyChangeEvent {
    fn clone(&self) -> (r: Self)
        ensures
            r == *self,
    {
        PropertyChangeEvent {
            item: self.item.clone(),
            property: self.property.clone(),
            value: self.value.clone(),
        }
    }
}

impl Default for PropertyChangeEvent {
    /// An unnamed property of the null object, with the value zero.
    fn default() -> (r: Self)
        ensures
            r.item.name@ == ":0.0"@,
            r.item.path@ == "/org/a11y/atspi/accessible/null"@,
            r.property@ == Seq::<char>::empty(),
            r.value matches Property::Other((name, value)) && name@ == Seq::<char>::empty()
                && value == Value::U64(0),
    {
        PropertyChangeEvent {
            item: Accessible::default(),
            property: String::new(),
            value: Property::default(),
        }
    }
}

impl PropertyChangeEvent {
    /// The event names the property that its value is of; an `Other` value
    /// carries that very name.
    pub open spec fn wf(&self) -> bool {
        &&& self.value.wf()
        &&& self.property@ == self.value.spec_name()
        &&& self.value matches Property::Other((name, _)) ==> name == self.property
    }

    /// The event that a body announces for `item`: the body's `kind` names
    /// the property and its value is decoded from `any_data`.
    pub open spec fn decoded(item: Accessible, body: EventBody) -> Result<
        PropertyChangeEvent,
        DecodeError,
    > {
        match Property::decoded(body) {
            Ok(value) => Ok(PropertyChangeEvent { item, property: body.kind, value }),
            Err(e) => Err(e),
        }
    }

    /// `body` is the body that the event travels in: the fields it does not
    /// use hold zero values and it has no annotations.
    pub open spec fn is_body(&self, body: EventBody) -> bool {
        &&& body.kind == self.property
        &&& body.detail1 == 0
        &&& body.detail2 == 0
        &&& body.any_data == self.value.spec_value()
        &&& body.properties@.len() == 0
    }

    /// Builds the event for `item` from a body.
    pub fn build(item: Accessible, body: EventBody) -> (r: Result<Self, DecodeError>)
        ensures
            r == Self::decoded(item, body),
    {
        let property = body.kind.clone();
        match Property::try_from_body(body) {
            Ok(value) => Ok(PropertyChangeEvent { item, property, value }),
            Err(e) => Err(e),
        }
    }

    /// The bus name of the application that holds the object.
    pub fn sender(&self) -> (r: String)
        ensures
            r == self.item.name,
    {
        self.item.name.clone()
    }

    /// The object path of the object.
    pub fn path(&self) -> (r: String)
        ensures
            r == self.item.path,
    {
        self.item.path.clone()
    }

    /// The body that the event travels in.
    pub fn body(&self) -> (r: EventBody)
        ensures
            self.is_body(r),
    {
        EventBody::new(self.property.clone(), 0, 0, self.value.clone().into_value())
    }
}

} // verus!
