use vstd::prelude::*;

verus! {

#[verifier::external_type_specification]
#[verifier::external_body]
pub struct ExOwnedValue(zvariant::OwnedValue);

/// Relies on zvariant's `Clone` for `OwnedValue` (derived over the value it
/// wraps): the copy is the same value.
pub assume_specification[ <zvariant::OwnedValue as Clone>::clone ](
    v: &zvariant::OwnedValue,
) -> (r: zvariant::OwnedValue)
    ensures
        r == *v,
;

/// The identity of an accessible object on the bus: the bus name of the
/// application that holds it and the object path under which it lives. The
/// library never looks inside it.
#[derive(Debug, PartialEq, Eq, Hash)]
pub struct Accessible {
    pub name: String,
    pub path: String,
}

impl Clone for Accessible {
    fn clone(&self) -> (r: Self)
        ensures
            r == *self,
    {
        Accessible { name: self.name.clone(), path: self.path.clone() }
    }
}

impl Default for Accessible {
    /// The null object of the registry.
    fn default() -> (r: Self)
        ensures
            r.name@ == ":0.0"@,
            r.path@ == "/org/a11y/atspi/accessible/null"@,
    {
        Accessible {
            name: ":0.0".to_owned(),
            path: "/org/a11y/atspi/accessible/null".to_owned(),
        }
    }
}

/// A value of the bus's dynamic type, as event bodies carry it. The shapes
/// that events read have a variant of their own; every other shape (floating
/// point numbers, arrays, dictionaries, other structures) is carried through
/// unread.
#[derive(Debug, PartialEq)]
pub enum Value {
    U8(u8),
    Bool(bool),
    I16(i16),
    U16(u16),
    I32(i32),
    U32(u32),
    I64(i64),
    U64(u64),
    Str(String),
    ObjectPath(String),
    /// The pair of a bus name and an object path that names an accessible
    /// object.
    Accessible(Accessible),
    Opaque(zvariant::OwnedValue),
}

impl Clone for Value {
    fn clone(&self) -> (r: Self)
        ensures
            r == *self,
    {
        match self {
            Value::U8(x) => Value::U8(*x),
            Value::Bool(x) => Value::Bool(*x),
            Value::I16(x) => Value::I16(*x),
            Value::U16(x) => Value::U16(*x),
            Value::I32(x) => Value::I32(*x),
            Value::U32(x) => Value::U32(*x),
            Value::I64(x) => Value::I64(*x),
            Value::U64(x) => Value::U64(*x),
            Value::Str(s) => Value::Str(s.clone()),
            Value::ObjectPath(s) => Value::ObjectPath(s.clone()),
            Value::Accessible(a) => Value::Accessible(a.clone()),
            Value::Opaque(v) => Value::Opaque(v.clone()),
        }
    }
}

/// The error of a decode: the body's payload is not of the shape that the
/// event or the property needs.
#[derive(Debug, PartialEq, Eq, Clone)]
pub enum DecodeError {
    /// An event's `any_data` cannot be turned into the field it fills.
    PayloadShapeMismatch,
    /// The payload of a known property, named here, has the wrong shape (or,
    /// for a role, an unknown code).
    PropertyPayloadMismatch(String),
}

/// The untyped body that every event travels in.
#[derive(Debug, PartialEq)]
pub struct EventBody {
    pub kind: String,
    pub detail1: i32,
    pub detail2: i32,
    pub any_data: Value,
    /// Further annotations by name; no two entries share a name.
    pub properties: Vec<(String, Value)>,
}

impl EventBody {
    /// No two annotations share a name.
    pub open spec fn wf(&self) -> bool {
        forall|i: int, j: int|
            0 <= i < j < self.properties@.len() ==> self.properties@[i].0@
                != self.properties@[j].0@
    }

    /// A body that carries nothing: an empty `kind`, zero details, the byte
    /// zero as `any_data` and no annotations.
    pub open spec fn is_blank(&self) -> bool {
        &&& self.kind@ == Seq::<char>::empty()
        &&& self.detail1 == 0
        &&& self.detail2 == 0
        &&& self.any_data == Value::U8(0)
        &&& self.properties@.len() == 0
    }

    /// A body that carries nothing.
    pub fn blank() -> (r: EventBody)
        ensures
            r.is_blank(),
            r.wf(),
    {
        EventBody::new(String::new(), 0, 0, Value::U8(0))
    }

    /// A body with the given fields and no annotations.
    pub fn new(kind: String, detail1: i32, detail2: i32, any_data: Value) -> (r: EventBody)
        ensures
            r.kind == kind,
            r.detail1 == detail1,
            r.detail2 == detail2,
            r.any_data == any_data,
            r.properties@.len() == 0,
            r.wf(),
    {
        EventBody { kind, detail1, detail2, any_data, properties: Vec::new() }
    }
}

} // verus!
