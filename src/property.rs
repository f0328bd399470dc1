use crate::role::{Role, LAST_ROLE_CODE};
use crate::text::{name_key, str_eq};
use crate::value::{Accessible, DecodeError, EventBody, Value};
use vstd::prelude::*;

verus! {

/// The value of a changed property. The properties that events name most
/// often have a variant of their own; any other keeps its name and its raw
/// value.
#[derive(Debug, PartialEq)]
pub enum Property {
    Name(String),
    Description(String),
    Role(Role),
    Parent(Accessible),
    TableCaption(String),
    TableColumnDescription(String),
    TableColumnHeader(String),
    TableRowDescription(String),
    TableRowHeader(String),
    TableSummary(String),
    Other((String, Value)),
}

/// The names of the properties that have a variant of their own.
pub open spec fn is_known_property(name: Seq<char>) -> bool {
    ||| name == "accessible-name"@
    ||| name == "accessible-description"@
    ||| name == "accessible-role"@
    ||| name == "accessible-parent"@
    ||| name == "accessible-table-caption"@
    ||| name == "table-column-description"@
    ||| name == "table-column-header"@
    ||| name == "table-row-description"@
    ||| name == "table-row-header"@
    ||| name == "table-summary"@
}

impl Property {
    /// The name under which the property travels (the `kind` of its body).
    pub open spec fn spec_name(&self) -> Seq<char> {
        match self {
            Property::Name(_) => "accessible-name"@,
            Property::Description(_) => "accessible-description"@,
            Property::Role(_) => "accessible-role"@,
            Property::Parent(_) => "accessible-parent"@,
            Property::TableCaption(_) => "accessible-table-caption"@,
            Property::TableColumnDescription(_) => "table-column-description"@,
            Property::TableColumnHeader(_) => "table-column-header"@,
            Property::TableRowDescription(_) => "table-row-description"@,
            Property::TableRowHeader(_) => "table-row-header"@,
            Property::TableSummary(_) => "table-summary"@,
            Property::Other((name, _)) => name@,
        }
    }

    /// An `Other` never carries the name of a property that has a variant of
    /// its own.
    pub open spec fn wf(&self) -> bool {
        match self {
            Property::Other((name, _)) => !is_known_property(name@),
            _ => true,
        }
    }

    /// The value that the property travels as.
    pub open spec fn spec_value(&self) -> Value {
        match self {
            Property::Name(s) => Value::Str(*s),
            Property::Description(s) => Value::Str(*s),
            Property::TableCaption(s) => Value::Str(*s),
            Property::TableColumnDescription(s) => Value::Str(*s),
            Property::TableColumnHeader(s) => Value::Str(*s),
            Property::TableRowDescription(s) => Value::Str(*s),
            Property::TableRowHeader(s) => Value::Str(*s),
            Property::TableSummary(s) => Value::Str(*s),
            Property::Role(role) => Value::U32(role.spec_code()),
            Property::Parent(parent) => Value::Accessible(*parent),
            Property::Other((_, value)) => *value,
        }
    }

    /// The property that a body announces: the body's `kind` names the
    /// property and `any_data` holds its value. A known name whose value has
    /// the wrong shape (for a role, an unknown code) is an error that carries
    /// the name; any other name gives `Other` with the value untouched.
    pub open spec fn decoded(body: EventBody) -> Result<Property, DecodeError> {
        let mismatch = DecodeError::PropertyPayloadMismatch(body.kind);
        if body.kind@ == "accessible-name"@ {
            match body.any_data {
                Value::Str(s) => Ok(Property::Name(s)),
                _ => Err(mismatch),
            }
        } else if body.kind@ == "accessible-description"@ {
            match body.any_data {
                Value::Str(s) => Ok(Property::Description(s)),
                _ => Err(mismatch),
            }
        } else if body.kind@ == "accessible-role"@ {
            match body.any_data {
                Value::U32(code) => match Role::of_code(code) {
                    Some(role) => Ok(Property::Role(role)),
                    None => Err(mismatch),
                },
                _ => Err(mismatch),
            }
        } else if body.kind@ == "accessible-parent"@ {
            match body.any_data {
                Value::Accessible(a) => Ok(Property::Parent(a)),
                _ => Err(mismatch),
            }
        } else if body.kind@ == "accessible-table-caption"@ {
            match body.any_data {
                Value::Str(s) => Ok(Property::TableCaption(s)),
                _ => Err(mismatch),
            }
        } else if body.kind@ == "table-column-description"@ {
            match body.any_data {
                Value::Str(s) => Ok(Property::TableColumnDescription(s)),
                _ => Err(mismatch),
            }
        } else if body.kind@ == "table-column-header"@ {
            match body.any_data {
                Value::Str(s) => Ok(Property::TableColumnHeader(s)),
                _ => Err(mismatch),
            }
        } else if body.kind@ == "table-row-description"@ {
            match body.any_data {
                Value::Str(s) => Ok(Property::TableRowDescription(s)),
                _ => Err(mismatch),
            }
        } else if body.kind@ == "table-row-header"@ {
            match body.any_data {
                Value::Str(s) => Ok(Property::TableRowHeader(s)),
                _ => Err(mismatch),
            }
        } else if body.kind@ == "table-summary"@ {
            match body.any_data {
                Value::Str(s) => Ok(Property::TableSummary(s)),
                _ => Err(mismatch),
            }
        } else {
            Ok(Property::Other((body.kind, body.any_data)))
        }
    }

    /// Decodes the property that a body announces.
    pub fn try_from_body(body: EventBody) -> (r: Result<Property, DecodeError>)
        ensures
            r == Property::decoded(body),
    {
        let EventBody { kind, any_data, .. } = body;
        if str_eq(kind.as_str(), "accessible-name") {
            match any_data {
                Value::Str(s) => Ok(Property::Name(s)),
                _ => Err(DecodeError::PropertyPayloadMismatch(kind)),
            }
        } else if str_eq(kind.as_str(), "accessible-description") {
            match any_data {
                Value::Str(s) => Ok(Property::Description(s)),
                _ => Err(DecodeError::PropertyPayloadMismatch(kind)),
            }
        } else if str_eq(kind.as_str(), "accessible-role") {
            match any_data {
                Value::U32(code) => match Role::from_code(code) {
                    Some(role) => Ok(Property::Role(role)),
                    None => Err(DecodeError::PropertyPayloadMismatch(kind)),
                },
                _ => Err(DecodeError::PropertyPayloadMismatch(kind)),
            }
        } else if str_eq(kind.as_str(), "accessible-parent") {
            match any_data {
                Value::Accessible(a) => Ok(Property::Parent(a)),
                _ => Err(DecodeError::PropertyPayloadMismatch(kind)),
            }
        } else if str_eq(kind.as_str(), "accessible-table-caption") {
            match any_data {
                Value::Str(s) => Ok(Property::TableCaption(s)),
                _ => Err(DecodeError::PropertyPayloadMismatch(kind)),
            }
        } else if str_eq(kind.as_str(), "table-column-description") {
            match any_data {
                Value::Str(s) => Ok(Property::TableColumnDescription(s)),
                _ => Err(DecodeError::PropertyPayloadMismatch(kind)),
            }
        } else if str_eq(kind.as_str(), "table-column-header") {
            match any_data {
                Value::Str(s) => Ok(Property::TableColumnHeader(s)),
                _ => Err(DecodeError::PropertyPayloadMismatch(kind)),
            }
        } else if str_eq(kind.as_str(), "table-row-description") {
            match any_data {
                Value::Str(s) => Ok(Property::TableRowDescription(s)),
                _ => Err(DecodeError::PropertyPayloadMismatch(kind)),
            }
        } else if str_eq(kind.as_str(), "table-row-header") {
            match any_data {
                Value::Str(s) => Ok(Property::TableRowHeader(s)),
                _ => Err(DecodeError::PropertyPayloadMismatch(kind)),
            }
        } else if str_eq(kind.as_str(), "table-summary") {
            match any_data {
                Value::Str(s) => Ok(Property::TableSummary(s)),
                _ => Err(DecodeError::PropertyPayloadMismatch(kind)),
            }
        } else {
            Ok(Property::Other((kind, any_data)))
        }
    }

    /// The value that the property travels as; an `Other` gives back its raw
    /// value and drops its name.
    pub fn into_value(self) -> (r: Value)
        ensures
            r == self.spec_value(),
    {
        match self {
            Property::Name(s) => Value::Str(s),
            Property::Description(s) => Value::Str(s),
            Property::TableCaption(s) => Value::Str(s),
            Property::TableColumnDescription(s) => Value::Str(s),
            Property::TableColumnHeader(s) => Value::Str(s),
            Property::TableRowDescription(s) => Value::Str(s),
            Property::TableRowHeader(s) => Value::Str(s),
            Property::TableSummary(s) => Value::Str(s),
            Property::Role(role) => Value::U32(role.code()),
            Property::Parent(parent) => Value::Accessible(parent),
            Property::Other((_, value)) => value,
        }
    }
}

impl Clone for Property {
    fn clone(&self) -> (r: Self)
        ensures
            r == *self,
    {
        match self {
            Property::Name(x) => Property::Name(x.clone()),
            Property::Description(x) => Property::Description(x.clone()),
            Property::Role(role) => Property::Role(*role),
            Property::Parent(x) => Property::Parent(x.clone()),
            Property::TableCaption(x) => Property::TableCaption(x.clone()),
            Property::TableColumnDescription(x) => Property::TableColumnDescription(x.clone()),
            Property::TableColumnHeader(x) => Property::TableColumnHeader(x.clone()),
            Property::TableRowDescription(x) => Property::TableRowDescription(x.clone()),
            Property::TableRowHeader(x) => Property::TableRowHeader(x.clone()),
            Property::TableSummary(x) => Property::TableSummary(x.clone()),
            Property::Other((name, value)) => Property::Other((name.clone(), value.clone())),
        }
    }
}

impl core::hash::Hash for Property {
    /// A value may hold data that has no stable hash (floating point numbers,
    /// for one), so a property adds nothing to a hash: whatever holds it is
    /// told apart from its neighbours by equality.
    fn hash<H: core::hash::Hasher>(&self, _state: &mut H) {
    }
}

impl Default for Property {
    /// An unnamed property with the value zero.
    fn default() -> (r: Self)
        ensures
            r matches Property::Other((name, value)) && name@ == Seq::<char>::empty() && value
                == Value::U64(0),
    {
        Property::Other((String::new(), Value::U64(0)))
    }
}

/// The signature of each known property name; no two of them agree.
proof fn lemma_property_name_keys()
    ensures
        name_key("accessible-name"@) == (15int, 'a', 'c', 'm', 'e'),
        name_key("accessible-description"@) == (22int, 'a', 'c', 'o', 'n'),
        name_key("accessible-role"@) == (15int, 'a', 'c', 'l', 'e'),
        name_key("accessible-parent"@) == (17int, 'a', 'c', 'n', 't'),
        name_key("accessible-table-caption"@) == (24int, 'a', 'c', 'o', 'n'),
        name_key("table-column-description"@) == (24int, 't', 'a', 'o', 'n'),
        name_key("table-column-header"@) == (19int, 't', 'a', 'e', 'r'),
        name_key("table-row-description"@) == (21int, 't', 'a', 'o', 'n'),
        name_key("table-row-header"@) == (16int, 't', 'a', 'e', 'r'),
        name_key("table-summary"@) == (13int, 't', 'a', 'r', 'y'),
{
    reveal_strlit("accessible-name");
    reveal_strlit("accessible-description");
    reveal_strlit("accessible-role");
    reveal_strlit("accessible-parent");
    reveal_strlit("accessible-table-caption");
    reveal_strlit("table-column-description");
    reveal_strlit("table-column-header");
    reveal_strlit("table-row-description");
    reveal_strlit("table-row-header");
    reveal_strlit("table-summary");
}

/// A well-formed property, sent under its own name, decodes to itself.
pub proof fn lemma_property_round_trip(p: Property, body: EventBody)
    requires
        p.wf(),
        body.kind@ == p.spec_name(),
        body.any_data == p.spec_value(),
        p matches Property::Other((name, _)) ==> body.kind == name,
    ensures
        Property::decoded(body) == Ok::<Property, DecodeError>(p),
{
    lemma_property_name_keys();
    if let Property::Role(role) = p {
        crate::role::lemma_role_code_round_trip(role);
    }
}

/// A name that no variant has always decodes, to `Other` with the name and the
/// value as they came.
pub proof fn lemma_unknown_property_kept(body: EventBody)
    requires
        !is_known_property(body.kind@),
    ensures
        Property::decoded(body) == Ok::<Property, DecodeError>(
            Property::Other((body.kind, body.any_data)),
        ),
{
}

/// A name that is not text fails to decode, with an error that names the
/// property.
pub proof fn lemma_name_needs_text(body: EventBody)
    requires
        body.kind@ == "accessible-name"@,
        !(body.any_data is Str),
    ensures
        Property::decoded(body) == Err::<Property, DecodeError>(
            DecodeError::PropertyPayloadMismatch(body.kind),
        ),
{
}

/// A role code above the last known role fails to decode, with an error that
/// names the property.
pub proof fn lemma_unknown_role_rejected(body: EventBody, code: u32)
    requires
        body.kind@ == "accessible-role"@,
        body.any_data == Value::U32(code),
        code > LAST_ROLE_CODE,
    ensures
        Property::decoded(body) == Err::<Property, DecodeError>(
            DecodeError::PropertyPayloadMismatch(body.kind),
        ),
{
    lemma_property_name_keys();
}

} // verus!
