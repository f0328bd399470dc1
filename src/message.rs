use crate::object::{
    lemma_event_round_trip, lemma_member_lookup, ObjectEventKind, ObjectEvents, OBJECT_INTERFACE,
};
use crate::text::str_eq;
use crate::value::{Accessible, DecodeError, EventBody};
use vstd::prelude::*;

verus! {

/// A signal as the transport hands it over: who sent it, from which object
/// path, on which interface and member, with its body.
#[derive(Debug, PartialEq)]
pub struct IncomingMessage {
    pub interface: String,
    pub member: Option<String>,
    pub sender: String,
    pub path: String,
    pub body: EventBody,
}

/// A signal as the transport is to send it.
#[derive(Debug, PartialEq)]
pub struct OutgoingMessage {
    pub interface: String,
    pub member: String,
    pub path: String,
    pub body: EventBody,
}

/// Why an incoming message gave no event.
#[derive(Debug, PartialEq, Eq, Clone)]
pub enum DispatchError {
    /// No group of events has the message's interface.
    UnknownInterface,
    /// The message names no member.
    MissingMember,
    /// The group of the interface (first) has no event by the member name
    /// (second).
    UnknownMember(String, String),
    /// The event's decoder refused the body.
    Decode(DecodeError),
}

/// The interfaces that have a group of events.
pub open spec fn is_known_interface(interface: Seq<char>) -> bool {
    interface == OBJECT_INTERFACE@
}

/// The object that a message concerns: its sender and its path.
pub open spec fn item_of(msg: IncomingMessage) -> Accessible {
    Accessible { name: msg.sender, path: msg.path }
}

impl ObjectEvents {
    /// The object event that a message carries, the interface aside: the
    /// member name selects the event, whose decoder reads the body.
    pub open spec fn of_message(msg: IncomingMessage) -> Result<ObjectEvents, DispatchError> {
        match msg.member {
            None => Err(DispatchError::MissingMember),
            Some(member) => match ObjectEventKind::of_member(member@) {
                None => Err(DispatchError::UnknownMember(msg.interface, member)),
                Some(kind) => match ObjectEvents::decoded(kind, item_of(msg), msg.body) {
                    Ok(e) => Ok(e),
                    Err(e) => Err(DispatchError::Decode(e)),
                },
            },
        }
    }

    /// Decodes the object event that a message carries; the interface is
    /// not looked at.
    pub fn try_from_message(msg: IncomingMessage) -> (r: Result<ObjectEvents, DispatchError>)
        ensures
            r == ObjectEvents::of_message(msg),
    {
        let IncomingMessage { interface, member, sender, path, body } = msg;
        match member {
            None => Err(DispatchError::MissingMember),
            Some(member) => match ObjectEventKind::from_member(member.as_str()) {
                None => Err(DispatchError::UnknownMember(interface, member)),
                Some(kind) => match ObjectEvents::decode(
                    kind,
                    Accessible { name: sender, path },
                    body,
                ) {
                    Ok(e) => Ok(e),
                    Err(e) => Err(DispatchError::Decode(e)),
                },
            },
        }
    }

    /// The message that sends the event: its interface and member name, the
    /// path of its object, and its body.
    pub fn to_message(&self) -> (r: OutgoingMessage)
        ensures
            r.interface@ == OBJECT_INTERFACE@,
            r.member@ == self.spec_kind().spec_member(),
            r.path == self.spec_item().path,
            self.is_body(r.body),
    {
        OutgoingMessage {
            interface: OBJECT_INTERFACE.to_owned(),
            member: self.kind().member().to_owned(),
            path: self.item().path.clone(),
            body: self.body(),
        }
    }
}

/// An event of any interface that has a group of events.
#[derive(Debug, PartialEq, Eq, Hash, Clone)]
pub enum Event {
    Object(ObjectEvents),
}

impl Event {
    /// The event that a message carries: the interface selects the group,
    /// then the group decodes the message.
    pub open spec fn of_message(msg: IncomingMessage) -> Result<Event, DispatchError> {
        if msg.interface@ == OBJECT_INTERFACE@ {
            match ObjectEvents::of_message(msg) {
                Ok(e) => Ok(Event::Object(e)),
                Err(e) => Err(e),
            }
        } else {
            Err(DispatchError::UnknownInterface)
        }
    }

    /// Decodes the event that a message carries.
    pub fn try_from_message(msg: IncomingMessage) -> (r: Result<Event, DispatchError>)
        ensures
            r == Event::of_message(msg),
    {
        if str_eq(msg.interface.as_str(), OBJECT_INTERFACE) {
            match ObjectEvents::try_from_message(msg) {
                Ok(e) => Ok(Event::Object(e)),
                Err(e) => Err(e),
            }
        } else {
            Err(DispatchError::UnknownInterface)
        }
    }

    /// The message that sends the event.
    pub fn to_message(&self) -> (r: OutgoingMessage)
        ensures
            match self {
                Event::Object(e) => {
                    &&& r.interface@ == OBJECT_INTERFACE@
                    &&& r.member@ == e.spec_kind().spec_member()
                    &&& r.path == e.spec_item().path
                    &&& e.is_body(r.body)
                },
            },
    {
        match self {
            Event::Object(e) => e.to_message(),
        }
    }
}

/// A message on a known interface whose member names an event of the group
/// always reaches that event's decoder, and gets what the decoder makes of
/// its body.
pub proof fn lemma_dispatch_reaches_decoder(msg: IncomingMessage, kind: ObjectEventKind)
    requires
        msg.interface@ == OBJECT_INTERFACE@,
        msg.member matches Some(member) && member@ == kind.spec_member(),
    ensures
        Event::of_message(msg) == match ObjectEvents::decoded(kind, item_of(msg), msg.body) {
            Ok(e) => Ok(Event::Object(e)),
            Err(e) => Err(DispatchError::Decode(e)),
        },
{
    lemma_member_lookup(kind);
}

/// A message on an interface that has no group gives `UnknownInterface`.
pub proof fn lemma_unknown_interface_rejected(msg: IncomingMessage)
    requires
        !is_known_interface(msg.interface@),
    ensures
        Event::of_message(msg) == Err::<Event, DispatchError>(DispatchError::UnknownInterface),
{
}

/// A message on a known interface whose member names no event of the group
/// gives `UnknownMember`, with the interface and the member name.
pub proof fn lemma_unknown_member_rejected(msg: IncomingMessage, member: String)
    requires
        is_known_interface(msg.interface@),
        msg.member == Some(member),
        forall|kind: ObjectEventKind| kind.spec_member() != member@,
    ensures
        Event::of_message(msg) == Err::<Event, DispatchError>(
            DispatchError::UnknownMember(msg.interface, member),
        ),
{
    if let Some(kind) = ObjectEventKind::of_member(member@) {
        assert(kind.spec_member() == member@);
    }
}

/// Sending a well-formed event and receiving the message from the object it
/// concerns gives back the event.
pub proof fn lemma_message_round_trip(event: ObjectEvents, msg: IncomingMessage)
    requires
        event.wf(),
        msg.interface@ == OBJECT_INTERFACE@,
        msg.member matches Some(member) && member@ == event.spec_kind().spec_member(),
        msg.sender == event.spec_item().name,
        msg.path == event.spec_item().path,
        event.is_body(msg.body),
    ensures
        Event::of_message(msg) == Ok::<Event, DispatchError>(Event::Object(event)),
{
    lemma_member_lookup(event.spec_kind());
    lemma_event_round_trip(event, msg.body);
}

} // verus!
