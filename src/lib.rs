//! Typed events of the accessibility bus: decoding of generic wire bodies into
//! event records, encoding back, and dispatch of incoming messages by
//! interface and member name.

pub mod events;
pub mod message;
pub mod object;
pub mod property;
pub mod relation_type;
pub mod role;
pub mod state;
pub mod text;
pub mod value;
