//! A small actor library: typed message keys, a handler registry keyed by
//! them, handlers that accept type-erased messages, dispatchers that route
//! messages to keys, and the decisions an actor's mailbox loop takes.

pub mod actor;
pub mod channel;
pub mod dispatcher;
pub mod erased;
pub mod error;
pub mod handler;
pub mod key;
pub mod laws;
pub mod message_laws;
pub mod message;
pub mod registry;
