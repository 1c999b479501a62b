//! A topic-scoped publish/subscribe relay.
//!
//! Clients join a named topic, publish short text messages to it and receive
//! every message that the other members of the topic publish. The crate holds
//! the parts of the relay that decide something: the topic registry, the
//! connection identifiers, and the two flows of a connection session.

pub mod broker;
pub mod channel;
pub mod ident;
pub mod session;
