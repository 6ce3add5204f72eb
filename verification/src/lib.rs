//! Capability-gated link and event core of a perspective runtime.
//!
//! The crate holds the rules of the runtime as verified code: how a granted
//! capability authorises a request, how links are normalised and decorated,
//! how a set of links is compiled into logic-engine facts, how the event bus
//! coalesces and filters messages, and how the query facade composes store
//! operations.

pub mod capabilities;
pub mod graphql_types;
pub mod lists;
pub mod literal;
pub mod perspective_proxy;
pub mod perspectives;
pub mod pubsub;
pub mod runtime_service;
pub mod subscriptions;
pub mod text;
pub mod types;
