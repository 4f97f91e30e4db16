//! Routing, encoding and accounting for forwarding account, slot and
//! transaction events to a Kafka broker.

pub mod wire;
pub mod events;
pub mod routing;
pub mod metrics;
pub mod error;
pub mod publisher;
