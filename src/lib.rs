//! Canonical event attributes for the object store gateway: a fixed vocabulary of
//! keys, two event kinds, and a builder that yields a deterministically ordered set
//! of key/value pairs.

pub mod attribute_event_types;
pub mod attribute_keys;

pub use attribute_event_types::{os_gateway_event_types, EventKind, OsGatewayEventTypes};
pub use attribute_keys::{os_gateway_keys, AttributeKey, OsGatewayKeys};
pub mod attribute_generator;
pub use attribute_generator::OsGatewayAttributeGenerator;
