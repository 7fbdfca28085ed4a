//! The measurement service's protocol: negotiation, records, the probe.

pub mod client;
pub mod endpoint;
pub mod message;
pub mod req;
