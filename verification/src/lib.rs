//! Latency probes against a target host, delegated to a remote measurement
//! service: request negotiation, the streaming probe's state machine, and the
//! owner-side tasks that collect the records.

pub mod app;
pub mod channel;
pub mod chart;
pub mod digest;
pub mod error;
pub mod form;
pub mod itdog;
pub mod server;
pub mod text;

pub use crate::error::ProbeError;
pub use crate::itdog::client::ItdogClient;
pub use crate::itdog::message::Message;
pub use crate::itdog::req::{ReqClient, DEFAULT_KEY};
pub use crate::server::itdog::Itdog;
pub use crate::server::{PingServer, Task, TaskRespone};
