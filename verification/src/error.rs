//! The ways in which a probe fails.

use vstd::prelude::*;

verus! {

/// Why a probe ended without finishing its stream. Each is final for the
/// probe that met it: nothing is tried again.
#[derive(Debug, Clone, Copy, PartialEq, Eq, Structural)]
pub enum ProbeError {
    /// The negotiation page holds no task id after the marker.
    Negotiation,
    /// The token window reaches past the end of the digest.
    TokenRange,
    /// The connection or its encryption could not be set up.
    Transport,
    /// The service refused the protocol upgrade.
    Handshake,
    /// A frame was not valid text, or not a record.
    Decode,
    /// The consumer of the records is gone.
    ChannelClosed,
}

} // verus!
