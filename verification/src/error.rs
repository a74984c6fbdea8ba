//! Error taxonomy of the protocol engine.

use vstd::prelude::*;

verus! {

/// Every failure of the protocol engine is one of these kinds; none of them
/// is ever surfaced as a panic.
#[derive(Debug, Clone, Copy, PartialEq, Eq, Structural)]
pub enum RconError {
    /// Transport-level failure: the stream ended before a full packet was
    /// available, or no bytes could be moved at all.
    ConnectionError,
    /// The declared packet size is inconsistent: smaller than the fixed
    /// 10-byte overhead, or too large for the wire format's size field.
    ProtocolFramingError,
    /// The packet body is not valid UTF-8.
    EncodingError,
    /// The operation is invalid in the session's current state: connecting
    /// twice, authenticating twice, or sending/reading while unconnected.
    StateError,
    /// The handshake completed but the server rejected the credentials,
    /// signalled by a response id of -1.
    AuthenticationError,
}

} // verus!
