//! Client-side implementation of the Source RCON protocol: binary packet
//! framing (encode/decode), the authentication handshake, and the session
//! state that guards command execution.
//!
//! The protocol engine works on plain byte buffers. The caller owns the
//! transport: it feeds bytes received from the server into the session's
//! input stream and transmits the bytes that accumulate in the session's
//! output stream.

mod client;
mod error;
mod packet;

pub use client::RconClient;
pub use error::RconError;
pub use packet::{Packet, PacketType};
