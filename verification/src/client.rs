//! The protocol session: connection state, the authentication handshake,
//! and the send/receive operations used for command execution.
//!
//! A session owns two byte streams once connected. The input stream holds
//! bytes received from the server that have not been decoded yet; the output
//! stream holds encoded bytes the caller has not transmitted yet. The caller
//! moves bytes between these streams and the transport.

use vstd::prelude::*;

use vstd::utf8::{decode_utf8, encode_utf8};

use crate::error::RconError;
use crate::packet::{
    read_i32_le, spec_body_fits, spec_read_body_bytes, spec_read_err, spec_read_id, spec_read_len,
    spec_read_ok, spec_read_size, spec_read_type, spec_wire_bytes, Packet, PacketType,
};

verus! {

/// The id the session stamps on its authentication request. The server
/// echoes an id back; -1 is the protocol's rejection sentinel.
pub const AUTH_REQUEST_ID: i32 = 527;

/// Mathematical state of a session: the target host, the credentials, what
/// each stream holds (`None` until connected), and whether the handshake has
/// completed.
pub struct ClientView {
    pub host: Seq<char>,
    pub password: Seq<char>,
    pub input: Option<Seq<u8>>,
    pub output: Option<Seq<u8>>,
    pub authenticated: bool,
}

/// The wire image of the authentication request carrying the given password.
pub open spec fn spec_auth_request(password: Seq<char>) -> Seq<u8> {
    spec_wire_bytes(
        (4 + 4 + encode_utf8(password).len() + 2) as i32,
        AUTH_REQUEST_ID,
        PacketType::ServerDataAuth,
        password,
    )
}

/// Bytes still missing before the input stream's first packet can be
/// decoded or rejected: the header must be complete before the declared
/// size is known, and then the declared number of bytes must be present.
pub open spec fn spec_bytes_needed(b: Seq<u8>) -> int {
    if b.len() < 12 {
        12 - b.len()
    } else if spec_read_size(b) < 10 {
        0
    } else if b.len() < spec_read_len(b) {
        spec_read_len(b) - b.len()
    } else {
        0
    }
}

/// A protocol session bound to a target host and a password. It is created
/// unconnected, transitions to connected once stream handles exist, and to
/// authenticated exactly once after a successful handshake.
pub struct RconClient {
    host: String,
    password: String,
    connection_input: Option<Vec<u8>>,
    connection_output: Option<Vec<u8>>,
    has_authenticated: bool,
}

impl View for RconClient {
    type V = ClientView;

    closed spec fn view(&self) -> ClientView {
        ClientView {
            host: self.host@,
            password: self.password@,
            input: match self.connection_input {
                Some(v) => Some(v@),
                None => None,
            },
            output: match self.connection_output {
                Some(v) => Some(v@),
                None => None,
            },
            authenticated: self.has_authenticated,
        }
    }
}

impl RconClient {
    /// Creates an unconnected, unauthenticated session.
    pub fn new(host: String, password: String) -> (r: RconClient)
        ensures
            r@ == (ClientView {
                host: host@,
                password: password@,
                input: None,
                output: None,
                authenticated: false,
            }),
    {
        RconClient {
            host,
            password,
            connection_input: None,
            connection_output: None,
            has_authenticated: false,
        }
    }

    /// Transitions the session to connected by installing fresh, empty
    /// stream handles. Connecting twice is rejected, not idempotent.
    pub fn connect(&mut self) -> (r: Result<(), RconError>)
        ensures
            old(self)@.input is Some ==> r is Err && r->Err_0 == RconError::StateError && final(self)@ == old(self)@,
            old(self)@.input is None ==> r is Ok && final(self)@ == (ClientView {
                input: Some(Seq::<u8>::empty()),
                output: Some(Seq::<u8>::empty()),
                ..old(self)@
            }),
    {
        if self.connection_input.is_some() {
            return Err(RconError::StateError);
        }
        self.connection_input = Some(Vec::new());
        self.connection_output = Some(Vec::new());

        Ok(())
    }

    /// Sets the connection input to the given stream contents.
    pub fn set_connection_input(&mut self, conn: Vec<u8>)
        ensures
            final(self)@ == (ClientView { input: Some(conn@), ..old(self)@ }),
    {
        self.connection_input = Some(conn);
    }

    /// Sets the connection output to the given stream contents.
    pub fn set_connection_output(&mut self, conn: Vec<u8>)
        ensures
            final(self)@ == (ClientView { output: Some(conn@), ..old(self)@ }),
    {
        self.connection_output = Some(conn);
    }

    /// True once the handshake has completed successfully.
    pub fn is_authenticated(&self) -> (r: bool)
        ensures
            r == self@.authenticated,
    {
        self.has_authenticated
    }

    /// Serializes the packet and queues its wire image on the output stream;
    /// fails with a state error when the session is not connected.
    pub fn send_packet(&mut self, packet: Packet) -> (r: Result<(), RconError>)
        ensures
            old(self)@.output is None ==> r is Err && r->Err_0 == RconError::StateError && final(self)@ == old(self)@,
            old(self)@.output matches Some(out) ==> r is Ok && final(self)@ == (ClientView {
                output: Some(out + packet.spec_encoding()),
                ..old(self)@
            }),
    {
        match &mut self.connection_output {
            Some(conn) => {
                packet.write_to(conn);
                Ok(())
            },
            None => Err(RconError::StateError),
        }
    }

    /// Decodes one packet from the front of the input stream and consumes
    /// its bytes. Decoding failures leave the stream untouched; a missing
    /// stream is a state error.
    pub fn read_packet(&mut self) -> (r: Result<Packet, RconError>)
        ensures
            old(self)@.input is None ==> r is Err && r->Err_0 == RconError::StateError && final(self)@ == old(self)@,
            old(self)@.input matches Some(b) ==> {
                &&& (!spec_read_ok(b) ==> r is Err && r->Err_0 == spec_read_err(b) && final(self)@
                    == old(self)@)
                &&& (spec_read_ok(b) ==> {
                    &&& r is Ok
                    &&& r->Ok_0.size as int == spec_read_size(b)
                    &&& r->Ok_0.id == spec_read_id(b)
                    &&& r->Ok_0.packet_type == spec_read_type(b)
                    &&& r->Ok_0.body@ == decode_utf8(spec_read_body_bytes(b))
                    &&& encode_utf8(r->Ok_0.body@) == spec_read_body_bytes(b)
                    &&& r->Ok_0.wf()
                    &&& final(self)@ == (ClientView {
                        input: Some(b.skip(spec_read_len(b))),
                        ..old(self)@
                    })
                })
            },
    {
        match &mut self.connection_input {
            Some(buf) => {
                let ghost b0 = buf@;
                match Packet::read_from(buf.as_slice()) {
                    Ok((packet, consumed)) => {
                        let rest = buf.split_off(consumed);
                        proof {
                            assert(rest@ =~= b0.skip(spec_read_len(b0)));
                        }
                        *buf = rest;
                        Ok(packet)
                    },
                    Err(e) => Err(e),
                }
            },
            None => Err(RconError::StateError),
        }
    }

    /// Performs the authentication handshake: queues one auth request
    /// carrying the session's password, reads one response from the input
    /// stream, and succeeds exactly when the response id is not the
    /// rejection sentinel -1. Success flips the session to authenticated;
    /// any failure leaves it unauthenticated. A password too large for the
    /// wire format's size field is rejected as a framing error.
    pub fn authenticate(&mut self) -> (r: Result<(), RconError>)
        ensures
            old(self)@.authenticated ==> r is Err && r->Err_0 == RconError::StateError && final(self)@ == old(self)@,
            !old(self)@.authenticated && !spec_body_fits(old(self)@.password) ==> r is Err
                && r->Err_0 == RconError::ProtocolFramingError && final(self)@ == old(self)@,
            !old(self)@.authenticated && spec_body_fits(old(self)@.password) && old(self)@.output
                is None ==> r is Err && r->Err_0 == RconError::StateError && final(self)@ == old(self)@,
            !old(self)@.authenticated && spec_body_fits(old(self)@.password) && old(self)@.output
                is Some ==> ({
                let sent = ClientView {
                    output: Some(
                        old(self)@.output->Some_0 + spec_auth_request(old(self)@.password),
                    ),
                    ..old(self)@
                };
                &&& (old(self)@.input is None ==> r is Err && r->Err_0 == RconError::StateError
                    && final(self)@ == sent)
                &&& (old(self)@.input matches Some(b) ==> {
                    &&& (!spec_read_ok(b) ==> r is Err && r->Err_0 == spec_read_err(b) && final(self)@ == sent)
                    &&& (spec_read_ok(b) && spec_read_id(b) == -1 ==> r is Err && r->Err_0
                        == RconError::AuthenticationError && final(self)@ == (ClientView {
                        input: Some(b.skip(spec_read_len(b))),
                        ..sent
                    }))
                    &&& (spec_read_ok(b) && spec_read_id(b) != -1 ==> r is Ok && final(self)@
                        == (ClientView {
                        input: Some(b.skip(spec_read_len(b))),
                        authenticated: true,
                        ..sent
                    }))
                })
            }),
    {
        if self.has_authenticated {
            return Err(RconError::StateError);
        }
        // The wire size field must hold the UTF-8 byte length plus overhead.
        if self.password.as_str().as_bytes_vec().len() > (i32::MAX - 10) as usize {
            return Err(RconError::ProtocolFramingError);
        }
        let auth_packet = Packet::new_with_id(
            AUTH_REQUEST_ID,
            PacketType::ServerDataAuth,
            self.password.clone(),
        );

        match self.send_packet(auth_packet) {
            Ok(()) => (),
            Err(e) => {
                return Err(e);
            },
        }
        let response = match self.read_packet() {
            Ok(p) => p,
            Err(e) => {
                return Err(e);
            },
        };

        if response.id == -1 {
            return Err(RconError::AuthenticationError);
        }
        self.has_authenticated = true;

        Ok(())
    }

    /// Builds an exec-command packet from caller text, stamps it with a
    /// freshly drawn id, and queues its wire image on the output stream.
    /// Text too large for the wire format's size field is rejected as a
    /// framing error.
    pub fn send_command(&mut self, command: String) -> (r: Result<(), RconError>)
        ensures
            old(self)@.output is None ==> r is Err && r->Err_0 == RconError::StateError && final(self)@ == old(self)@,
            old(self)@.output is Some && !spec_body_fits(command@) ==> r is Err && r->Err_0
                == RconError::ProtocolFramingError && final(self)@ == old(self)@,
            old(self)@.output is Some && spec_body_fits(command@) ==> r is Ok && (exists|id: i32|
                final(self)@ == (ClientView {
                    output: Some(
                        old(self)@.output->Some_0 + #[trigger] spec_wire_bytes(
                            (4 + 4 + encode_utf8(command@).len() + 2) as i32,
                            id,
                            PacketType::ServerDataAuthResponseOrExecCommand,
                            command@,
                        ),
                    ),
                    ..old(self)@
                })),
    {
        if self.connection_output.is_none() {
            return Err(RconError::StateError);
        }
        // The wire size field must hold the UTF-8 byte length plus overhead.
        if command.as_str().as_bytes_vec().len() > (i32::MAX - 10) as usize {
            return Err(RconError::ProtocolFramingError);
        }
        let ghost cmd = command@;
        let packet = Packet::new(PacketType::ServerDataAuthResponseOrExecCommand, command);
        let ghost chosen_id = packet.id;
        let r = self.send_packet(packet);
        proof {
            assert(self@ == (ClientView {
                output: Some(
                    old(self)@.output->Some_0 + spec_wire_bytes(
                        (4 + 4 + encode_utf8(cmd).len() + 2) as i32,
                        chosen_id,
                        PacketType::ServerDataAuthResponseOrExecCommand,
                        cmd,
                    ),
                ),
                ..old(self)@
            }));
        }
        r
    }

    /// Removes and returns the bytes queued on the output stream, leaving
    /// the stream connected and empty; the caller transmits them.
    pub fn take_output(&mut self) -> (r: Result<Vec<u8>, RconError>)
        ensures
            old(self)@.output is None ==> r is Err && r->Err_0 == RconError::StateError && final(self)@ == old(self)@,
            old(self)@.output matches Some(out) ==> r is Ok && r->Ok_0@ == out && final(self)@
                == (ClientView { output: Some(Seq::<u8>::empty()), ..old(self)@ }),
    {
        match &mut self.connection_output {
            Some(buf) => {
                let ghost b0 = buf@;
                let taken = buf.split_off(0);
                proof {
                    assert(taken@ =~= b0);
                    assert(buf@ =~= Seq::<u8>::empty());
                }
                Ok(taken)
            },
            None => Err(RconError::StateError),
        }
    }

    /// Appends bytes received from the transport to the input stream.
    pub fn feed_input(&mut self, bytes: Vec<u8>) -> (r: Result<(), RconError>)
        ensures
            old(self)@.input is None ==> r is Err && r->Err_0 == RconError::StateError && final(self)@ == old(self)@,
            old(self)@.input matches Some(b) ==> r is Ok && final(self)@ == (ClientView {
                input: Some(b + bytes@),
                ..old(self)@
            }),
    {
        let mut bytes = bytes;
        match &mut self.connection_input {
            Some(buf) => {
                buf.append(&mut bytes);
                Ok(())
            },
            None => Err(RconError::StateError),
        }
    }

    /// How many more bytes must be fed into the input stream before
    /// `read_packet` can reach a verdict on the stream's first packet. Zero
    /// means `read_packet` will either return a packet or fail without
    /// needing further input.
    pub fn input_bytes_needed(&self) -> (r: Result<usize, RconError>)
        ensures
            self@.input is None ==> r is Err && r->Err_0 == RconError::StateError,
            self@.input matches Some(b) ==> r is Ok && r->Ok_0 as int == spec_bytes_needed(b),
    {
        match &self.connection_input {
            Some(buf) => {
                let len = buf.len();
                if len < 12 {
                    return Ok(12 - len);
                }
                let size = read_i32_le(buf.as_slice(), 0);
                if size < 10 {
                    return Ok(0);
                }
                let total = (size as usize) + 4;
                if len < total {
                    Ok(total - len)
                } else {
                    Ok(0)
                }
            },
            None => Err(RconError::StateError),
        }
    }
}

} // verus!
