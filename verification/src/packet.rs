//! The protocol's atomic unit: a framed packet with its wire format.
//!
//! On the wire a packet is, in order: a little-endian `i32` size (counting
//! everything after the size field itself), a little-endian `i32` id, a
//! little-endian `i32` type, the UTF-8 bytes of the body, and two zero bytes.

use vstd::prelude::*;

use vstd::bytes::{
    lemma_auto_spec_u32_to_from_le_bytes, spec_u32_from_le_bytes, spec_u32_to_le_bytes,
    u32_from_le_bytes, u32_to_le_bytes,
};
use vstd::slice::{slice_subrange, slice_to_vec};
use vstd::utf8::{decode_utf8, encode_utf8, valid_utf8};

use crate::error::RconError;

verus! {

/// The `u32` with the same 32-bit two's-complement representation as `x`.
pub open spec fn spec_u32_of_i32(x: i32) -> u32 {
    if x >= 0 {
        x as u32
    } else {
        (x + 0x1_0000_0000) as u32
    }
}

/// The `i32` with the same 32-bit two's-complement representation as `x`.
pub open spec fn spec_i32_of_u32(x: u32) -> i32 {
    if x < 0x8000_0000 {
        x as i32
    } else {
        (x - 0x1_0000_0000) as i32
    }
}

/// The four-byte little-endian encoding of a signed 32-bit integer.
pub open spec fn spec_i32_to_le_bytes(x: i32) -> Seq<u8> {
    spec_u32_to_le_bytes(spec_u32_of_i32(x))
}

/// The signed 32-bit integer encoded by four little-endian bytes.
pub open spec fn spec_i32_from_le_bytes(s: Seq<u8>) -> i32
    recommends
        s.len() == 4,
{
    spec_i32_of_u32(spec_u32_from_le_bytes(s))
}

/// The two-way reinterpretation between `i32` and `u32` is a bijection.
proof fn lemma_i32_u32_round_trip()
    ensures
        forall|x: i32| #[trigger] spec_i32_of_u32(spec_u32_of_i32(x)) == x,
        forall|x: u32| #[trigger] spec_u32_of_i32(spec_i32_of_u32(x)) == x,
{
}

/// The little-endian encoding of an `i32` is four bytes long, and decoding it
/// gives the integer back; decoding any four bytes and re-encoding gives the
/// bytes back.
pub proof fn lemma_i32_le_bytes_round_trip()
    ensures
        forall|x: i32| (#[trigger] spec_i32_to_le_bytes(x)).len() == 4,
        forall|x: i32| spec_i32_from_le_bytes(#[trigger] spec_i32_to_le_bytes(x)) == x,
        forall|s: Seq<u8>|
            s.len() == 4 ==> spec_i32_to_le_bytes(#[trigger] spec_i32_from_le_bytes(s)) == s,
{
    lemma_auto_spec_u32_to_from_le_bytes();
    lemma_i32_u32_round_trip();
    assert forall|x: i32| spec_i32_from_le_bytes(#[trigger] spec_i32_to_le_bytes(x)) == x by {
        lemma_auto_spec_u32_to_from_le_bytes();
        lemma_i32_u32_round_trip();
        let u = spec_u32_of_i32(x);
        assert(spec_u32_to_le_bytes(u).len() == 4);
        assert(spec_u32_from_le_bytes(spec_u32_to_le_bytes(u)) == u);
        assert(spec_i32_of_u32(u) == x);
    }
    assert forall|s: Seq<u8>| s.len() == 4 implies spec_i32_to_le_bytes(
        #[trigger] spec_i32_from_le_bytes(s),
    ) == s by {
        lemma_auto_spec_u32_to_from_le_bytes();
        lemma_i32_u32_round_trip();
        let u = spec_u32_from_le_bytes(s);
        assert(spec_u32_of_i32(spec_i32_of_u32(u)) == u);
        assert(spec_u32_to_le_bytes(u) == s);
    }
}

/// Converts an `i32` to the `u32` with the same bit pattern, going through
/// `i64` so every intermediate value is in range.
fn u32_of_i32(x: i32) -> (r: u32)
    ensures
        r == spec_u32_of_i32(x),
{
    if x >= 0 {
        x as u32
    } else {
        ((x as i64) + 0x1_0000_0000) as u32
    }
}

/// Converts a `u32` to the `i32` with the same bit pattern, going through
/// `i64` so every intermediate value is in range.
fn i32_of_u32(x: u32) -> (r: i32)
    ensures
        r == spec_i32_of_u32(x),
{
    if x < 0x8000_0000 {
        x as i32
    } else {
        ((x as i64) - 0x1_0000_0000) as i32
    }
}

/// Appends the four-byte little-endian encoding of `x` to `buf`.
fn write_i32_le(buf: &mut Vec<u8>, x: i32)
    ensures
        final(buf)@ == old(buf)@ + spec_i32_to_le_bytes(x),
{
    let mut bytes = u32_to_le_bytes(u32_of_i32(x));
    buf.append(&mut bytes);
}

/// Reads the little-endian `i32` stored at offset `at` of `bytes`.
pub(crate) fn read_i32_le(bytes: &[u8], at: usize) -> (r: i32)
    requires
        at + 4 <= bytes@.len(),
    ensures
        r == spec_i32_from_le_bytes(bytes@.subrange(at as int, at + 4)),
{
    let len = bytes.len();
    assert(at + 4 <= len);
    i32_of_u32(u32_from_le_bytes(slice_subrange(bytes, at, at + 4)))
}

/// Relies on `rand::random` to draw a packet id. Nothing is assumed of the
/// value: every contract downstream holds for any id.
#[verifier::external_body]
fn random_id() -> i32 {
    rand::random()
}

/// Relies on `String::from_utf8`: it returns `Ok` exactly when the bytes are
/// a valid UTF-8 encoding, and then returns the string those bytes encode.
#[verifier::external_body]
fn string_from_utf8(bytes: Vec<u8>) -> (r: Option<String>)
    ensures
        r is Some <==> valid_utf8(bytes@),
        r matches Some(s) ==> s@ == decode_utf8(bytes@),
{
    String::from_utf8(bytes).ok()
}

/// True when a body with these characters fits the wire format: its UTF-8
/// byte length plus the 10 bytes of fixed overhead must fit the signed 32-bit
/// size field.
pub open spec fn spec_body_fits(body: Seq<char>) -> bool {
    encode_utf8(body).len() + 10 <= i32::MAX
}

/// The full wire image of a packet with the given fields: little-endian size,
/// id and type, then the UTF-8 bytes of the body, then two zero bytes.
pub open spec fn spec_wire_bytes(size: i32, id: i32, packet_type: PacketType, body: Seq<char>) -> Seq<
    u8,
> {
    spec_i32_to_le_bytes(size) + spec_i32_to_le_bytes(id) + spec_i32_to_le_bytes(
        packet_type.wire_value() as i32,
    ) + encode_utf8(body) + seq![0u8, 0u8]
}

/// The closed set of packet kinds, carried on the wire as a signed 32-bit
/// integer: 3, 2, 0, and anything else for `InvalidType`.
#[derive(Debug, PartialEq, Eq, Structural)]
pub enum PacketType {
    ServerDataAuth,
    ServerDataAuthResponseOrExecCommand,
    ServerDataResponseValue,
    InvalidType,
}

impl PacketType {
    /// The integer this kind is carried as on the wire.
    pub open spec fn wire_value(self) -> int {
        match self {
            PacketType::ServerDataAuth => 3,
            PacketType::ServerDataAuthResponseOrExecCommand => 2,
            PacketType::ServerDataResponseValue => 0,
            PacketType::InvalidType => -1,
        }
    }

    /// The kind a wire integer decodes to; total, with `InvalidType` as the
    /// catch-all for unrecognized values.
    pub open spec fn spec_from_wire(value: int) -> PacketType {
        if value == 3 {
            PacketType::ServerDataAuth
        } else if value == 2 {
            PacketType::ServerDataAuthResponseOrExecCommand
        } else if value == 0 {
            PacketType::ServerDataResponseValue
        } else {
            PacketType::InvalidType
        }
    }

    /// Human-readable name of the kind, with its wire value.
    pub open spec fn spec_display(self) -> Seq<char> {
        match self {
            PacketType::ServerDataAuth => "Server Data Auth (3)"@,
            PacketType::ServerDataAuthResponseOrExecCommand => "Server Data Auth Response or Execute Command (2)"@,
            PacketType::ServerDataResponseValue => "Server Data Response Value (0)"@,
            PacketType::InvalidType => "Invalid Type (-1)"@,
        }
    }

    /// Human-readable name of the kind, with its wire value.
    pub fn to_string(&self) -> (r: String)
        ensures
            r@ == self.spec_display(),
    {
        match self {
            PacketType::ServerDataAuth => String::from_str("Server Data Auth (3)"),
            PacketType::ServerDataAuthResponseOrExecCommand => String::from_str(
                "Server Data Auth Response or Execute Command (2)",
            ),
            PacketType::ServerDataResponseValue => String::from_str("Server Data Response Value (0)"),
            PacketType::InvalidType => String::from_str("Invalid Type (-1)"),
        }
    }

    /// The integer this kind is carried as on the wire.
    pub fn to_wire(&self) -> (r: i32)
        ensures
            r as int == self.wire_value(),
    {
        match self {
            PacketType::ServerDataAuth => 3,
            PacketType::ServerDataAuthResponseOrExecCommand => 2,
            PacketType::ServerDataResponseValue => 0,
            PacketType::InvalidType => -1,
        }
    }

    /// Conversion from a wire integer is total (`InvalidType` catches every
    /// unrecognized value), and for the three named wire values 3, 2 and 0 it
    /// is the exact inverse of `wire_value`; `InvalidType` converts back to -1.
    pub proof fn lemma_wire_round_trip(value: int)
        ensures
            value == 3 || value == 2 || value == 0 ==> PacketType::spec_from_wire(
                value,
            ).wire_value() == value,
            value != 3 && value != 2 && value != 0 ==> PacketType::spec_from_wire(value)
                == PacketType::InvalidType,
            forall|t: PacketType| #[trigger]
                PacketType::spec_from_wire(t.wire_value()) == t,
    {
    }
}

impl vstd::std_specs::convert::FromSpecImpl<i32> for PacketType {
    open spec fn obeys_from_spec() -> bool {
        true
    }

    open spec fn from_spec(v: i32) -> PacketType {
        PacketType::spec_from_wire(v as int)
    }
}

impl From<i32> for PacketType {
    fn from(value: i32) -> (r: Self) {
        match value {
            3 => PacketType::ServerDataAuth,
            2 => PacketType::ServerDataAuthResponseOrExecCommand,
            0 => PacketType::ServerDataResponseValue,
            _ => PacketType::InvalidType,
        }
    }
}

impl vstd::std_specs::convert::FromSpecImpl<PacketType> for i32 {
    open spec fn obeys_from_spec() -> bool {
        true
    }

    open spec fn from_spec(v: PacketType) -> i32 {
        v.wire_value() as i32
    }
}

impl From<PacketType> for i32 {
    fn from(value: PacketType) -> (r: i32) {
        match value {
            PacketType::ServerDataAuth => 3,
            PacketType::ServerDataAuthResponseOrExecCommand => 2,
            PacketType::ServerDataResponseValue => 0,
            PacketType::InvalidType => -1,
        }
    }
}

impl vstd::std_specs::ops::AddSpecImpl<i32> for PacketType {
    open spec fn obeys_add_spec() -> bool {
        true
    }

    open spec fn add_req(self, rhs: i32) -> bool {
        i32::MIN <= self.wire_value() + rhs <= i32::MAX
    }

    open spec fn add_spec(self, rhs: i32) -> i32 {
        (self.wire_value() + rhs) as i32
    }
}

impl core::ops::Add<i32> for PacketType {
    type Output = i32;

    fn add(self, rhs: i32) -> (r: i32) {
        i32::from(self) + rhs
    }
}

/// One framed protocol message: declared size, correlation id, kind and
/// textual body.
#[derive(Debug)]
pub struct Packet {
    pub size: i32,
    pub id: i32,
    pub packet_type: PacketType,
    pub body: String,
}

impl PartialEq for Packet {
    fn eq(&self, other: &Packet) -> (r: bool) {
        self.size == other.size && self.id == other.id && self.packet_type == other.packet_type
            && self.body == other.body
    }
}

impl vstd::std_specs::cmp::PartialEqSpecImpl for Packet {
    open spec fn obeys_eq_spec() -> bool {
        true
    }

    open spec fn eq_spec(&self, other: &Packet) -> bool {
        self.size == other.size && self.id == other.id && self.packet_type == other.packet_type
            && self.body@ == other.body@
    }
}

/// True when the first twelve bytes of a stream (size, id, type) are present.
pub open spec fn spec_header_ok(b: Seq<u8>) -> bool {
    b.len() >= 12
}

/// The size field declared by the stream's first four bytes.
pub open spec fn spec_read_size(b: Seq<u8>) -> int {
    spec_i32_from_le_bytes(b.subrange(0, 4)) as int
}

/// The id field declared by the stream's bytes four to eight.
pub open spec fn spec_read_id(b: Seq<u8>) -> i32 {
    spec_i32_from_le_bytes(b.subrange(4, 8))
}

/// The packet kind declared by the stream's bytes eight to twelve.
pub open spec fn spec_read_type(b: Seq<u8>) -> PacketType {
    PacketType::spec_from_wire(spec_i32_from_le_bytes(b.subrange(8, 12)) as int)
}

/// The body bytes of the stream's first packet: everything between the
/// header and the two trailing bytes, `size - 10` bytes in all.
pub open spec fn spec_read_body_bytes(b: Seq<u8>) -> Seq<u8> {
    b.subrange(12, spec_read_size(b) + 2)
}

/// Number of bytes the stream's first packet occupies: the size field's four
/// bytes plus the `size` bytes it declares after itself.
pub open spec fn spec_read_len(b: Seq<u8>) -> int {
    spec_read_size(b) + 4
}

/// True when the stream starts with one complete, decodable packet: the
/// header is present, the declared size covers at least the fixed overhead,
/// the declared number of bytes is available, and the body bytes are valid
/// UTF-8.
pub open spec fn spec_read_ok(b: Seq<u8>) -> bool {
    &&& spec_header_ok(b)
    &&& spec_read_size(b) >= 10
    &&& b.len() >= spec_read_len(b)
    &&& valid_utf8(spec_read_body_bytes(b))
}

/// The error decoding the stream's first packet fails with, when it fails:
/// a truncated stream is a `ConnectionError`, an advertised size below the
/// fixed 10-byte overhead is a `ProtocolFramingError`, and a body that is not
/// UTF-8 is an `EncodingError`.
pub open spec fn spec_read_err(b: Seq<u8>) -> RconError {
    if b.len() < 12 {
        RconError::ConnectionError
    } else if spec_read_size(b) < 10 {
        RconError::ProtocolFramingError
    } else if b.len() < spec_read_len(b) {
        RconError::ConnectionError
    } else {
        RconError::EncodingError
    }
}

impl Packet {
    /// Size invariant of the wire format: `size` counts the 4 id bytes, the
    /// 4 type bytes, the UTF-8 bytes of the body, and the 2 trailing zero
    /// bytes.
    pub open spec fn wf(self) -> bool {
        self.size as int == 4 + 4 + encode_utf8(self.body@).len() + 2
    }

    /// The bytes this packet puts on the wire.
    pub open spec fn spec_encoding(self) -> Seq<u8> {
        spec_wire_bytes(self.size, self.id, self.packet_type, self.body@)
    }

    /// Builds a packet with a randomly drawn id and the size the invariant
    /// dictates.
    pub fn new(packet_type: PacketType, body: String) -> (r: Packet)
        requires
            spec_body_fits(body@),
        ensures
            r.packet_type == packet_type,
            r.body == body,
            r.wf(),
    {
        let id: i32 = random_id();

        Self::new_with_id(id, packet_type, body)
    }

    /// Builds a packet with the given id and the size the invariant dictates.
    pub fn new_with_id(id: i32, packet_type: PacketType, body: String) -> (r: Packet)
        requires
            spec_body_fits(body@),
        ensures
            r.id == id,
            r.packet_type == packet_type,
            r.body == body,
            r.wf(),
    {
        // 4 bytes (id) + 4 bytes (type) + body bytes + 2 trailing zero bytes
        let packet_size: i32 = 4 + 4 + (body.as_str().len() as i32) + 2;

        Packet { size: packet_size, id, packet_type, body }
    }

    /// Serializes the packet, appending its exact wire image to `buf`.
    pub fn write_to(self, buf: &mut Vec<u8>)
        ensures
            final(buf)@ == old(buf)@ + self.spec_encoding(),
    {
        let ghost pre = buf@;
        write_i32_le(buf, self.size);
        write_i32_le(buf, self.id);
        write_i32_le(buf, self.packet_type.to_wire());
        let mut body_bytes = self.body.as_str().as_bytes_vec();
        buf.append(&mut body_bytes);

        // Two empty bytes: the body's NUL terminator and the NUL pad byte.
        buf.push(0);
        buf.push(0);

        proof {
            assert(buf@ =~= pre + self.spec_encoding());
        }
    }

    /// Deserializes one packet from the front of `bytes`. On success it
    /// returns the packet together with the number of bytes it occupied;
    /// the two trailing bytes are read back but their values not validated.
    /// The advertised size is checked against the fixed 10-byte overhead
    /// before any body byte is touched, so an undersized frame fails fast
    /// with a framing error instead of underflowing the body length.
    pub fn read_from(bytes: &[u8]) -> (r: Result<(Packet, usize), RconError>)
        ensures
            r is Ok <==> spec_read_ok(bytes@),
            r matches Ok((p, n)) ==> {
                &&& p.size as int == spec_read_size(bytes@)
                &&& p.id == spec_read_id(bytes@)
                &&& p.packet_type == spec_read_type(bytes@)
                &&& p.body@ == decode_utf8(spec_read_body_bytes(bytes@))
                &&& encode_utf8(p.body@) == spec_read_body_bytes(bytes@)
                &&& n as int == spec_read_len(bytes@)
                &&& p.wf()
            },
            r matches Err(e) ==> e == spec_read_err(bytes@),
    {
        let len = bytes.len();
        if len < 12 {
            return Err(RconError::ConnectionError);
        }
        let size = read_i32_le(bytes, 0);
        let id = read_i32_le(bytes, 4);
        let wire_type = read_i32_le(bytes, 8);

        // Guard the subtraction below: a size under the fixed overhead would
        // otherwise turn into an enormous body length.
        if size < 10 {
            return Err(RconError::ProtocolFramingError);
        }
        let content_size = (size - 10) as usize;
        if len - 12 < content_size || len - 12 - content_size < 2 {
            return Err(RconError::ConnectionError);
        }
        let body_bytes = slice_to_vec(slice_subrange(bytes, 12, 12 + content_size));
        let ghost read_bytes = body_bytes@;
        proof {
            assert(read_bytes =~= spec_read_body_bytes(bytes@));
        }

        match string_from_utf8(body_bytes) {
            Some(body) => {
                proof {
                    vstd::utf8::decode_utf8_encode_utf8(read_bytes);
                }
                Ok(
                    (
                        Packet { size, id, packet_type: PacketType::from(wire_type), body },
                        (content_size + 12) + 2,
                    ),
                )
            },
            None => Err(RconError::EncodingError),
        }
    }

    /// Round-trip law: the wire image of any well-formed packet decodes
    /// successfully, back to the same size, id, type and body, consuming
    /// exactly the bytes the image holds.
    pub proof fn lemma_encode_decode(p: Packet)
        requires
            p.wf(),
        ensures
            spec_read_ok(p.spec_encoding()),
            spec_read_size(p.spec_encoding()) == p.size as int,
            spec_read_id(p.spec_encoding()) == p.id,
            spec_read_type(p.spec_encoding()) == p.packet_type,
            spec_read_body_bytes(p.spec_encoding()) == encode_utf8(p.body@),
            decode_utf8(spec_read_body_bytes(p.spec_encoding())) == p.body@,
            spec_read_len(p.spec_encoding()) == p.spec_encoding().len(),
    {
        lemma_i32_le_bytes_round_trip();
        let enc = p.spec_encoding();
        let body_bytes = encode_utf8(p.body@);
        let wire = p.packet_type.wire_value() as i32;
        assert(enc.subrange(0, 4) =~= spec_i32_to_le_bytes(p.size));
        assert(enc.subrange(4, 8) =~= spec_i32_to_le_bytes(p.id));
        assert(enc.subrange(8, 12) =~= spec_i32_to_le_bytes(wire));
        assert(spec_read_size(enc) == p.size as int);
        assert(enc.subrange(12, p.size + 2) =~= body_bytes);
        PacketType::lemma_wire_round_trip(p.packet_type.wire_value());
        vstd::utf8::encode_utf8_valid_utf8(p.body@);
        vstd::utf8::encode_utf8_decode_utf8(p.body@);
    }
}

} // verus!
