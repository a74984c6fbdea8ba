use rustyrcon::{Packet, PacketType, RconClient, RconError};

/// The wire image of one packet, as a fresh byte vector.
fn encoded(packet: Packet) -> Vec<u8> {
    let mut buf: Vec<u8> = Vec::new();
    packet.write_to(&mut buf);
    buf
}

#[test]
fn packet_round_trip_preserves_all_fields() {
    let original = Packet::new_with_id(
        77,
        PacketType::ServerDataResponseValue,
        String::from("héllo wörld ☺"),
    );
    let bytes = encoded(Packet::new_with_id(
        77,
        PacketType::ServerDataResponseValue,
        String::from("héllo wörld ☺"),
    ));

    let (decoded, consumed) = Packet::read_from(&bytes[..]).unwrap();

    assert_eq!(consumed, bytes.len());
    assert_eq!(decoded, original);
}

#[test]
fn packet_round_trip_empty_body() {
    let bytes = encoded(Packet::new_with_id(
        1,
        PacketType::ServerDataAuth,
        String::new(),
    ));

    let (decoded, consumed) = Packet::read_from(&bytes[..]).unwrap();

    assert_eq!(consumed, 14);
    assert_eq!(decoded.size, 10);
    assert_eq!(decoded.id, 1);
    assert_eq!(decoded.body, String::new());
}

#[test]
fn packet_round_trip_invalid_type_wire_value() {
    // InvalidType is a valid terminal variant: it encodes as -1 and decodes
    // back to itself rather than failing.
    let bytes = encoded(Packet::new_with_id(
        9,
        PacketType::InvalidType,
        String::from("x"),
    ));

    let (decoded, _) = Packet::read_from(&bytes[..]).unwrap();

    assert_eq!(decoded.packet_type, PacketType::InvalidType);
}

#[test]
fn constructed_packet_size_counts_body_and_overhead() {
    // size == 4 (id) + 4 (type) + UTF-8 byte length of the body + 2
    let ascii = Packet::new_with_id(5, PacketType::ServerDataAuth, String::from("secret123"));
    assert_eq!(ascii.size, 19);

    // a two-byte UTF-8 character counts as two body bytes
    let accented = Packet::new_with_id(5, PacketType::ServerDataAuth, String::from("é"));
    assert_eq!(accented.size, 12);
}

#[test]
fn encode_example_auth_packet_bytes() {
    let packet = Packet::new_with_id(527, PacketType::ServerDataAuth, String::from("secret123"));

    let mut buf: Vec<u8> = Vec::new();
    packet.write_to(&mut buf);

    let expected: Vec<u8> = vec![
        0x13, 0x00, 0x00, 0x00, // size = 19
        0x0f, 0x02, 0x00, 0x00, // id = 527
        0x03, 0x00, 0x00, 0x00, // type = auth
        b's', b'e', b'c', b'r', b'e', b't', b'1', b'2', b'3', // body
        0x00, 0x00, // trailing zero bytes
    ];
    assert_eq!(buf, expected);
}

#[test]
fn decode_undersized_frame_fails_fast() {
    // A full header advertising size = 5: less than the 10-byte fixed
    // overhead, so decoding must fail with a framing error instead of
    // computing a negative body length.
    let bytes: Vec<u8> = vec![5, 0, 0, 0, 0, 0, 0, 0, 0, 0, 0, 0];

    assert_eq!(
        Packet::read_from(&bytes[..]),
        Err(RconError::ProtocolFramingError)
    );
}

#[test]
fn decode_negative_size_fails_fast() {
    // size = -1 (all ones, little-endian)
    let bytes: Vec<u8> = vec![0xff, 0xff, 0xff, 0xff, 0, 0, 0, 0, 0, 0, 0, 0];

    assert_eq!(
        Packet::read_from(&bytes[..]),
        Err(RconError::ProtocolFramingError)
    );
}

#[test]
fn decode_truncated_header_is_connection_error() {
    let bytes: Vec<u8> = vec![19, 0, 0, 0, 7];

    assert_eq!(
        Packet::read_from(&bytes[..]),
        Err(RconError::ConnectionError)
    );
}

#[test]
fn decode_truncated_body_is_connection_error() {
    // Advertises size = 19 but carries only two body bytes and no trailer.
    let bytes: Vec<u8> = vec![19, 0, 0, 0, 7, 2, 0, 0, 3, 0, 0, 0, b'a', b'b'];

    assert_eq!(
        Packet::read_from(&bytes[..]),
        Err(RconError::ConnectionError)
    );
}

#[test]
fn decode_invalid_utf8_body_is_encoding_error() {
    // size = 11: one body byte, and 0xff is not valid UTF-8.
    let bytes: Vec<u8> = vec![11, 0, 0, 0, 0, 0, 0, 0, 0, 0, 0, 0, 0xff, 0, 0];

    assert_eq!(Packet::read_from(&bytes[..]), Err(RconError::EncodingError));
}

#[test]
fn decode_does_not_validate_trailing_bytes() {
    // The two trailing bytes are read back but any values are accepted.
    let bytes: Vec<u8> = vec![11, 0, 0, 0, 0, 0, 0, 0, 0, 0, 0, 0, b'x', 0xaa, 0xbb];

    let (packet, consumed) = Packet::read_from(&bytes[..]).unwrap();

    assert_eq!(packet.body, String::from("x"));
    assert_eq!(consumed, 15);
}

#[test]
fn authenticate_success_transitions_to_authenticated() {
    let mut client = RconClient::new(String::from("localhost:27015"), String::from("secret"));
    client.connect().unwrap();

    // Mock server: echo the request id on a ResponseValue packet.
    let reply = encoded(Packet::new_with_id(
        527,
        PacketType::ServerDataResponseValue,
        String::new(),
    ));
    client.feed_input(reply).unwrap();

    client.authenticate().unwrap();
    assert!(client.is_authenticated());

    // The auth request the session queued carries the password.
    let sent = client.take_output().unwrap();
    let (request, consumed) = Packet::read_from(&sent[..]).unwrap();
    assert_eq!(consumed, sent.len());
    assert_eq!(request.id, 527);
    assert_eq!(request.packet_type, PacketType::ServerDataAuth);
    assert_eq!(request.body, String::from("secret"));
}

#[test]
fn authenticate_rejection_leaves_session_unauthenticated() {
    let mut client = RconClient::new(String::from("localhost:27015"), String::from("wrong"));
    client.connect().unwrap();

    // Mock server: reply with the rejection sentinel id -1.
    let reply = encoded(Packet::new_with_id(
        -1,
        PacketType::ServerDataResponseValue,
        String::new(),
    ));
    client.feed_input(reply).unwrap();

    assert_eq!(client.authenticate(), Err(RconError::AuthenticationError));
    assert!(!client.is_authenticated());
}

#[test]
fn authenticate_twice_is_a_state_error() {
    let mut client = RconClient::new(String::from("localhost:27015"), String::from("secret"));
    client.connect().unwrap();
    let reply = encoded(Packet::new_with_id(
        527,
        PacketType::ServerDataResponseValue,
        String::new(),
    ));
    client.feed_input(reply).unwrap();
    client.authenticate().unwrap();

    assert_eq!(client.authenticate(), Err(RconError::StateError));
}

#[test]
fn connect_twice_is_a_state_error() {
    let mut client = RconClient::new(String::from("localhost:27015"), String::from("secret"));

    assert_eq!(client.connect(), Ok(()));
    assert_eq!(client.connect(), Err(RconError::StateError));
}

#[test]
fn operations_before_connect_are_state_errors() {
    let mut client = RconClient::new(String::from("localhost:27015"), String::from("secret"));

    assert_eq!(
        client.send_command(String::from("status")),
        Err(RconError::StateError)
    );
    assert_eq!(
        client.send_packet(Packet::new_with_id(
            1,
            PacketType::ServerDataAuthResponseOrExecCommand,
            String::from("status"),
        )),
        Err(RconError::StateError)
    );
    assert_eq!(client.read_packet(), Err(RconError::StateError));
    assert_eq!(client.authenticate(), Err(RconError::StateError));
    assert_eq!(client.take_output(), Err(RconError::StateError));
    assert_eq!(client.feed_input(Vec::new()), Err(RconError::StateError));
    assert_eq!(client.input_bytes_needed(), Err(RconError::StateError));
}

#[test]
fn send_command_queues_one_exec_command_packet() {
    let mut client = RconClient::new(String::from("localhost:27015"), String::from("secret"));
    client.connect().unwrap();

    client.send_command(String::from("list players")).unwrap();

    let sent = client.take_output().unwrap();
    let (packet, consumed) = Packet::read_from(&sent[..]).unwrap();
    assert_eq!(consumed, sent.len());
    assert_eq!(
        packet.packet_type,
        PacketType::ServerDataAuthResponseOrExecCommand
    );
    assert_eq!(packet.body, String::from("list players"));
}

#[test]
fn read_packet_consumes_packets_one_at_a_time() {
    let mut client = RconClient::new(String::from("localhost:27015"), String::from("secret"));
    client.connect().unwrap();

    let mut stream = encoded(Packet::new_with_id(
        1,
        PacketType::ServerDataResponseValue,
        String::from("first"),
    ));
    stream.extend(encoded(Packet::new_with_id(
        2,
        PacketType::ServerDataResponseValue,
        String::from("second"),
    )));
    client.feed_input(stream).unwrap();

    let first = client.read_packet().unwrap();
    assert_eq!(first.id, 1);
    assert_eq!(first.body, String::from("first"));

    let second = client.read_packet().unwrap();
    assert_eq!(second.id, 2);
    assert_eq!(second.body, String::from("second"));

    // The stream is exhausted now.
    assert_eq!(client.read_packet(), Err(RconError::ConnectionError));
}

#[test]
fn read_packet_failure_leaves_stream_untouched() {
    let mut client = RconClient::new(String::from("localhost:27015"), String::from("secret"));
    client.connect().unwrap();

    // Feed only a header; the body is still missing.
    client.feed_input(vec![19, 0, 0, 0, 0x0f, 2, 0, 0, 0, 0, 0, 0]).unwrap();
    assert_eq!(client.read_packet(), Err(RconError::ConnectionError));

    // Feeding the rest completes the very same packet.
    client
        .feed_input(vec![b's', b'e', b'c', b'r', b'e', b't', b'1', b'2', b'3', 0, 0])
        .unwrap();
    let packet = client.read_packet().unwrap();
    assert_eq!(packet.id, 527);
    assert_eq!(packet.body, String::from("secret123"));
}

#[test]
fn input_bytes_needed_tracks_the_frame() {
    let mut client = RconClient::new(String::from("localhost:27015"), String::from("secret"));
    client.connect().unwrap();

    // An empty stream is missing the whole 12-byte header.
    assert_eq!(client.input_bytes_needed(), Ok(12));

    // A bare header advertising size = 19 is missing its 11 remaining bytes.
    client.feed_input(vec![19, 0, 0, 0, 7, 2, 0, 0, 0, 0, 0, 0]).unwrap();
    assert_eq!(client.input_bytes_needed(), Ok(11));

    // A complete frame needs nothing more.
    client
        .feed_input(vec![b's', b'e', b'c', b'r', b'e', b't', b'1', b'2', b'3', 0, 0])
        .unwrap();
    assert_eq!(client.input_bytes_needed(), Ok(0));

    // An undersized frame needs nothing more either: its verdict is ready.
    let mut other = RconClient::new(String::from("localhost:27015"), String::from("secret"));
    other.connect().unwrap();
    other.feed_input(vec![5, 0, 0, 0, 0, 0, 0, 0, 0, 0, 0, 0]).unwrap();
    assert_eq!(other.input_bytes_needed(), Ok(0));
}

#[test]
fn take_output_drains_the_output_stream() {
    let mut client = RconClient::new(String::from("localhost:27015"), String::from("secret"));
    client.connect().unwrap();

    client.send_command(String::from("status")).unwrap();
    let sent = client.take_output().unwrap();
    assert!(!sent.is_empty());

    // A second take finds the stream empty but still connected.
    assert_eq!(client.take_output(), Ok(Vec::new()));
}

#[test]
fn set_connection_input_replaces_the_stream() {
    let mut client = RconClient::new(String::from("localhost:27015"), String::from("secret"));

    let reply = encoded(Packet::new_with_id(
        3,
        PacketType::ServerDataResponseValue,
        String::from("ok"),
    ));
    client.set_connection_input(reply);
    client.set_connection_output(Vec::new());

    let packet = client.read_packet().unwrap();
    assert_eq!(packet.id, 3);
    assert_eq!(packet.body, String::from("ok"));
}
