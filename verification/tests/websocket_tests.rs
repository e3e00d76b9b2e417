use scratch_server::websockets::websocket_error::WebSocketError;
use scratch_server::websockets::{
    accept_key, encode_ping, encode_pong, encode_text, handshake_response, Frame, Step, WebSocket,
};

fn masked(opcode: u8, payload: &[u8], mask: [u8; 4]) -> Vec<u8> {
    let mut frame = vec![0x80 | opcode];
    if payload.len() < 126 {
        frame.push(0x80 | payload.len() as u8);
    } else {
        frame.push(0x80 | 126);
        frame.push((payload.len() >> 8) as u8);
        frame.push(payload.len() as u8);
    }
    frame.extend_from_slice(&mask);
    for (i, byte) in payload.iter().enumerate() {
        frame.push(byte ^ mask[i % 4]);
    }
    frame
}

fn frame_error(buffer: &[u8]) -> WebSocketError {
    match WebSocket::new().parse_frame(buffer) {
        Ok(frame) => panic!("expected an error, got {:?}", frame),
        Err(error) => error,
    }
}

#[test]
fn accept_key_of_the_sample_nonce() {
    assert_eq!(accept_key("dGhlIHNhbXBsZSBub25jZQ=="), "s3pPLMBiTxaQ9kYGzzhZRbK+xOo=");
}

#[test]
fn accept_key_differs_from_its_input() {
    let key = "x3JJHMbDL1EzLkh9GBhXDw==";
    assert_eq!(accept_key(key), "HSmrc0sMlYUkAGmm5OPpG2HaGWk=");
}

#[test]
fn handshake_response_switches_protocols() {
    assert_eq!(
        handshake_response("dGhlIHNhbXBsZSBub25jZQ=="),
        "HTTP/1.1 101 Switching Protocols\r\nUpgrade: websocket\r\nConnection: Upgrade\r\n\
         Sec-WebSocket-Accept: s3pPLMBiTxaQ9kYGzzhZRbK+xOo=\r\n\r\n"
    );
}

#[test]
fn connect_without_key_is_a_handshake_error() {
    match WebSocket::new().connect(None) {
        Err(WebSocketError::HandshakeError(message)) => {
            assert_eq!(message, "No Sec-WebSocket-Key header")
        }
        other => panic!("unexpected {:?}", other),
    }
}

#[test]
fn connect_with_key_gives_the_handshake() {
    let response = WebSocket::new().connect(Some("dGhlIHNhbXBsZSBub25jZQ==")).unwrap();
    assert!(response.contains("Sec-WebSocket-Accept: s3pPLMBiTxaQ9kYGzzhZRbK+xOo=\r\n"));
}

#[test]
fn parse_masked_hello() {
    let buffer = [0x81, 0x85, 0x37, 0xfa, 0x21, 0x3d, 0x7f, 0x9f, 0x4d, 0x51, 0x58];
    match WebSocket::new().parse_frame(&buffer) {
        Ok(Frame::Text(data)) => assert_eq!(data, b"Hello"),
        other => panic!("unexpected {:?}", other),
    }
}

#[test]
fn parse_ignores_what_follows_the_frame() {
    let mut buffer = masked(0x02, &[1, 2, 3], [9, 8, 7, 6]);
    buffer.resize(2048, 0xAA);
    match WebSocket::new().parse_frame(&buffer) {
        Ok(Frame::Binary(data)) => assert_eq!(data, vec![1, 2, 3]),
        other => panic!("unexpected {:?}", other),
    }
}

#[test]
fn parse_control_frames() {
    let socket = WebSocket::new();
    assert!(matches!(socket.parse_frame(&masked(0x08, &[], [1, 2, 3, 4])), Ok(Frame::Close)));
    assert!(matches!(socket.parse_frame(&masked(0x09, &[], [1, 2, 3, 4])), Ok(Frame::Ping)));
    assert!(matches!(socket.parse_frame(&masked(0x0A, &[], [1, 2, 3, 4])), Ok(Frame::Pong)));
}

#[test]
fn parse_extended_length() {
    let payload: Vec<u8> = (0..300u32).map(|i| (i % 251) as u8).collect();
    let buffer = masked(0x02, &payload, [0xde, 0xad, 0xbe, 0xef]);
    assert_eq!(buffer[1], 0x80 | 126);
    match WebSocket::new().parse_frame(&buffer) {
        Ok(Frame::Binary(data)) => assert_eq!(data, payload),
        other => panic!("unexpected {:?}", other),
    }
}

#[test]
fn parse_rejects_short_buffers() {
    for buffer in [&[][..], &[0x81][..], &[0x81, 0x85, 1, 2, 3, 4, 5][..], &[0x81, 0xFE, 0][..]] {
        match frame_error(buffer) {
            WebSocketError::FrameParseError(message) => assert_eq!(message, "Frame too short"),
            other => panic!("unexpected {:?}", other),
        }
    }
}

#[test]
fn parse_rejects_unmasked_frames() {
    match frame_error(&[0x81, 0x05, b'H', b'e', b'l', b'l', b'o']) {
        WebSocketError::FrameParseError(message) => assert_eq!(message, "Frame not masked"),
        other => panic!("unexpected {:?}", other),
    }
}

#[test]
fn parse_rejects_64_bit_lengths() {
    let mut buffer = vec![0x82, 0xFF];
    buffer.extend_from_slice(&[0; 32]);
    match frame_error(&buffer) {
        WebSocketError::FrameParseError(message) => {
            assert_eq!(message, "64-bit payload length not supported")
        }
        other => panic!("unexpected {:?}", other),
    }
}

#[test]
fn parse_rejects_unknown_opcodes() {
    match frame_error(&masked(0x03, b"x", [1, 1, 1, 1])) {
        WebSocketError::UnsupportedOpCode(code) => assert_eq!(code, 3),
        other => panic!("unexpected {:?}", other),
    }
    match frame_error(&masked(0x0F, b"", [1, 1, 1, 1])) {
        WebSocketError::UnsupportedOpCode(code) => assert_eq!(code, 15),
        other => panic!("unexpected {:?}", other),
    }
}

#[test]
fn opcode_is_the_low_nibble() {
    let mut buffer = masked(0x01, b"hi", [4, 3, 2, 1]);
    buffer[0] = 0x71;
    assert!(matches!(WebSocket::new().parse_frame(&buffer), Ok(Frame::Text(_))));
}

#[test]
fn encode_short_text() {
    assert_eq!(encode_text(b"Hello"), vec![0x81, 5, b'H', b'e', b'l', b'l', b'o']);
    assert_eq!(encode_text(b""), vec![0x81, 0]);
}

#[test]
fn encode_length_boundaries() {
    let frame = encode_text(&[b'a'; 125]);
    assert_eq!(&frame[..2], &[0x81, 125]);
    assert_eq!(frame.len(), 2 + 125);
    let frame = encode_text(&[b'a'; 126]);
    assert_eq!(&frame[..4], &[0x81, 126, 0, 126]);
    assert_eq!(frame.len(), 4 + 126);
    let frame = encode_text(&vec![b'a'; 65535]);
    assert_eq!(&frame[..4], &[0x81, 126, 0xFF, 0xFF]);
    assert_eq!(frame.len(), 4 + 65535);
    let frame = encode_text(&vec![b'a'; 65536]);
    assert_eq!(&frame[..10], &[0x81, 127, 0, 0, 0, 0, 0, 1, 0, 0]);
    assert_eq!(frame.len(), 10 + 65536);
    let frame = encode_text(&vec![b'z'; 0x01_02_03]);
    assert_eq!(&frame[..10], &[0x81, 127, 0, 0, 0, 0, 0, 1, 2, 3]);
}

#[test]
fn ping_and_pong_are_empty_frames() {
    assert_eq!(encode_ping(), vec![0x89, 0x00]);
    assert_eq!(encode_pong(), vec![0x8A, 0x00]);
}

#[test]
fn text_is_echoed() {
    let mut socket = WebSocket::new();
    match socket.on_read(&masked(0x01, b"echo me", [5, 6, 7, 8]), 13).unwrap() {
        Step::Reply(bytes) => assert_eq!(bytes, encode_text(b"echo me")),
        other => panic!("unexpected {:?}", other),
    }
}

#[test]
fn ping_is_answered_with_pong() {
    let mut socket = WebSocket::new();
    match socket.on_read(&masked(0x09, b"", [5, 6, 7, 8]), 6).unwrap() {
        Step::Reply(bytes) => assert_eq!(bytes, vec![0x8A, 0x00]),
        other => panic!("unexpected {:?}", other),
    }
}

#[test]
fn pong_makes_the_next_round_send_a_ping() {
    let mut socket = WebSocket::new();
    assert!(socket.before_read().is_none());
    assert!(matches!(socket.on_read(&masked(0x0A, b"", [1, 2, 3, 4]), 6), Ok(Step::Continue)));
    assert_eq!(socket.before_read(), Some(vec![0x89, 0x00]));
    assert!(socket.before_read().is_none());
}

#[test]
fn binary_is_handed_to_the_caller() {
    let mut socket = WebSocket::new();
    match socket.on_read(&masked(0x02, &[1, 2], [1, 2, 3, 4]), 8).unwrap() {
        Step::Received(bytes) => assert_eq!(bytes, vec![1, 2]),
        other => panic!("unexpected {:?}", other),
    }
}

#[test]
fn close_ends_the_loop() {
    let mut socket = WebSocket::new();
    assert!(matches!(socket.on_read(&masked(0x08, b"", [1, 2, 3, 4]), 6), Ok(Step::Close)));
}

#[test]
fn empty_read_changes_nothing() {
    let mut socket = WebSocket::new();
    assert!(matches!(socket.on_read(&[0u8; 16], 0), Ok(Step::Continue)));
    assert!(socket.before_read().is_none());
}

#[test]
fn errors_describe_themselves() {
    assert_eq!(
        WebSocketError::HandshakeError("no key".to_string()).describe(),
        "Handshake error: no key"
    );
    assert_eq!(
        WebSocketError::FrameParseError("Frame too short".to_string()).describe(),
        "Frame parse error: Frame too short"
    );
    assert_eq!(WebSocketError::UnsupportedOpCode(11).describe(), "Unsupported opcode: 11");
    let io = std::io::Error::new(std::io::ErrorKind::Other, "boom");
    assert_eq!(WebSocketError::from_io(io).describe(), "IO error: boom");
    let utf8 = String::from_utf8(vec![0xff]).unwrap_err();
    assert!(WebSocketError::from_utf8(utf8).describe().starts_with("UTF-8 error: "));
}

#[test]
fn text_that_is_not_utf8_is_an_error() {
    let mut socket = WebSocket::new();
    let frame = masked(0x01, &[b'a', 0xff, b'b'], [1, 2, 3, 4]);
    match socket.on_read(&frame, frame.len()) {
        Err(WebSocketError::TextParseError(_)) => {}
        other => panic!("unexpected {:?}", other),
    }
    assert!(socket.before_read().is_none());
}

#[test]
fn non_ascii_text_is_echoed_byte_for_byte() {
    let mut socket = WebSocket::new();
    let text = "héllo wörld ✓".as_bytes();
    match socket.on_frame(Frame::Text(text.to_vec())).unwrap() {
        Step::Reply(bytes) => assert_eq!(bytes, encode_text(text)),
        other => panic!("unexpected {:?}", other),
    }
}

#[test]
fn errors_convert_from_their_causes() {
    let io = std::io::Error::new(std::io::ErrorKind::BrokenPipe, "pipe");
    assert!(matches!(WebSocketError::from(io), WebSocketError::IoError(_)));
    let utf8 = String::from_utf8(vec![0xc0]).unwrap_err();
    assert!(matches!(WebSocketError::from(utf8), WebSocketError::TextParseError(_)));
}

#[test]
fn upgrade_response_holds_the_accept_value() {
    assert_eq!(
        scratch_server::websockets::upgrade_response("abc="),
        "HTTP/1.1 101 Switching Protocols\r\nUpgrade: websocket\r\nConnection: Upgrade\r\n\
         Sec-WebSocket-Accept: abc=\r\n\r\n"
    );
}

#[test]
fn upgrade_is_asked_for_by_header() {
    let mut headers = scratch_server::text_map::TextMap::new();
    assert!(!scratch_server::websockets::wants_upgrade(&headers));
    headers.insert("Upgrade".to_string(), "h2c".to_string());
    assert!(!scratch_server::websockets::wants_upgrade(&headers));
    headers.insert("Upgrade".to_string(), "websocket".to_string());
    assert!(scratch_server::websockets::wants_upgrade(&headers));
}
