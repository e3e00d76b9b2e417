//! The WebSocket upgrade, the frame codec and the decisions of the
//! connection loop.
use crate::encoding::{base64_encode, base64_text, sha1, sha1_digest, utf8_text};
use crate::text::{extend_str, string_of};
use crate::websockets::websocket_error::WebSocketError;
use vstd::prelude::*;
use vstd::slice::slice_to_vec;
use vstd::string::StringSliceAdditionalSpecFns;
use vstd::utf8::{encode_utf8, valid_utf8};

pub mod websocket_error;

verus! {

/// The GUID that the handshake appends to the client's key.
pub const HANDSHAKE_GUID: &'static str = "258EAFA5-E914-47DA-95CA-C5AB0DC85B11";

/// A frame received from the client.
#[derive(Debug)]
pub enum Frame {
    Text(Vec<u8>),
    Binary(Vec<u8>),
    Ping,
    Pong,
    Close,
}

/// A frame as a mathematical value.
pub enum FrameView {
    Text(Seq<u8>),
    Binary(Seq<u8>),
    Ping,
    Pong,
    Close,
}

impl View for Frame {
    type V = FrameView;

    open spec fn view(&self) -> FrameView {
        match self {
            Frame::Text(data) => FrameView::Text(data@),
            Frame::Binary(data) => FrameView::Binary(data@),
            Frame::Ping => FrameView::Ping,
            Frame::Pong => FrameView::Pong,
            Frame::Close => FrameView::Close,
        }
    }
}

/// Why a buffer holds no acceptable frame.
pub enum FrameFault {
    /// The buffer ends before the frame does.
    TooShort,
    /// The mask bit is clear: client frames must be masked.
    NotMasked,
    /// The length field announces a 64-bit length.
    LongLength,
    /// The opcode is none of text, binary, close, ping and pong.
    Opcode(u8),
}

/// The opcode of the frame in `b`: the low four bits of byte 0.
pub open spec fn frame_opcode(b: Seq<u8>) -> u8 {
    b[0] & 0x0F
}

/// Whether the mask bit of the frame in `b` is set: the high bit of byte 1.
pub open spec fn frame_masked(b: Seq<u8>) -> bool {
    b[1] & 0x80 != 0
}

/// The length field of the frame in `b`: the low seven bits of byte 1.
pub open spec fn frame_length_field(b: Seq<u8>) -> u8 {
    b[1] & 0x7F
}

/// Index of the first mask byte of the frame in `b`.
pub open spec fn frame_mask_offset(b: Seq<u8>) -> int {
    if frame_length_field(b) == 126 {
        4
    } else {
        2
    }
}

/// The payload length of the frame in `b`: the length field itself, or the
/// big-endian number in bytes 2 and 3 where the field is 126.
pub open spec fn frame_payload_len(b: Seq<u8>) -> int {
    if frame_length_field(b) == 126 {
        b[2] as int * 256 + b[3] as int
    } else {
        frame_length_field(b) as int
    }
}

/// `data` with byte `i` XORed with `mask[i mod 4]`.
pub open spec fn unmask(data: Seq<u8>, mask: Seq<u8>) -> Seq<u8> {
    Seq::new(data.len(), |i: int| data[i] ^ mask[i % 4])
}

/// The unmasked payload of the frame in `b`.
pub open spec fn frame_payload(b: Seq<u8>) -> Seq<u8> {
    let at = frame_mask_offset(b);
    unmask(b.subrange(at + 4, at + 4 + frame_payload_len(b)), b.subrange(at, at + 4))
}

/// The frame that the start of `b` holds, or why it holds none.
pub open spec fn decode_frame(b: Seq<u8>) -> Result<FrameView, FrameFault> {
    if b.len() < 2 {
        Err(FrameFault::TooShort)
    } else if !frame_masked(b) {
        Err(FrameFault::NotMasked)
    } else if frame_length_field(b) == 126 && b.len() < 4 {
        Err(FrameFault::TooShort)
    } else if frame_length_field(b) == 127 {
        Err(FrameFault::LongLength)
    } else if b.len() < frame_mask_offset(b) + 4 + frame_payload_len(b) {
        Err(FrameFault::TooShort)
    } else if frame_opcode(b) == 0x01 {
        Ok(FrameView::Text(frame_payload(b)))
    } else if frame_opcode(b) == 0x02 {
        Ok(FrameView::Binary(frame_payload(b)))
    } else if frame_opcode(b) == 0x08 {
        Ok(FrameView::Close)
    } else if frame_opcode(b) == 0x09 {
        Ok(FrameView::Ping)
    } else if frame_opcode(b) == 0x0A {
        Ok(FrameView::Pong)
    } else {
        Err(FrameFault::Opcode(frame_opcode(b)))
    }
}

impl WebSocketError {
    /// Whether this error reports `fault`.
    pub open spec fn reports(self, fault: FrameFault) -> bool {
        match fault {
            FrameFault::TooShort => self matches WebSocketError::FrameParseError(m) && m@
                == "Frame too short"@,
            FrameFault::NotMasked => self matches WebSocketError::FrameParseError(m) && m@
                == "Frame not masked"@,
            FrameFault::LongLength => self matches WebSocketError::FrameParseError(m) && m@
                == "64-bit payload length not supported"@,
            FrameFault::Opcode(code) => self matches WebSocketError::UnsupportedOpCode(c) && c
                == code,
        }
    }
}

/// The bytes that announce a payload of `n` bytes, in the shortest form.
pub open spec fn length_bytes(n: nat) -> Seq<u8> {
    if n < 126 {
        seq![n as u8]
    } else if n < 65536 {
        seq![126u8, (n / 256) as u8, (n % 256) as u8]
    } else {
        seq![
            127u8,
            ((n / 0x100_0000_0000_0000) % 256) as u8,
            ((n / 0x1_0000_0000_0000) % 256) as u8,
            ((n / 0x100_0000_0000) % 256) as u8,
            ((n / 0x1_0000_0000) % 256) as u8,
            ((n / 0x100_0000) % 256) as u8,
            ((n / 0x1_0000) % 256) as u8,
            ((n / 0x100) % 256) as u8,
            (n % 256) as u8,
        ]
    }
}

/// The unmasked final text frame that carries `payload`.
pub open spec fn text_frame(payload: Seq<u8>) -> Seq<u8> {
    seq![0x81u8] + length_bytes(payload.len()) + payload
}

/// The ping frame: final, opcode 9, no payload.
pub open spec fn ping_frame() -> Seq<u8> {
    seq![0x89u8, 0x00u8]
}

/// The pong frame: final, opcode 10, no payload.
pub open spec fn pong_frame() -> Seq<u8> {
    seq![0x8Au8, 0x00u8]
}

/// The value of `Sec-WebSocket-Accept` for the client's key: the Base64 text
/// of the SHA-1 digest of the key followed by the handshake GUID.
pub open spec fn accept_value(key: Seq<char>) -> Seq<char> {
    base64_text(sha1(encode_utf8(key) + encode_utf8(HANDSHAKE_GUID@)))
}

/// The response that completes the upgrade with the accept value `accept`.
pub open spec fn upgrade_text(accept: Seq<char>) -> Seq<char> {
    "HTTP/1.1 101 Switching Protocols\r\n"@ + "Upgrade: websocket\r\n"@
        + "Connection: Upgrade\r\n"@ + "Sec-WebSocket-Accept: "@ + accept + "\r\n\r\n"@
}

/// The response that completes the upgrade for the client's key.
pub open spec fn handshake_text(key: Seq<char>) -> Seq<char> {
    upgrade_text(accept_value(key))
}

/// Whether a request with these headers asks for the upgrade: its `Upgrade`
/// header is `websocket`.
pub open spec fn asks_upgrade(headers: Map<Seq<char>, Seq<char>>) -> bool {
    headers.contains_key("Upgrade"@) && headers["Upgrade"@] == "websocket"@
}

/// Whether a request with these headers asks for the upgrade.
pub fn wants_upgrade(headers: &crate::text_map::TextMap) -> (r: bool)
    ensures
        r == asks_upgrade(headers@),
{
    match headers.get("Upgrade") {
        Some(value) => crate::text::str_eq(value.as_str(), "websocket"),
        None => false,
    }
}

/// The value of `Sec-WebSocket-Accept` for the client's key.
pub fn accept_key(key: &str) -> (r: String)
    ensures
        r@ == accept_value(key@),
{
    let mut material = slice_to_vec(key.as_bytes());
    let mut guid = slice_to_vec(HANDSHAKE_GUID.as_bytes());
    material.append(&mut guid);
    let digest = sha1_digest(material.as_slice());
    base64_encode(digest.as_slice())
}

/// The response that completes the upgrade with the accept value `accept`.
pub fn upgrade_response(accept: &str) -> (r: String)
    ensures
        r@ == upgrade_text(accept@),
{
    let mut out: Vec<char> = Vec::new();
    extend_str(&mut out, "HTTP/1.1 101 Switching Protocols\r\n");
    extend_str(&mut out, "Upgrade: websocket\r\n");
    extend_str(&mut out, "Connection: Upgrade\r\n");
    extend_str(&mut out, "Sec-WebSocket-Accept: ");
    extend_str(&mut out, accept);
    extend_str(&mut out, "\r\n\r\n");
    assert(out@ =~= upgrade_text(accept@));
    string_of(out.as_slice())
}

/// The response that completes the upgrade for the client's key.
pub fn handshake_response(key: &str) -> (r: String)
    ensures
        r@ == handshake_text(key@),
{
    let accept = accept_key(key);
    upgrade_response(accept.as_str())
}

/// The unmasked final text frame that carries `payload`.
pub fn encode_text(payload: &[u8]) -> (r: Vec<u8>)
    ensures
        r@ == text_frame(payload@),
{
    let n = payload.len();
    let mut r: Vec<u8> = Vec::new();
    r.push(0x81);
    if n < 126 {
        r.push(n as u8);
    } else if n < 65536 {
        r.push(126);
        r.push((n / 256) as u8);
        r.push((n % 256) as u8);
    } else {
        let m: u64 = n as u64;
        r.push(127);
        r.push(((m / 0x100_0000_0000_0000) % 256) as u8);
        r.push(((m / 0x1_0000_0000_0000) % 256) as u8);
        r.push(((m / 0x100_0000_0000) % 256) as u8);
        r.push(((m / 0x1_0000_0000) % 256) as u8);
        r.push(((m / 0x100_0000) % 256) as u8);
        r.push(((m / 0x1_0000) % 256) as u8);
        r.push(((m / 0x100) % 256) as u8);
        r.push((m % 256) as u8);
    }
    assert(r@ =~= seq![0x81u8] + length_bytes(n as nat));
    let mut body = slice_to_vec(payload);
    r.append(&mut body);
    r
}

/// The ping frame.
pub fn encode_ping() -> (r: Vec<u8>)
    ensures
        r@ == ping_frame(),
{
    let mut r: Vec<u8> = Vec::new();
    r.push(0x89);
    r.push(0x00);
    assert(r@ =~= ping_frame());
    r
}

/// The pong frame.
pub fn encode_pong() -> (r: Vec<u8>)
    ensures
        r@ == pong_frame(),
{
    let mut r: Vec<u8> = Vec::new();
    r.push(0x8A);
    r.push(0x00);
    assert(r@ =~= pong_frame());
    r
}

/// What the connection loop does after a read.
#[derive(Debug)]
pub enum Step {
    /// Send these bytes, then read again.
    Reply(Vec<u8>),
    /// Binary data arrived; there is nothing to send. Read again.
    Received(Vec<u8>),
    /// Nothing to send. Read again.
    Continue,
    /// The client closed the connection: leave the loop.
    Close,
}

/// A `Step` as a mathematical value.
pub enum StepView {
    Reply(Seq<u8>),
    Received(Seq<u8>),
    Continue,
    Close,
}

impl View for Step {
    type V = StepView;

    open spec fn view(&self) -> StepView {
        match self {
            Step::Reply(bytes) => StepView::Reply(bytes@),
            Step::Received(bytes) => StepView::Received(bytes@),
            Step::Continue => StepView::Continue,
            Step::Close => StepView::Close,
        }
    }
}

/// What follows from `frame` on a connection on which a pong is pending or
/// not: the step to take, and whether a pong is pending afterwards. `None`
/// for a text frame that is not UTF-8.
pub open spec fn reaction(frame: FrameView, pending: bool) -> Option<(StepView, bool)> {
    match frame {
        FrameView::Text(data) => if valid_utf8(data) {
            Some((StepView::Reply(text_frame(data)), pending))
        } else {
            None
        },
        FrameView::Binary(data) => Some((StepView::Received(data), pending)),
        FrameView::Ping => Some((StepView::Reply(pong_frame()), pending)),
        FrameView::Pong => Some((StepView::Continue, true)),
        FrameView::Close => Some((StepView::Close, pending)),
    }
}

/// The decisions of one WebSocket connection.
///
/// The connection itself belongs to the caller, who reads and writes; this
/// value says, after each read, what is to be written.
#[derive(Debug)]
pub struct WebSocket {
    pong_received: bool,
}

impl WebSocket {
    /// Whether a pong has arrived since the last ping was sent.
    pub closed spec fn pong_pending(self) -> bool {
        self.pong_received
    }

    /// A connection on which no pong is pending.
    pub fn new() -> (r: Self)
        ensures
            !r.pong_pending(),
    {
        WebSocket { pong_received: false }
    }

    /// The response that opens the connection for the request whose
    /// `Sec-WebSocket-Key` header is `key`; without that header the handshake
    /// fails.
    pub fn connect(&self, key: Option<&str>) -> (r: Result<String, WebSocketError>)
        ensures
            match key {
                Some(k) => r matches Ok(text) && text@ == handshake_text(k@),
                None => r matches Err(WebSocketError::HandshakeError(m)) && m@
                    == "No Sec-WebSocket-Key header"@,
            },
    {
        match key {
            Some(k) => Ok(handshake_response(k)),
            None => Err(WebSocketError::HandshakeError("No Sec-WebSocket-Key header".to_owned())),
        }
    }

    /// What to send before the next read: a ping if a pong is pending, which
    /// is then no longer pending.
    pub fn before_read(&mut self) -> (r: Option<Vec<u8>>)
        ensures
            !final(self).pong_pending(),
            old(self).pong_pending() ==> (r matches Some(bytes) && bytes@ == ping_frame()),
            !old(self).pong_pending() ==> r is None,
    {
        if self.pong_received {
            self.pong_received = false;
            Some(encode_ping())
        } else {
            None
        }
    }

    /// Decodes the frame at the start of `buffer`.
    pub fn parse_frame(&self, buffer: &[u8]) -> (r: Result<Frame, WebSocketError>)
        ensures
            match decode_frame(buffer@) {
                Ok(frame) => r matches Ok(f) && f@ == frame,
                Err(fault) => r matches Err(e) && e.reports(fault),
            },
    {
        if buffer.len() < 2 {
            return Err(WebSocketError::FrameParseError("Frame too short".to_owned()));
        }
        let first_byte = buffer[0];
        let opcode = first_byte & 0x0F;
        let second_byte = buffer[1];
        let masked = (second_byte & 0x80) != 0;
        let field = second_byte & 0x7F;
        assert(field <= 127) by (bit_vector)
            requires
                field == second_byte & 0x7F,
        ;
        let mut payload_len: usize = field as usize;
        if !masked {
            return Err(WebSocketError::FrameParseError("Frame not masked".to_owned()));
        }
        let mut offset: usize = 2;
        if field == 126 {
            if buffer.len() < 4 {
                return Err(WebSocketError::FrameParseError("Frame too short".to_owned()));
            }
            payload_len = (buffer[2] as usize) * 256 + (buffer[3] as usize);
            offset = 4;
        } else if field == 127 {
            return Err(
                WebSocketError::FrameParseError("64-bit payload length not supported".to_owned()),
            );
        }
        if buffer.len() < offset + 4 + payload_len {
            return Err(WebSocketError::FrameParseError("Frame too short".to_owned()));
        }
        let start = offset + 4;
        let mut data: Vec<u8> = Vec::new();
        let mut i: usize = 0;
        while i < payload_len
            invariant
                i <= payload_len,
                start == offset + 4 <= 8,
                start + payload_len <= buffer@.len() <= usize::MAX,
                data@.len() == i,
                forall|k: int|
                    0 <= k < i ==> data@[k] == buffer@[start + k] ^ buffer@[offset + k % 4],
            decreases payload_len - i,
        {
            data.push(buffer[start + i] ^ buffer[offset + i % 4]);
            i += 1;
        }
        assert(data@ =~= frame_payload(buffer@));
        if opcode == 0x01 {
            Ok(Frame::Text(data))
        } else if opcode == 0x02 {
            Ok(Frame::Binary(data))
        } else if opcode == 0x08 {
            Ok(Frame::Close)
        } else if opcode == 0x09 {
            Ok(Frame::Ping)
        } else if opcode == 0x0A {
            Ok(Frame::Pong)
        } else {
            Err(WebSocketError::UnsupportedOpCode(opcode))
        }
    }

    /// What follows from `frame`: text is echoed, a ping is answered with a
    /// pong, a pong is noted so that a ping goes out before the next read,
    /// binary data is handed to the caller, and a close frame ends the loop.
    /// Text that is not UTF-8 is an error.
    pub fn on_frame(&mut self, frame: Frame) -> (r: Result<Step, WebSocketError>)
        ensures
            match reaction(frame@, old(self).pong_pending()) {
                Some((step, pending)) => r matches Ok(s) && s@ == step && final(self).pong_pending() == pending,
                None => r matches Err(WebSocketError::TextParseError(_)) && final(self).pong_pending() == old(self).pong_pending(),
            },
    {
        match frame {
            Frame::Text(data) => {
                proof {
                    if valid_utf8(data@) {
                        vstd::utf8::decode_utf8_encode_utf8(data@);
                    }
                }
                match utf8_text(data) {
                    Ok(text) => Ok(Step::Reply(encode_text(text.as_str().as_bytes()))),
                    Err(error) => Err(WebSocketError::TextParseError(error)),
                }
            },
            Frame::Binary(data) => Ok(Step::Received(data)),
            Frame::Ping => Ok(Step::Reply(encode_pong())),
            Frame::Pong => {
                self.pong_received = true;
                Ok(Step::Continue)
            },
            Frame::Close => Ok(Step::Close),
        }
    }

    /// What follows from a read that filled `buffer` with `size` bytes: an
    /// empty read changes nothing; otherwise the frame at the start of the
    /// buffer is decoded and acted upon.
    pub fn on_read(&mut self, buffer: &[u8], size: usize) -> (r: Result<Step, WebSocketError>)
        ensures
            size == 0 ==> (r matches Ok(Step::Continue) && *final(self) == *old(self)),
            size > 0 ==> match decode_frame(buffer@) {
                Ok(frame) => match reaction(frame, old(self).pong_pending()) {
                    Some((step, pending)) => r matches Ok(s) && s@ == step && final(self).pong_pending() == pending,
                    None => r matches Err(WebSocketError::TextParseError(_)) && final(self).pong_pending() == old(self).pong_pending(),
                },
                Err(fault) => r matches Err(e) && e.reports(fault) && *final(self) == *old(self),
            },
    {
        if size == 0 {
            return Ok(Step::Continue);
        }
        match self.parse_frame(buffer) {
            Ok(frame) => self.on_frame(frame),
            Err(e) => Err(e),
        }
    }
}

} // verus!
