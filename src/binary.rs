use vstd::prelude::*;

use bytes::BytesMut;

use crate::buffer::{
    buffer_byte, buffer_bytes, buffer_extend, buffer_len, buffer_split_to, buffer_with_capacity,
};

verus! {

pub const MSG_TYPE_QUERY: u8 = 1;

pub const MSG_TYPE_RESPONSE: u8 = 2;

pub const MSG_TYPE_ERROR: u8 = 3;

pub const MSG_TYPE_HANDSHAKE: u8 = 4;

pub const MSG_TYPE_HANDSHAKE_RESPONSE: u8 = 5;

pub const PROTOCOL_VERSION: u16 = 1;

/// A type byte and a four-byte length precede every payload.
pub const HEADER_LEN: usize = 5;

/// Room the receive buffer starts with.
pub const INITIAL_CAPACITY: usize = 4096;

/// The server's name in handshake responses.
pub const SERVER_NAME: &'static str = "Rust MCP PostgreSQL Server";

/// The big-endian number in four bytes.
pub open spec fn be_u32(b0: u8, b1: u8, b2: u8, b3: u8) -> u32 {
    (b0 as u32) << 24u32 | (b1 as u32) << 16u32 | (b2 as u32) << 8u32 | (b3 as u32)
}

/// The four big-endian bytes of `n`.
pub open spec fn be_bytes(n: u32) -> Seq<u8> {
    seq![(n >> 24u32) as u8, (n >> 16u32) as u8, (n >> 8u32) as u8, n as u8]
}

pub proof fn lemma_be_round_trip(n: u32)
    ensures
        be_u32((n >> 24u32) as u8, (n >> 16u32) as u8, (n >> 8u32) as u8, n as u8) == n,
{
    assert(((((n >> 24u32) as u8) as u32) << 24u32 | (((n >> 16u32) as u8) as u32) << 16u32 | (((n
        >> 8u32) as u8) as u32) << 8u32 | ((n as u8) as u32)) == n) by (bit_vector);
}

/// The payload length a header announces.
pub open spec fn announced(buf: Seq<u8>) -> nat
    recommends
        buf.len() >= 5,
{
    be_u32(buf[1], buf[2], buf[3], buf[4]) as nat
}

/// The first message in `buf`, once it has arrived whole: its type, its
/// payload, and the bytes it takes.
pub open spec fn frame_at(buf: Seq<u8>) -> Option<(u8, Seq<u8>, nat)> {
    if buf.len() < HEADER_LEN {
        None
    } else if buf.len() < HEADER_LEN + announced(buf) {
        None
    } else {
        Some(
            (
                buf[0],
                buf.subrange(HEADER_LEN as int, HEADER_LEN + announced(buf)),
                (HEADER_LEN + announced(buf)) as nat,
            ),
        )
    }
}

/// The bytes of one message.
pub open spec fn framed(tag: u8, payload: Seq<u8>) -> Seq<u8>
    recommends
        payload.len() <= u32::MAX,
{
    seq![tag] + be_bytes(payload.len() as u32) + payload
}

/// Frame a message: its type, its payload length in four big-endian bytes,
/// and the payload.
pub fn encode_frame(tag: u8, payload: &[u8]) -> (r: BytesMut)
    requires
        payload@.len() <= u32::MAX,
        payload@.len() + HEADER_LEN <= isize::MAX,
    ensures
        buffer_bytes(r) == framed(tag, payload@),
{
    let n = payload.len() as u32;
    let mut buf = buffer_with_capacity(HEADER_LEN + payload.len());
    let header: [u8; 5] = [tag, (n >> 24u32) as u8, (n >> 16u32) as u8, (n >> 8u32) as u8, n as u8];
    buffer_extend(&mut buf, &header);
    buffer_extend(&mut buf, payload);
    assert(header@ =~= seq![tag] + be_bytes(n));
    buf
}

/// One decoded message.
pub struct Frame {
    pub tag: u8,
    pub payload: Vec<u8>,
}

/// What the session does next with the message it decoded.
pub enum BinaryAction {
    /// Check the handshake in this payload.
    Handshake(Vec<u8>),
    /// Run the query in this payload.
    Query(Vec<u8>),
    /// Answer with an error message and code.
    SendError { message: String, code: String },
}

/// One binary connection: buffers what arrives, decodes whole messages, and
/// runs queries only once a handshake succeeded.
pub struct BinarySession {
    buffer: BytesMut,
    authenticated: bool,
}

impl BinarySession {
    pub closed spec fn received(&self) -> Seq<u8> {
        buffer_bytes(self.buffer)
    }

    pub closed spec fn authenticated(&self) -> bool {
        self.authenticated
    }

    pub fn new() -> (r: BinarySession)
        ensures
            r.received().len() == 0,
            !r.authenticated(),
    {
        BinarySession { buffer: buffer_with_capacity(INITIAL_CAPACITY), authenticated: false }
    }

    pub fn is_authenticated(&self) -> (r: bool)
        ensures
            r == self.authenticated(),
    {
        self.authenticated
    }

    /// The number of bytes buffered and not yet decoded.
    pub fn buffered(&self) -> (r: usize)
        ensures
            r == self.received().len(),
    {
        buffer_len(&self.buffer)
    }

    /// Bytes read from the connection, in whatever pieces they came.
    pub fn receive(&mut self, data: &[u8])
        requires
            old(self).received().len() + data@.len() <= isize::MAX,
        ensures
            final(self).received() == old(self).received() + data@,
            final(self).authenticated() == old(self).authenticated(),
    {
        buffer_extend(&mut self.buffer, data);
    }

    /// The first message, once it has arrived whole; it leaves the buffer.
    /// A message that is still partial stays buffered.
    pub fn next_frame(&mut self) -> (r: Option<Frame>)
        ensures
            final(self).authenticated() == old(self).authenticated(),
            r is None <==> frame_at(old(self).received()) is None,
            r is None ==> final(self).received() == old(self).received(),
            r is Some ==> {
                let (tag, payload, used) = frame_at(old(self).received()).unwrap();
                &&& r.unwrap().tag == tag
                &&& r.unwrap().payload@ == payload
                &&& final(self).received() == old(self).received().subrange(
                    used as int,
                    old(self).received().len() as int,
                )
            },
    {
        let have = buffer_len(&self.buffer);
        if have < HEADER_LEN {
            return None;
        }
        let tag = buffer_byte(&self.buffer, 0);
        let len = ((buffer_byte(&self.buffer, 1) as u32) << 24u32 | (buffer_byte(&self.buffer, 2) as u32)
            << 16u32 | (buffer_byte(&self.buffer, 3) as u32) << 8u32 | (buffer_byte(&self.buffer, 4)
            as u32)) as usize;
        if have - HEADER_LEN < len {
            return None;
        }
        let end = HEADER_LEN + len;
        let mut payload: Vec<u8> = Vec::new();
        let mut i: usize = HEADER_LEN;
        while i < end
            invariant
                HEADER_LEN <= i <= end,
                end <= buffer_bytes(self.buffer).len(),
                payload@ == buffer_bytes(self.buffer).subrange(HEADER_LEN as int, i as int),
            decreases end - i,
        {
            payload.push(buffer_byte(&self.buffer, i));
            i = i + 1;
        }
        let _ = buffer_split_to(&mut self.buffer, end);
        Some(Frame { tag, payload })
    }

    /// Decide what to do with the next whole message. A query before a
    /// successful handshake is refused without being run.
    pub fn process_message(&mut self) -> (r: Option<BinaryAction>)
        ensures
            process_post(*old(self), *final(self), r),
    {
        let frame = match self.next_frame() {
            Some(f) => f,
            None => {
                return None;
            },
        };
        if frame.tag == MSG_TYPE_HANDSHAKE {
            Some(BinaryAction::Handshake(frame.payload))
        } else if frame.tag == MSG_TYPE_QUERY {
            if !self.authenticated {
                Some(
                    BinaryAction::SendError {
                        message: "Not authenticated".to_string(),
                        code: "AUTH_REQUIRED".to_string(),
                    },
                )
            } else {
                Some(BinaryAction::Query(frame.payload))
            }
        } else {
            Some(
                BinaryAction::SendError {
                    message: "Unknown message type".to_string(),
                    code: "INVALID_MESSAGE".to_string(),
                },
            )
        }
    }

    /// Settle a handshake that offered `auth_token`: it succeeds exactly when
    /// the token is the expected one. The connection stays open only on success.
    pub fn complete_handshake(&mut self, auth_token: &str, expected_token: &str) -> (r: HandshakeResponse)
        ensures
            final(self).received() == old(self).received(),
            r.success == (auth_token@ == expected_token@),
            final(self).authenticated() == (old(self).authenticated() || r.success),
            r.server_name@ == SERVER_NAME@,
            r.success ==> r.message@ == "Authentication successful"@,
            !r.success ==> r.message@ == "Authentication failed"@,
    {
        let success = crate::text::str_eq(auth_token, expected_token);
        if success {
            self.authenticated = true;
        }
        HandshakeResponse {
            success,
            server_name: SERVER_NAME.to_string(),
            message: if success {
                "Authentication successful".to_string()
            } else {
                "Authentication failed".to_string()
            },
        }
    }
}

/// The answer to a handshake.
pub struct HandshakeResponse {
    pub success: bool,
    pub server_name: String,
    pub message: String,
}

/// What `process_message` does: with no whole message it does nothing;
/// otherwise it takes the message off the buffer and picks the action by its
/// type, running a query only on an authenticated session.
pub open spec fn process_post(s0: BinarySession, s1: BinarySession, r: Option<BinaryAction>) -> bool {
    &&& s1.authenticated() == s0.authenticated()
    &&& match frame_at(s0.received()) {
        None => r is None && s1.received() == s0.received(),
        Some((tag, payload, used)) => {
            &&& s1.received() == s0.received().subrange(used as int, s0.received().len() as int)
            &&& r is Some
            &&& tag == MSG_TYPE_HANDSHAKE ==> (r.unwrap() matches BinaryAction::Handshake(p)
                && p@ == payload)
            &&& tag == MSG_TYPE_QUERY && s0.authenticated() ==> (r.unwrap() matches BinaryAction::Query(
                p,
            ) && p@ == payload)
            &&& tag == MSG_TYPE_QUERY && !s0.authenticated() ==> (r.unwrap() matches BinaryAction::SendError {
                code,
                message,
            } && code@ == "AUTH_REQUIRED"@ && message@ == "Not authenticated"@)
            &&& tag != MSG_TYPE_HANDSHAKE && tag != MSG_TYPE_QUERY ==> (r.unwrap() matches BinaryAction::SendError {
                code,
                message,
            } && code@ == "INVALID_MESSAGE"@ && message@ == "Unknown message type"@)
        },
    }
}

/// Before a successful handshake no query runs: a query message is answered
/// with an authentication error, and processing never authenticates.
pub proof fn lemma_query_needs_handshake(
    s0: BinarySession,
    s1: BinarySession,
    r: Option<BinaryAction>,
)
    requires
        !s0.authenticated(),
        process_post(s0, s1, r),
    ensures
        !(r matches Some(BinaryAction::Query(_))),
        !s1.authenticated(),
        frame_at(s0.received()) is Some && frame_at(s0.received()).unwrap().0 == MSG_TYPE_QUERY
            ==> (r matches Some(BinaryAction::SendError { code, message }) && code@ == "AUTH_REQUIRED"@
            && message@ == "Not authenticated"@),
{
}

/// A message that arrives in two pieces, the header with part of the payload
/// and then the rest, decodes only once whole: the first piece yields nothing,
/// both together yield exactly that message and leave nothing behind.
pub proof fn lemma_split_message_decodes_once(tag: u8, payload: Seq<u8>, k: int)
    requires
        payload.len() <= u32::MAX,
        0 <= k < payload.len(),
    ensures
        frame_at(framed(tag, payload).subrange(0, HEADER_LEN + k)) is None,
        frame_at(framed(tag, payload)) == Some((tag, payload, (HEADER_LEN + payload.len()) as nat)),
        framed(tag, payload).subrange(0, HEADER_LEN + k) + framed(tag, payload).subrange(
            HEADER_LEN + k,
            framed(tag, payload).len() as int,
        ) == framed(tag, payload),
{
    let n = payload.len() as u32;
    let whole = framed(tag, payload);
    let first = whole.subrange(0, HEADER_LEN + k);
    lemma_be_round_trip(n);
    assert(whole[1] == (n >> 24u32) as u8);
    assert(whole[2] == (n >> 16u32) as u8);
    assert(whole[3] == (n >> 8u32) as u8);
    assert(whole[4] == n as u8);
    assert(announced(whole) == payload.len());
    assert(first[1] == whole[1] && first[2] == whole[2] && first[3] == whole[3] && first[4]
        == whole[4]);
    assert(announced(first) == payload.len());
    assert(whole.subrange(HEADER_LEN as int, HEADER_LEN + payload.len()) =~= payload);
    assert(first + whole.subrange(HEADER_LEN + k, whole.len() as int) =~= whole);
}

} // verus!
