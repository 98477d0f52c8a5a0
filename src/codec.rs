use crate::protocol::{ClientMessage, HelloReply, HelloReplyError, InputEvent, ServerMessage};
use vstd::prelude::*;
use vstd::utf8::{decode_utf8, encode_utf8, valid_utf8};

verus! {

/// Why a frame or a message could not be decoded.
#[derive(Clone, Copy, Debug, PartialEq, Eq, Structural)]
pub enum CodecError {
    /// The bytes hold no message of the protocol.
    Malformed,
}

/// The bytes of `n`, most significant first.
pub open spec fn u16_be(n: u16) -> Seq<u8> {
    seq![(n >> 8u16) as u8, n as u8]
}

pub open spec fn u32_be(n: u32) -> Seq<u8> {
    seq![(n >> 24u32) as u8, (n >> 16u32) as u8, (n >> 8u32) as u8, n as u8]
}

pub open spec fn u64_be(n: u64) -> Seq<u8> {
    seq![
        (n >> 56u64) as u8,
        (n >> 48u64) as u8,
        (n >> 40u64) as u8,
        (n >> 32u64) as u8,
        (n >> 24u64) as u8,
        (n >> 16u64) as u8,
        (n >> 8u64) as u8,
        n as u8,
    ]
}

/// The number whose bytes, most significant first, start `b` at `at`.
pub open spec fn be_u16(b: Seq<u8>, at: int) -> u16 {
    ((b[at] as u16) << 8u16) | (b[at + 1] as u16)
}

pub open spec fn be_u32(b: Seq<u8>, at: int) -> u32 {
    ((b[at] as u32) << 24u32) | ((b[at + 1] as u32) << 16u32) | ((b[at + 2] as u32) << 8u32) | (
    b[at + 3] as u32)
}

pub open spec fn be_u64(b: Seq<u8>, at: int) -> u64 {
    ((b[at] as u64) << 56u64) | ((b[at + 1] as u64) << 48u64) | ((b[at + 2] as u64) << 40u64) | ((
    b[at + 3] as u64) << 32u64) | ((b[at + 4] as u64) << 24u64) | ((b[at + 5] as u64) << 16u64)
        | ((b[at + 6] as u64) << 8u64) | (b[at + 7] as u64)
}

proof fn lemma_u16_be(n: u16)
    ensures
        be_u16(u16_be(n), 0) == n,
{
    let b0 = (n >> 8u16) as u8;
    let b1 = n as u8;
    assert(((b0 as u16) << 8u16) | (b1 as u16) == n) by (bit_vector)
        requires
            b0 == (n >> 8u16) as u8,
            b1 == n as u8,
    ;
}

proof fn lemma_u32_be(n: u32)
    ensures
        be_u32(u32_be(n), 0) == n,
{
    let b0 = (n >> 24u32) as u8;
    let b1 = (n >> 16u32) as u8;
    let b2 = (n >> 8u32) as u8;
    let b3 = n as u8;
    assert(((b0 as u32) << 24u32) | ((b1 as u32) << 16u32) | ((b2 as u32) << 8u32) | (b3 as u32)
        == n) by (bit_vector)
        requires
            b0 == (n >> 24u32) as u8,
            b1 == (n >> 16u32) as u8,
            b2 == (n >> 8u32) as u8,
            b3 == n as u8,
    ;
}

proof fn lemma_u64_be(n: u64)
    ensures
        be_u64(u64_be(n), 0) == n,
{
    let b0 = (n >> 56u64) as u8;
    let b1 = (n >> 48u64) as u8;
    let b2 = (n >> 40u64) as u8;
    let b3 = (n >> 32u64) as u8;
    let b4 = (n >> 24u64) as u8;
    let b5 = (n >> 16u64) as u8;
    let b6 = (n >> 8u64) as u8;
    let b7 = n as u8;
    assert(((b0 as u64) << 56u64) | ((b1 as u64) << 48u64) | ((b2 as u64) << 40u64) | ((
    b3 as u64) << 32u64) | ((b4 as u64) << 24u64) | ((b5 as u64) << 16u64) | ((b6 as u64)
        << 8u64) | (b7 as u64) == n) by (bit_vector)
        requires
            b0 == (n >> 56u64) as u8,
            b1 == (n >> 48u64) as u8,
            b2 == (n >> 40u64) as u8,
            b3 == (n >> 32u64) as u8,
            b4 == (n >> 24u64) as u8,
            b5 == (n >> 16u64) as u8,
            b6 == (n >> 8u64) as u8,
            b7 == n as u8,
    ;
}

/// The byte that stands for a hello reply.
pub open spec fn hello_reply_byte(r: HelloReply) -> u8 {
    match r {
        HelloReply::Accepted => 0u8,
        HelloReply::Rejected(HelloReplyError::VersionMismatch) => 1u8,
    }
}

/// The bytes of a server message: a tag, then its fields most significant byte first.
pub open spec fn encode_server(m: ServerMessage) -> Seq<u8> {
    match m {
        ServerMessage::HelloReply(r) => seq![0u8, hello_reply_byte(r)],
        ServerMessage::Pong { counter } => seq![1u8] + u64_be(counter),
        ServerMessage::Event(e) => seq![2u8] + u16_be(e.kind) + u16_be(e.code) + u32_be(
            e.value as u32,
        ),
    }
}

/// The server message that `b` holds, if any.
pub open spec fn decode_server(b: Seq<u8>) -> Option<ServerMessage> {
    if b.len() == 2 && b[0] == 0 && b[1] == 0 {
        Some(ServerMessage::HelloReply(HelloReply::Accepted))
    } else if b.len() == 2 && b[0] == 0 && b[1] == 1 {
        Some(ServerMessage::HelloReply(HelloReply::Rejected(HelloReplyError::VersionMismatch)))
    } else if b.len() == 9 && b[0] == 1 {
        Some(ServerMessage::Pong { counter: be_u64(b, 1) })
    } else if b.len() == 9 && b[0] == 2 {
        Some(
            ServerMessage::Event(
                InputEvent { kind: be_u16(b, 1), code: be_u16(b, 3), value: be_u32(b, 5) as i32 },
            ),
        )
    } else {
        None
    }
}

/// What a client message says, with its version as characters.
pub enum ClientMessageModel {
    Hello { client_version: Seq<char> },
    Ping { counter: u64 },
}

impl View for ClientMessage {
    type V = ClientMessageModel;

    open spec fn view(&self) -> ClientMessageModel {
        match self {
            ClientMessage::Hello { client_version } => ClientMessageModel::Hello {
                client_version: client_version@,
            },
            ClientMessage::Ping { counter } => ClientMessageModel::Ping { counter: *counter },
        }
    }
}

/// The bytes of a client message: a tag, then the version in UTF-8 or the counter.
pub open spec fn encode_client(m: ClientMessageModel) -> Seq<u8> {
    match m {
        ClientMessageModel::Hello { client_version } => seq![0u8] + encode_utf8(client_version),
        ClientMessageModel::Ping { counter } => seq![1u8] + u64_be(counter),
    }
}

/// The client message that `b` holds, if any.
pub open spec fn decode_client(b: Seq<u8>) -> Option<ClientMessageModel> {
    if b.len() >= 1 && b[0] == 0 && valid_utf8(b.drop_first()) {
        Some(ClientMessageModel::Hello { client_version: decode_utf8(b.drop_first()) })
    } else if b.len() == 9 && b[0] == 1 {
        Some(ClientMessageModel::Ping { counter: be_u64(b, 1) })
    } else {
        None
    }
}

/// Relies on `String::from_utf8`: it succeeds exactly on valid UTF-8, and the string
/// then holds those bytes.
#[verifier::external_body]
fn string_from_utf8(bytes: Vec<u8>) -> (r: Option<String>)
    ensures
        r is Some <==> valid_utf8(bytes@),
        r is Some ==> encode_utf8(r->0@) == bytes@,
{
    String::from_utf8(bytes).ok()
}

fn push_u16(v: &mut Vec<u8>, n: u16)
    ensures
        final(v)@ == old(v)@ + u16_be(n),
{
    v.push((n >> 8u16) as u8);
    v.push(n as u8);
    assert(final(v)@ =~= old(v)@ + u16_be(n));
}

fn push_u32(v: &mut Vec<u8>, n: u32)
    ensures
        final(v)@ == old(v)@ + u32_be(n),
{
    v.push((n >> 24u32) as u8);
    v.push((n >> 16u32) as u8);
    v.push((n >> 8u32) as u8);
    v.push(n as u8);
    assert(final(v)@ =~= old(v)@ + u32_be(n));
}

fn push_u64(v: &mut Vec<u8>, n: u64)
    ensures
        final(v)@ == old(v)@ + u64_be(n),
{
    v.push((n >> 56u64) as u8);
    v.push((n >> 48u64) as u8);
    v.push((n >> 40u64) as u8);
    v.push((n >> 32u64) as u8);
    v.push((n >> 24u64) as u8);
    v.push((n >> 16u64) as u8);
    v.push((n >> 8u64) as u8);
    v.push(n as u8);
    assert(final(v)@ =~= old(v)@ + u64_be(n));
}

fn push_all(v: &mut Vec<u8>, b: &[u8], from: usize)
    requires
        from <= b@.len(),
    ensures
        final(v)@ == old(v)@ + b@.subrange(from as int, b@.len() as int),
{
    let mut i: usize = from;
    while i < b.len()
        invariant
            from <= i <= b@.len(),
            v@ == old(v)@ + b@.subrange(from as int, i as int),
        decreases b@.len() - i,
    {
        v.push(b[i]);
        i = i + 1;
        assert(v@ =~= old(v)@ + b@.subrange(from as int, i as int));
    }
}

fn read_u16(b: &[u8], at: usize) -> (r: u16)
    requires
        at + 2 <= b@.len(),
    ensures
        r == be_u16(b@, at as int),
{
    ((b[at] as u16) << 8u16) | (b[at + 1] as u16)
}

fn read_u32(b: &[u8], at: usize) -> (r: u32)
    requires
        at + 4 <= b@.len(),
    ensures
        r == be_u32(b@, at as int),
{
    ((b[at] as u32) << 24u32) | ((b[at + 1] as u32) << 16u32) | ((b[at + 2] as u32) << 8u32) | (
    b[at + 3] as u32)
}

fn read_u64(b: &[u8], at: usize) -> (r: u64)
    requires
        at + 8 <= b@.len(),
    ensures
        r == be_u64(b@, at as int),
{
    ((b[at] as u64) << 56u64) | ((b[at + 1] as u64) << 48u64) | ((b[at + 2] as u64) << 40u64) | ((
    b[at + 3] as u64) << 32u64) | ((b[at + 4] as u64) << 24u64) | ((b[at + 5] as u64) << 16u64)
        | ((b[at + 6] as u64) << 8u64) | (b[at + 7] as u64)
}

/// The bytes of a server message.
pub fn encode_server_message(m: &ServerMessage) -> (r: Vec<u8>)
    ensures
        r@ == encode_server(*m),
{
    let mut v: Vec<u8> = Vec::new();
    match m {
        ServerMessage::HelloReply(reply) => {
            v.push(0u8);
            match reply {
                HelloReply::Accepted => v.push(0u8),
                HelloReply::Rejected(HelloReplyError::VersionMismatch) => v.push(1u8),
            }
            assert(v@ =~= encode_server(*m));
        },
        ServerMessage::Pong { counter } => {
            v.push(1u8);
            push_u64(&mut v, *counter);
            assert(v@ =~= encode_server(*m));
        },
        ServerMessage::Event(e) => {
            v.push(2u8);
            push_u16(&mut v, e.kind);
            push_u16(&mut v, e.code);
            push_u32(&mut v, e.value as u32);
            assert(v@ =~= encode_server(*m));
        },
    }
    v
}

/// Decodes one server message; malformed bytes are an error.
pub fn decode_server_message(b: &[u8]) -> (r: Result<ServerMessage, CodecError>)
    ensures
        match decode_server(b@) {
            Some(m) => r == Ok::<ServerMessage, CodecError>(m),
            None => r == Err::<ServerMessage, CodecError>(CodecError::Malformed),
        },
{
    let n = b.len();
    if n == 2 && b[0] == 0 && b[1] == 0 {
        Ok(ServerMessage::HelloReply(HelloReply::Accepted))
    } else if n == 2 && b[0] == 0 && b[1] == 1 {
        Ok(ServerMessage::HelloReply(HelloReply::Rejected(HelloReplyError::VersionMismatch)))
    } else if n == 9 && b[0] == 1 {
        Ok(ServerMessage::Pong { counter: read_u64(b, 1) })
    } else if n == 9 && b[0] == 2 {
        let kind = read_u16(b, 1);
        let code = read_u16(b, 3);
        let value = read_u32(b, 5) as i32;
        Ok(ServerMessage::Event(InputEvent { kind, code, value }))
    } else {
        Err(CodecError::Malformed)
    }
}

/// The bytes of a client message.
pub fn encode_client_message(m: &ClientMessage) -> (r: Vec<u8>)
    ensures
        r@ == encode_client(m@),
{
    let mut v: Vec<u8> = Vec::new();
    match m {
        ClientMessage::Hello { client_version } => {
            v.push(0u8);
            let bytes = client_version.as_str().as_bytes();
            push_all(&mut v, bytes, 0);
            assert(bytes@.subrange(0, bytes@.len() as int) =~= bytes@);
            assert(v@ =~= encode_client(m@));
        },
        ClientMessage::Ping { counter } => {
            v.push(1u8);
            push_u64(&mut v, *counter);
            assert(v@ =~= encode_client(m@));
        },
    }
    v
}

/// Decodes one client message; malformed bytes, a version that is not UTF-8
/// included, are an error.
pub fn decode_client_message(b: &[u8]) -> (r: Result<ClientMessage, CodecError>)
    ensures
        match decode_client(b@) {
            Some(m) => r is Ok && r->Ok_0@ == m,
            None => r == Err::<ClientMessage, CodecError>(CodecError::Malformed),
        },
{
    broadcast use vstd::utf8::encode_utf8_decode_utf8;

    let n = b.len();
    if n >= 1 && b[0] == 0 {
        let mut rest: Vec<u8> = Vec::new();
        push_all(&mut rest, b, 1);
        assert(rest@ =~= b@.drop_first());
        match string_from_utf8(rest) {
            Some(client_version) => Ok(ClientMessage::Hello { client_version }),
            None => Err(CodecError::Malformed),
        }
    } else if n == 9 && b[0] == 1 {
        Ok(ClientMessage::Ping { counter: read_u64(b, 1) })
    } else {
        Err(CodecError::Malformed)
    }
}

/// Every server message decodes back from its bytes.
pub proof fn lemma_server_round_trip(m: ServerMessage)
    ensures
        decode_server(encode_server(m)) == Some(m),
{
    let b = encode_server(m);
    match m {
        ServerMessage::HelloReply(r) => {},
        ServerMessage::Pong { counter } => {
            lemma_u64_be(counter);
            assert(b.subrange(1, 9) =~= u64_be(counter));
            assert(be_u64(b, 1) == be_u64(u64_be(counter), 0));
        },
        ServerMessage::Event(e) => {
            lemma_u16_be(e.kind);
            lemma_u16_be(e.code);
            lemma_u32_be(e.value as u32);
            assert(be_u16(b, 1) == be_u16(u16_be(e.kind), 0));
            assert(be_u16(b, 3) == be_u16(u16_be(e.code), 0));
            assert(be_u32(b, 5) == be_u32(u32_be(e.value as u32), 0));
            let v = e.value;
            assert((v as u32) as i32 == v) by (bit_vector);
        },
    }
}

/// Every client message decodes back from its bytes.
pub proof fn lemma_client_round_trip(m: ClientMessageModel)
    ensures
        decode_client(encode_client(m)) == Some(m),
{
    broadcast use vstd::utf8::encode_utf8_decode_utf8, vstd::utf8::encode_utf8_valid_utf8;

    let b = encode_client(m);
    match m {
        ClientMessageModel::Hello { client_version } => {
            assert(b.drop_first() =~= encode_utf8(client_version));
        },
        ClientMessageModel::Ping { counter } => {
            lemma_u64_be(counter);
            assert(be_u64(b, 1) == be_u64(u64_be(counter), 0));
        },
    }
}

/// A frame: the payload's length in four bytes, most significant first, then the
/// payload.
pub open spec fn frame(payload: Seq<u8>) -> Seq<u8> {
    u32_be(payload.len() as u32) + payload
}

/// The first frame at the start of `buf`, with the number of bytes it takes; `None`
/// while `buf` holds only part of it.
pub open spec fn first_frame(buf: Seq<u8>) -> Option<(Seq<u8>, nat)> {
    if buf.len() >= 4 && 4 + be_u32(buf, 0) <= buf.len() {
        let end = 4 + be_u32(buf, 0);
        Some((buf.subrange(4, end as int), end as nat))
    } else {
        None
    }
}

/// Frames a payload; its length must fit in four bytes.
pub fn encode_frame(payload: &[u8]) -> (r: Vec<u8>)
    requires
        payload@.len() <= u32::MAX,
    ensures
        r@ == frame(payload@),
{
    let mut v: Vec<u8> = Vec::new();
    push_u32(&mut v, payload.len() as u32);
    push_all(&mut v, payload, 0);
    assert(payload@.subrange(0, payload@.len() as int) =~= payload@);
    v
}

/// Takes the first frame off `buf`: its payload and the number of bytes it took, or
/// `None` while the frame is incomplete.
pub fn decode_frame(buf: &[u8]) -> (r: Option<(Vec<u8>, usize)>)
    ensures
        match first_frame(buf@) {
            Some((p, n)) => r is Some && (r->0).0@ == p && (r->0).1 == n,
            None => r is None,
        },
{
    if buf.len() < 4 {
        return None;
    }
    let len = read_u32(buf, 0) as usize;
    if len > buf.len() - 4 {
        return None;
    }
    let end = 4 + len;
    let mut payload: Vec<u8> = Vec::new();
    let mut i: usize = 4;
    while i < end
        invariant
            4 <= i <= end <= buf@.len(),
            payload@ == buf@.subrange(4, i as int),
        decreases end - i,
    {
        payload.push(buf[i]);
        i = i + 1;
        assert(payload@ =~= buf@.subrange(4, i as int));
    }
    Some((payload, end))
}

/// A frame is read back whole from the start of any buffer that begins with it,
/// whatever follows it.
pub proof fn lemma_frame_round_trip(payload: Seq<u8>, rest: Seq<u8>)
    requires
        payload.len() <= u32::MAX,
    ensures
        first_frame(frame(payload) + rest) == Some((payload, (4 + payload.len()) as nat)),
{
    let n = payload.len() as u32;
    let buf = frame(payload) + rest;
    lemma_u32_be(n);
    assert(be_u32(buf, 0) == be_u32(u32_be(n), 0));
    assert(buf.subrange(4, 4 + payload.len() as int) =~= payload);
}

} // verus!
