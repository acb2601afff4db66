//! The message codec: a lossless, bidirectional translation between
//! wire-level WebSocket frames and the boundary-safe `Message` representation.
//!
//! `WireFrame` models, with plain values, every frame kind the wire layer can
//! hand to this layer.  The one kind that cannot be represented across the
//! boundary (a low-level raw frame) is modelled by `WireFrame::Raw`; decoding
//! it fails with a diagnosable error instead of being dropped silently.

use vstd::prelude::*;

verus! {

/// A message as it crosses the trust boundary: a closed variant set, shared
/// verbatim by both sides.
#[derive(Clone, PartialEq, Eq, Debug)]
pub enum Message {
    Text(String),
    Binary(Vec<u8>),
    Ping(Vec<u8>),
    Pong(Vec<u8>),
    Close(Option<CloseFrame>),
}

/// The payload of a close message: a numeric status code and a reason text.
#[derive(Clone, PartialEq, Eq, Debug)]
pub struct CloseFrame {
    pub code: CloseCode,
    pub reason: String,
}

/// A WebSocket close status code.
#[derive(Copy, Clone, PartialEq, Eq, Structural, Debug)]
pub struct CloseCode(pub u16);

/// A wire-level frame, modelled with plain values.  `Raw` stands for the
/// low-level frame kind that has no boundary representation; the transport is
/// configured so that it never reaches this layer, but the codec still
/// defines behavior for it.
#[derive(Clone, PartialEq, Eq, Debug)]
pub enum WireFrame {
    Text(String),
    Binary(Vec<u8>),
    Ping(Vec<u8>),
    Pong(Vec<u8>),
    Close(Option<(u16, String)>),
    Raw,
}

/// Decoding failure: the frame kind has no boundary representation.
#[derive(Copy, Clone, PartialEq, Eq, Structural, Debug)]
pub enum CodecError {
    UnrepresentableFrame,
}

/// What `encode` returns: each message variant maps to the frame kind of the
/// same shape, with its payload unchanged.
pub open spec fn spec_encode(m: Message) -> WireFrame {
    match m {
        Message::Text(s) => WireFrame::Text(s),
        Message::Binary(b) => WireFrame::Binary(b),
        Message::Ping(b) => WireFrame::Ping(b),
        Message::Pong(b) => WireFrame::Pong(b),
        Message::Close(None) => WireFrame::Close(None),
        Message::Close(Some(f)) => WireFrame::Close(Some((f.code.0, f.reason))),
    }
}

/// What `decode` returns: every representable frame maps back to the message
/// of the same shape; the raw frame kind is rejected.
pub open spec fn spec_decode(f: WireFrame) -> Result<Message, CodecError> {
    match f {
        WireFrame::Text(s) => Ok(Message::Text(s)),
        WireFrame::Binary(b) => Ok(Message::Binary(b)),
        WireFrame::Ping(b) => Ok(Message::Ping(b)),
        WireFrame::Pong(b) => Ok(Message::Pong(b)),
        WireFrame::Close(None) => Ok(Message::Close(None)),
        WireFrame::Close(Some((code, reason))) => Ok(Message::Close(Some(
            (CloseFrame { code: CloseCode(code), reason })
        ))),
        WireFrame::Raw => Err(CodecError::UnrepresentableFrame),
    }
}

/// Translates a boundary message into its wire-level frame.  Total: every
/// message has a frame, and the frame is never the raw kind.
pub fn encode(m: Message) -> (f: WireFrame)
    ensures
        f == spec_encode(m),
        !(f is Raw),
{
    match m {
        Message::Text(s) => WireFrame::Text(s),
        Message::Binary(b) => WireFrame::Binary(b),
        Message::Ping(b) => WireFrame::Ping(b),
        Message::Pong(b) => WireFrame::Pong(b),
        Message::Close(None) => WireFrame::Close(None),
        Message::Close(Some(f)) => WireFrame::Close(Some((f.code.0, f.reason))),
    }
}

/// Translates a wire-level frame into its boundary message, rejecting the
/// one frame kind that cannot be represented.
pub fn decode(f: WireFrame) -> (r: Result<Message, CodecError>)
    ensures
        r == spec_decode(f),
{
    match f {
        WireFrame::Text(s) => Ok(Message::Text(s)),
        WireFrame::Binary(b) => Ok(Message::Binary(b)),
        WireFrame::Ping(b) => Ok(Message::Ping(b)),
        WireFrame::Pong(b) => Ok(Message::Pong(b)),
        WireFrame::Close(None) => Ok(Message::Close(None)),
        WireFrame::Close(Some((code, reason))) => Ok(Message::Close(Some(
            (CloseFrame { code: CloseCode(code), reason })
        ))),
        WireFrame::Raw => Err(CodecError::UnrepresentableFrame),
    }
}

/// Round trip: decoding the encoding of any message yields that message.
pub proof fn lemma_round_trip(m: Message)
    ensures
        spec_decode(spec_encode(m)) == Ok::<Message, CodecError>(m),
{
}

/// The frame sequence produced for a sequence of messages.
pub open spec fn encode_all(ms: Seq<Message>) -> Seq<WireFrame> {
    ms.map_values(|m: Message| spec_encode(m))
}

/// The message sequence recovered from a sequence of frames.
pub open spec fn decode_all(fs: Seq<WireFrame>) -> Seq<Result<Message, CodecError>> {
    fs.map_values(|f: WireFrame| spec_decode(f))
}

/// Order preservation through the codec: a peer that decodes, in order, the
/// frames produced for the messages `ms` observes exactly `ms`, in that
/// order.
pub proof fn lemma_round_trip_all(ms: Seq<Message>)
    ensures
        decode_all(encode_all(ms)) == ms.map_values(|m: Message| Ok::<Message, CodecError>(m)),
{
    let lhs = decode_all(encode_all(ms));
    let rhs = ms.map_values(|m: Message| Ok::<Message, CodecError>(m));
    assert forall|i: int| 0 <= i < ms.len() implies lhs[i] == rhs[i] by {
        lemma_round_trip(ms[i]);
    }
    assert(lhs =~= rhs);
}

} // verus!
