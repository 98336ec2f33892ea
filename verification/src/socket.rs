//! What arrives on a streaming connection and what it calls for.
//!
//! The host reads the socket and decodes payloads; the functions here decide
//! what each arrival means: an item to deliver, a frame to answer with,
//! nothing, or the end of the session. A frame that cannot be decoded is
//! dropped and the session goes on.

use vstd::prelude::*;
use vstd::string::{StrSliceExecFns, StringExecFns};
use vstd::utf8::encode_utf8;

verus! {

/// A frame of a bidirectional connection.
#[derive(Debug, Clone, PartialEq, Eq)]
pub enum Frame {
    /// A payload as text.
    Text(String),
    /// A payload as bytes.
    Binary(Vec<u8>),
    /// A ping of the protocol, with its payload.
    Ping(Vec<u8>),
    /// The answer to a ping, with the ping's payload.
    Pong(Vec<u8>),
    /// The end of the session.
    Close,
}

/// What the host found when it looked for the next arrival.
#[derive(Debug, PartialEq, Eq)]
pub enum SocketEvent<R> {
    /// A payload frame arrived and was decoded to an item, or could not be
    /// decoded, for the reason given.
    Payload(Result<R, String>),
    /// A ping arrived, with this payload.
    Ping(Vec<u8>),
    /// An answer to a ping arrived.
    Pong,
    /// The other side closed the session.
    Close,
    /// The transport failed, for the reason given.
    Error(String),
    /// The stream of arrivals ended.
    End,
    /// Nothing arrived within the poll interval.
    Idle,
}

/// What an arrival calls for.
#[derive(Debug, Clone, PartialEq, Eq)]
pub enum SocketStep<R> {
    /// Hand this item to the reader and go on.
    Deliver(R),
    /// Send this frame and go on.
    Reply(Frame),
    /// Go on.
    Continue,
    /// The session is over.
    Finish,
}

/// What `event` calls for: a decoded payload is delivered, a malformed one
/// dropped; a ping is answered with a pong of the same payload; a close, a
/// transport error and the end of the stream finish the session; anything
/// else changes nothing.
pub open spec fn step_for<R>(event: SocketEvent<R>) -> SocketStep<R> {
    match event {
        SocketEvent::Payload(Ok(item)) => SocketStep::Deliver(item),
        SocketEvent::Payload(Err(_)) => SocketStep::Continue,
        SocketEvent::Ping(payload) => SocketStep::Reply(Frame::Pong(payload)),
        SocketEvent::Pong => SocketStep::Continue,
        SocketEvent::Close => SocketStep::Finish,
        SocketEvent::Error(_) => SocketStep::Finish,
        SocketEvent::End => SocketStep::Finish,
        SocketEvent::Idle => SocketStep::Continue,
    }
}

/// Decides what an arrival calls for.
pub fn socket_step<R>(event: SocketEvent<R>) -> (step: SocketStep<R>)
    ensures
        step == step_for(event),
{
    match event {
        SocketEvent::Payload(Ok(item)) => SocketStep::Deliver(item),
        SocketEvent::Payload(Err(_)) => SocketStep::Continue,
        SocketEvent::Ping(payload) => SocketStep::Reply(Frame::Pong(payload)),
        SocketEvent::Pong => SocketStep::Continue,
        SocketEvent::Close => SocketStep::Finish,
        SocketEvent::Error(_) => SocketStep::Finish,
        SocketEvent::End => SocketStep::Finish,
        SocketEvent::Idle => SocketStep::Continue,
    }
}

/// What a frame is as an arrival whose payload is taken as it stands, as
/// bytes: a text frame gives the bytes of its text.
pub fn raw_event(frame: Frame) -> (event: SocketEvent<Vec<u8>>)
    ensures
        match frame {
            Frame::Text(text) => event matches SocketEvent::Payload(Ok(bytes)) && bytes@
                == encode_utf8(text@),
            Frame::Binary(bytes) => event == SocketEvent::Payload(Ok::<Vec<u8>, String>(bytes)),
            Frame::Ping(payload) => event == SocketEvent::<Vec<u8>>::Ping(payload),
            Frame::Pong(_) => event == SocketEvent::<Vec<u8>>::Pong,
            Frame::Close => event == SocketEvent::<Vec<u8>>::Close,
        },
{
    match frame {
        Frame::Text(text) => SocketEvent::Payload(Ok(text.as_str().as_bytes_vec())),
        Frame::Binary(bytes) => SocketEvent::Payload(Ok(bytes)),
        Frame::Ping(payload) => SocketEvent::Ping(payload),
        Frame::Pong(_) => SocketEvent::Pong,
        Frame::Close => SocketEvent::Close,
    }
}

/// What the next outgoing item calls for.
#[derive(Debug, Clone, PartialEq, Eq)]
pub enum OutboundStep {
    /// Send this frame; if it cannot be sent, the session is over.
    Send(Frame),
    /// The item could not be encoded: skip it and go on.
    Skip,
    /// There will be no more items: the session is over.
    Finish,
}

/// Decides what the next outgoing item calls for: `None` says that the
/// source of items has ended; an item comes with its encoding, or with the
/// reason for which it could not be encoded.
pub fn outbound_step(next: Option<Result<String, String>>) -> (step: OutboundStep)
    ensures
        step == match next {
            Some(Ok(text)) => OutboundStep::Send(Frame::Text(text)),
            Some(Err(_)) => OutboundStep::Skip,
            None => OutboundStep::Finish,
        },
{
    match next {
        Some(Ok(text)) => OutboundStep::Send(Frame::Text(text)),
        Some(Err(_)) => OutboundStep::Skip,
        None => OutboundStep::Finish,
    }
}

/// The frame that ends a session. It is sent once the session is over,
/// whichever side ended it.
pub fn closing_frame() -> (frame: Frame)
    ensures
        frame == Frame::Close,
{
    Frame::Close
}

/// What an arrival means to a reader that wants to hear of every failure as
/// a text: the item, the text to report in its place, or nothing to report.
pub fn text_report<R>(event: SocketEvent<R>) -> (report: Option<Result<R, String>>)
    ensures
        match event {
            SocketEvent::Payload(Ok(item)) => report == Some(Ok::<R, String>(item)),
            SocketEvent::Payload(Err(reason)) => report matches Some(Err(text)) && text@
                == "Parse error: "@ + reason@,
            SocketEvent::Error(reason) => report matches Some(Err(text)) && text@
                == "WebSocket error: "@ + reason@,
            _ => report.is_none(),
        },
{
    match event {
        SocketEvent::Payload(Ok(item)) => Some(Ok(item)),
        SocketEvent::Payload(Err(reason)) => Some(
            Err(String::from_str("Parse error: ").concat(reason.as_str())),
        ),
        SocketEvent::Error(reason) => Some(
            Err(String::from_str("WebSocket error: ").concat(reason.as_str())),
        ),
        _ => None,
    }
}

/// The frame that carries an outgoing item: a text frame with the item's
/// encoding, or none where the item could not be encoded; such an item is
/// skipped and the session goes on.
pub fn outbound_frame(encoded: Result<String, String>) -> (frame: Option<Frame>)
    ensures
        frame == match encoded {
            Ok(text) => Some(Frame::Text(text)),
            Err(_) => None::<Frame>,
        },
{
    match encoded {
        Ok(text) => Some(Frame::Text(text)),
        Err(_) => None,
    }
}

/// A malformed frame ends nothing: whatever the reason it could not be
/// decoded for, the session goes on, and a frame that decodes afterwards is
/// delivered.
pub proof fn lemma_malformed_frame_is_dropped<R>(reason: String, item: R)
    ensures
        step_for(SocketEvent::<R>::Payload(Err(reason))) == SocketStep::<R>::Continue,
        step_for(SocketEvent::Payload(Ok(item))) == SocketStep::Deliver(item),
{
}

/// Only a close, a transport error or the end of the stream finish a
/// session.
pub proof fn lemma_what_finishes_a_session<R>(event: SocketEvent<R>)
    ensures
        step_for(event) == SocketStep::<R>::Finish <==> (event is Close || event is Error
            || event is End),
{
}

} // verus!
