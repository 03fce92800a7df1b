//! Messages of this library and messages of the protocol engine,
//! tungstenite, converted into each other.
//!
//! Verus sees nothing inside a value of the engine. What such a value holds
//! is given a name, and the conversions below are believed to keep it: that
//! rests on reading tungstenite, not on a proof.

use tokio_tungstenite::tungstenite::protocol::frame::coding::CloseCode;
use tokio_tungstenite::tungstenite::protocol::CloseFrame as EngineCloseFrame;
use tokio_tungstenite::tungstenite::Error as EngineError;
use tokio_tungstenite::tungstenite::Message as EngineMessage;
use vstd::pervasive::unreached;
use vstd::prelude::*;

use crate::error::Error;
use crate::message::{CloseFrame, CloseFrameView, Message, MessageView};

verus! {

/// tungstenite's `Message`, carried through as it is.
#[verifier::external_type_specification]
#[verifier::external_body]
pub struct ExEngineMessage(EngineMessage);

/// tungstenite's `CloseFrame`, carried through as it is.
#[verifier::external_type_specification]
#[verifier::external_body]
pub struct ExEngineCloseFrame(EngineCloseFrame);

/// tungstenite's `Error`, carried through as it is.
#[verifier::external_type_specification]
#[verifier::external_body]
pub struct ExEngineError(EngineError);

/// What a close frame of the engine holds: its close code as the number
/// that goes over the wire, and its reason.
pub uninterp spec fn engine_close_frame(frame: EngineCloseFrame) -> CloseFrameView;

/// What a message of the engine holds. `None` stands for the engine's raw
/// frame, which has no counterpart here.
pub uninterp spec fn engine_message(msg: EngineMessage) -> Option<MessageView>;

/// Trusted: builds a tungstenite `CloseFrame`, with `CloseCode::from` on
/// the code and `Utf8Bytes::from` on the reason. tungstenite maps every
/// `u16` to a `CloseCode` that maps back to the same `u16`, and keeps the
/// reason's text.
#[verifier::external_body]
fn engine_close_frame_of(code: u16, reason: String) -> (frame: EngineCloseFrame)
    ensures
        engine_close_frame(frame) == (CloseFrameView { code, reason: reason@ }),
{
    EngineCloseFrame { code: CloseCode::from(code), reason: reason.into() }
}

/// Trusted: reads a tungstenite `CloseFrame`, with `u16::from` on its
/// `CloseCode` and `to_string` on its reason.
#[verifier::external_body]
fn engine_close_frame_parts(frame: EngineCloseFrame) -> (parts: (u16, String))
    ensures
        engine_close_frame(frame) == (CloseFrameView { code: parts.0, reason: parts.1@ }),
{
    (frame.code.into(), frame.reason.to_string())
}

impl CloseFrame {
    /// The engine's close frame with this code and reason.
    pub fn into_engine(self) -> (frame: EngineCloseFrame)
        ensures
            engine_close_frame(frame) == self@,
    {
        engine_close_frame_of(self.code, self.reason)
    }

    /// The close frame that holds what the engine's close frame holds.
    pub fn from_engine(frame: EngineCloseFrame) -> (own: CloseFrame)
        ensures
            own@ == engine_close_frame(frame),
    {
        let (code, reason) = engine_close_frame_parts(frame);
        CloseFrame { code, reason }
    }

    /// The close frame as it comes back from the engine: turned into the
    /// engine's close frame and read from it again, it holds what it held.
    pub fn round_trip(self) -> (back: CloseFrame)
        ensures
            back@ == self@,
    {
        CloseFrame::from_engine(self.into_engine())
    }
}

/// The payload of a message of the engine, variant by variant. A close
/// frame is handed on as the engine's; the raw frame has no payload here.
pub enum EngineParts {
    Text(String),
    Binary(Vec<u8>),
    Ping(Vec<u8>),
    Pong(Vec<u8>),
    Close(Option<EngineCloseFrame>),
    Frame,
}

/// What the parts of a message of the engine stand for: the message of the
/// same variant with the same payload, and no message for the raw frame.
pub open spec fn spec_message_of(parts: EngineParts) -> Option<MessageView> {
    match parts {
        EngineParts::Text(text) => Some(MessageView::Text(text@)),
        EngineParts::Binary(data) => Some(MessageView::Binary(data@)),
        EngineParts::Ping(data) => Some(MessageView::Ping(data@)),
        EngineParts::Pong(data) => Some(MessageView::Pong(data@)),
        EngineParts::Close(Some(frame)) => Some(
            MessageView::Close(Some(engine_close_frame(frame))),
        ),
        EngineParts::Close(None) => Some(MessageView::Close(None)),
        EngineParts::Frame => None,
    }
}

/// Trusted: tells the six variants of a tungstenite `Message` apart and
/// hands out the payload of each, with `to_string` on a text and `to_vec`
/// on bytes, both of which keep the content.
#[verifier::external_body]
fn engine_parts(msg: EngineMessage) -> (parts: EngineParts)
    ensures
        engine_message(msg) == spec_message_of(parts),
{
    match msg {
        EngineMessage::Text(text) => EngineParts::Text(text.to_string()),
        EngineMessage::Binary(data) => EngineParts::Binary(data.to_vec()),
        EngineMessage::Ping(data) => EngineParts::Ping(data.to_vec()),
        EngineMessage::Pong(data) => EngineParts::Pong(data.to_vec()),
        EngineMessage::Close(frame) => EngineParts::Close(frame),
        EngineMessage::Frame(..) => EngineParts::Frame,
    }
}

/// Trusted: builds the tungstenite `Message::Text`, with `Utf8Bytes::from`
/// on the text, which keeps it.
#[verifier::external_body]
fn engine_text(text: String) -> (msg: EngineMessage)
    ensures
        engine_message(msg) == Some(MessageView::Text(text@)),
{
    EngineMessage::Text(text.into())
}

/// Trusted: builds the tungstenite `Message::Binary`, with `Bytes::from` on
/// the data, which keeps them.
#[verifier::external_body]
fn engine_binary(data: Vec<u8>) -> (msg: EngineMessage)
    ensures
        engine_message(msg) == Some(MessageView::Binary(data@)),
{
    EngineMessage::Binary(data.into())
}

/// Trusted: builds the tungstenite `Message::Ping`, with `Bytes::from` on
/// the data, which keeps them.
#[verifier::external_body]
fn engine_ping(data: Vec<u8>) -> (msg: EngineMessage)
    ensures
        engine_message(msg) == Some(MessageView::Ping(data@)),
{
    EngineMessage::Ping(data.into())
}

/// Trusted: builds the tungstenite `Message::Pong`, with `Bytes::from` on
/// the data, which keeps them.
#[verifier::external_body]
fn engine_pong(data: Vec<u8>) -> (msg: EngineMessage)
    ensures
        engine_message(msg) == Some(MessageView::Pong(data@)),
{
    EngineMessage::Pong(data.into())
}

/// Trusted: builds the tungstenite `Message::Close` around a close frame,
/// or around none.
#[verifier::external_body]
fn engine_close(frame: Option<EngineCloseFrame>) -> (msg: EngineMessage)
    ensures
        engine_message(msg) == Some(
            MessageView::Close(
                match frame {
                    Some(f) => Some(engine_close_frame(f)),
                    None => None,
                },
            ),
        ),
{
    EngineMessage::Close(frame)
}

impl Message {
    /// The engine's message of the same variant with the same payload.
    pub fn into_engine(self) -> (msg: EngineMessage)
        ensures
            engine_message(msg) == Some(self@),
    {
        match self {
            Message::Text(text) => engine_text(text),
            Message::Binary(data) => engine_binary(data),
            Message::Ping(data) => engine_ping(data),
            Message::Pong(data) => engine_pong(data),
            Message::Close(Some(frame)) => engine_close(Some(frame.into_engine())),
            Message::Close(None) => engine_close(None),
        }
    }

    /// The message that holds what the engine's message holds, or `None`
    /// for the engine's raw frame.
    ///
    /// The engine hands out raw frames only to those who read frame by
    /// frame; a reader of whole messages never meets one.
    pub fn try_from_engine(msg: EngineMessage) -> (own: Option<Message>)
        ensures
            match own {
                Some(m) => engine_message(msg) == Some(m@),
                None => engine_message(msg) is None,
            },
    {
        match engine_parts(msg) {
            EngineParts::Text(text) => Some(Message::Text(text)),
            EngineParts::Binary(data) => Some(Message::Binary(data)),
            EngineParts::Ping(data) => Some(Message::Ping(data)),
            EngineParts::Pong(data) => Some(Message::Pong(data)),
            EngineParts::Close(Some(frame)) => Some(
                Message::Close(Some(CloseFrame::from_engine(frame))),
            ),
            EngineParts::Close(None) => Some(Message::Close(None)),
            EngineParts::Frame => None,
        }
    }

    /// The message that holds what the engine's message holds. The engine's
    /// raw frame is not a message and may not be passed.
    pub fn from_engine(msg: EngineMessage) -> (own: Message)
        requires
            engine_message(msg) is Some,
        ensures
            Some(own@) == engine_message(msg),
    {
        match Message::try_from_engine(msg) {
            Some(own) => own,
            None => unreached(),
        }
    }

    /// The message as it comes back from the engine: turned into the
    /// engine's message and read from it again, it holds what it held.
    pub fn round_trip(self) -> (back: Message)
        ensures
            back@ == self@,
    {
        Message::from_engine(self.into_engine())
    }
}

/// The variants of an error of the engine.
#[derive(Debug, Clone, Copy, PartialEq, Eq, Structural, Hash)]
pub enum EngineErrorKind {
    ConnectionClosed,
    AlreadyClosed,
    Io,
    Tls,
    Capacity,
    Protocol,
    WriteBufferFull,
    Utf8,
    AttackAttempt,
    InvalidUrl,
    Http,
    HttpFormat,
}

/// The variant of an error of the engine.
pub uninterp spec fn engine_error_kind(error: EngineError) -> EngineErrorKind;

/// Trusted: tells the variants of a tungstenite `Error` apart.
#[verifier::external_body]
fn engine_error_kind_of(error: &EngineError) -> (kind: EngineErrorKind)
    ensures
        kind == engine_error_kind(*error),
{
    match error {
        EngineError::ConnectionClosed => EngineErrorKind::ConnectionClosed,
        EngineError::AlreadyClosed => EngineErrorKind::AlreadyClosed,
        EngineError::Io(_) => EngineErrorKind::Io,
        EngineError::Tls(_) => EngineErrorKind::Tls,
        EngineError::Capacity(_) => EngineErrorKind::Capacity,
        EngineError::Protocol(_) => EngineErrorKind::Protocol,
        EngineError::WriteBufferFull(_) => EngineErrorKind::WriteBufferFull,
        EngineError::Utf8 => EngineErrorKind::Utf8,
        EngineError::AttackAttempt => EngineErrorKind::AttackAttempt,
        EngineError::Url(_) => EngineErrorKind::InvalidUrl,
        EngineError::Http(_) => EngineErrorKind::Http,
        EngineError::HttpFormat(_) => EngineErrorKind::HttpFormat,
    }
}

/// What an error of the engine means to a connection: an I/O error and a
/// TLS error are failures of the transport below the engine; every other
/// error is a failure of the WebSocket layer.
pub open spec fn spec_error_of_kind(kind: EngineErrorKind) -> Error {
    if kind is Io || kind is Tls {
        Error::Network
    } else {
        Error::Upgrade
    }
}

impl Error {
    /// The kind of an error that the engine reports.
    pub fn of_engine(error: &EngineError) -> (kind: Error)
        ensures
            kind == spec_error_of_kind(engine_error_kind(*error)),
    {
        match engine_error_kind_of(error) {
            EngineErrorKind::Io => Error::Network,
            EngineErrorKind::Tls => Error::Network,
            _ => Error::Upgrade,
        }
    }
}

} // verus!
