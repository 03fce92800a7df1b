//! The messages of a WebSocket connection.

use vstd::prelude::*;
use vstd::utf8::encode_utf8;

verus! {

/// What a close message says: a numeric code and a reason in words.
#[derive(Debug, Clone, PartialEq, Eq, PartialOrd, Ord, Hash)]
pub struct CloseFrame {
    /// The reason as a code.
    pub code: u16,
    /// The reason as a text string.
    pub reason: String,
}

/// A WebSocket message.
///
/// A ping or pong payload must be shorter than 125 bytes. The protocol
/// engine enforces that limit when the message is sent; it is not checked
/// here.
#[derive(Debug, Clone, PartialEq, Eq, PartialOrd, Ord, Hash)]
pub enum Message {
    /// A text message.
    Text(String),
    /// A binary message.
    Binary(Vec<u8>),
    /// A ping with its payload.
    Ping(Vec<u8>),
    /// A pong with its payload.
    Pong(Vec<u8>),
    /// A close message, with the close frame if there is one.
    Close(Option<CloseFrame>),
}

/// The mathematical value of a [`CloseFrame`].
pub struct CloseFrameView {
    pub code: u16,
    pub reason: Seq<char>,
}

/// The mathematical value of a [`Message`].
pub enum MessageView {
    Text(Seq<char>),
    Binary(Seq<u8>),
    Ping(Seq<u8>),
    Pong(Seq<u8>),
    Close(Option<CloseFrameView>),
}

impl View for CloseFrame {
    type V = CloseFrameView;

    open spec fn view(&self) -> CloseFrameView {
        CloseFrameView { code: self.code, reason: self.reason@ }
    }
}

impl View for Message {
    type V = MessageView;

    open spec fn view(&self) -> MessageView {
        match self {
            Message::Text(text) => MessageView::Text(text@),
            Message::Binary(data) => MessageView::Binary(data@),
            Message::Ping(data) => MessageView::Ping(data@),
            Message::Pong(data) => MessageView::Pong(data@),
            Message::Close(Some(frame)) => MessageView::Close(Some(frame@)),
            Message::Close(None) => MessageView::Close(None),
        }
    }
}

impl MessageView {
    /// The number of payload bytes: the UTF-8 length of a text, the length
    /// of binary, ping and pong data, the UTF-8 length of a close reason,
    /// and zero for a close message without a frame.
    pub open spec fn payload_len(self) -> nat {
        match self {
            MessageView::Text(text) => encode_utf8(text).len(),
            MessageView::Binary(data) => data.len(),
            MessageView::Ping(data) => data.len(),
            MessageView::Pong(data) => data.len(),
            MessageView::Close(Some(frame)) => encode_utf8(frame.reason).len(),
            MessageView::Close(None) => 0,
        }
    }
}

impl Message {
    /// The length of the message's payload in bytes.
    pub fn len(&self) -> (n: usize)
        ensures
            n == self@.payload_len(),
    {
        match self {
            Message::Text(text) => text.as_str().as_bytes().len(),
            Message::Binary(data) => data.len(),
            Message::Ping(data) => data.len(),
            Message::Pong(data) => data.len(),
            Message::Close(Some(frame)) => frame.reason.as_str().as_bytes().len(),
            Message::Close(None) => 0,
        }
    }

    /// Whether the payload holds no byte at all.
    pub fn is_empty(&self) -> (empty: bool)
        ensures
            empty <==> self@.payload_len() == 0,
    {
        self.len() == 0
    }
}

} // verus!
