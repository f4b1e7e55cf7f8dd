use vstd::prelude::*;

use crate::types::Error;

verus! {

/// A close frame: status code and reason.
#[derive(Debug, Clone, PartialEq, Eq)]
pub struct CloseFrame {
    pub code: u16,
    pub reason: String,
}

/// A WebSocket message as the bridge hands it to its listeners, or an error
/// report in place of a message.
#[derive(Debug, Clone, PartialEq, Eq)]
pub enum WebSocketMessage {
    Text(String),
    Binary(Vec<u8>),
    Ping(Vec<u8>),
    Pong(Vec<u8>),
    Close(Option<CloseFrame>),
    Error(String),
}

/// A message as it travels on the socket. `Frame` stands for a raw frame,
/// which a reader never yields.
#[derive(Debug, Clone, PartialEq, Eq)]
pub enum WireMessage {
    Text(String),
    Binary(Vec<u8>),
    Ping(Vec<u8>),
    Pong(Vec<u8>),
    Close(Option<CloseFrame>),
    Frame,
}

/// The message that a socket message becomes, for every kind but a raw frame.
pub open spec fn message_of_wire(w: WireMessage) -> WebSocketMessage
    recommends
        !(w is Frame),
{
    match w {
        WireMessage::Text(t) => WebSocketMessage::Text(t),
        WireMessage::Binary(b) => WebSocketMessage::Binary(b),
        WireMessage::Ping(b) => WebSocketMessage::Ping(b),
        WireMessage::Pong(b) => WebSocketMessage::Pong(b),
        WireMessage::Close(f) => WebSocketMessage::Close(f),
        WireMessage::Frame => arbitrary(),
    }
}

/// The socket message that a message becomes, for every kind but an error report.
pub open spec fn wire_of_message(m: WebSocketMessage) -> WireMessage
    recommends
        !(m is Error),
{
    match m {
        WebSocketMessage::Text(t) => WireMessage::Text(t),
        WebSocketMessage::Binary(b) => WireMessage::Binary(b),
        WebSocketMessage::Ping(b) => WireMessage::Ping(b),
        WebSocketMessage::Pong(b) => WireMessage::Pong(b),
        WebSocketMessage::Close(f) => WireMessage::Close(f),
        WebSocketMessage::Error(_) => arbitrary(),
    }
}

impl WebSocketMessage {
    /// Converts a message read from the socket; a raw frame is never read.
    pub fn from_wire(w: WireMessage) -> (m: WebSocketMessage)
        requires
            !(w is Frame),
        ensures
            m == message_of_wire(w),
            w matches WireMessage::Text(t) ==> m == WebSocketMessage::Text(t),
            w matches WireMessage::Binary(b) ==> m == WebSocketMessage::Binary(b),
            w matches WireMessage::Ping(b) ==> m == WebSocketMessage::Ping(b),
            w matches WireMessage::Pong(b) ==> m == WebSocketMessage::Pong(b),
            w matches WireMessage::Close(f) ==> m == WebSocketMessage::Close(f),
    {
        match w {
            WireMessage::Text(t) => WebSocketMessage::Text(t),
            WireMessage::Binary(b) => WebSocketMessage::Binary(b),
            WireMessage::Ping(b) => WebSocketMessage::Ping(b),
            WireMessage::Pong(b) => WebSocketMessage::Pong(b),
            WireMessage::Close(f) => WebSocketMessage::Close(f),
            WireMessage::Frame => unreached(),
        }
    }

    /// Converts a message to be sent on the socket; an error report is never sent.
    pub fn into_wire(self) -> (w: WireMessage)
        requires
            !(self is Error),
        ensures
            w == wire_of_message(self),
            self matches WebSocketMessage::Text(t) ==> w == WireMessage::Text(t),
            self matches WebSocketMessage::Binary(b) ==> w == WireMessage::Binary(b),
            self matches WebSocketMessage::Ping(b) ==> w == WireMessage::Ping(b),
            self matches WebSocketMessage::Pong(b) ==> w == WireMessage::Pong(b),
            self matches WebSocketMessage::Close(f) ==> w == WireMessage::Close(f),
    {
        match self {
            WebSocketMessage::Text(t) => WireMessage::Text(t),
            WebSocketMessage::Binary(b) => WireMessage::Binary(b),
            WebSocketMessage::Ping(b) => WireMessage::Ping(b),
            WebSocketMessage::Pong(b) => WireMessage::Pong(b),
            WebSocketMessage::Close(f) => WireMessage::Close(f),
            WebSocketMessage::Error(_) => unreached(),
        }
    }

    /// The error report that tells listeners about `error`.
    pub fn from_error(error: &Error) -> (m: WebSocketMessage)
        ensures
            m matches WebSocketMessage::Error(text) && (error.message() matches Some(d) ==> text@
                == d),
    {
        WebSocketMessage::Error(error.to_string())
    }
}

/// Reading a message back from what it was sent as gives the message itself.
pub proof fn lemma_message_round_trip(m: WebSocketMessage)
    requires
        !(m is Error),
    ensures
        message_of_wire(wire_of_message(m)) == m,
{
}

/// Sending a read message again gives the socket message that was read.
pub proof fn lemma_wire_round_trip(w: WireMessage)
    requires
        !(w is Frame),
    ensures
        wire_of_message(message_of_wire(w)) == w,
{
}

/// Converting a message in either direction keeps its kind and its
/// contents: a text keeps its text, a binary, ping or pong message its
/// bytes, and a close message its frame, code and reason alike.
pub proof fn lemma_conversion_keeps_contents(t: String, b: Vec<u8>, f: Option<CloseFrame>)
    ensures
        message_of_wire(WireMessage::Text(t)) == WebSocketMessage::Text(t),
        message_of_wire(WireMessage::Binary(b)) == WebSocketMessage::Binary(b),
        message_of_wire(WireMessage::Ping(b)) == WebSocketMessage::Ping(b),
        message_of_wire(WireMessage::Pong(b)) == WebSocketMessage::Pong(b),
        message_of_wire(WireMessage::Close(f)) == WebSocketMessage::Close(f),
        wire_of_message(WebSocketMessage::Text(t)) == WireMessage::Text(t),
        wire_of_message(WebSocketMessage::Binary(b)) == WireMessage::Binary(b),
        wire_of_message(WebSocketMessage::Ping(b)) == WireMessage::Ping(b),
        wire_of_message(WebSocketMessage::Pong(b)) == WireMessage::Pong(b),
        wire_of_message(WebSocketMessage::Close(f)) == WireMessage::Close(f),
{
}

} // verus!
