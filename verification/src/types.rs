use vstd::prelude::*;

use crate::decimal::{append_decimal, decimal};
use tokio_tungstenite::tungstenite::Error as WsError;

verus! {

/// Identifier of a server or of a connection.
pub type Id = u32;

/// The WebSocket protocol error of `tungstenite`, carried through unread.
#[verifier::external_type_specification]
#[verifier::external_body]
pub struct ExWsError(WsError);

/// The error `http` gives for a string that is no valid header name.
#[verifier::external_type_specification]
#[verifier::external_body]
pub struct ExInvalidHeaderName(http::header::InvalidHeaderName);

/// The error `http` gives for a string that is no valid header value.
#[verifier::external_type_specification]
#[verifier::external_body]
pub struct ExInvalidHeaderValue(http::header::InvalidHeaderValue);

/// Everything that can go wrong in the bridge.
#[derive(Debug)]
pub enum Error {
    Websocket(WsError),
    ConnectionNotFound(Id),
    InvalidHeaderValue(http::header::InvalidHeaderValue),
    InvalidHeaderName(http::header::InvalidHeaderName),
    FailedToStopServer(Id),
    ServerNotFound(Id),
    /// The connection's channel to its listener was closed; the text says why.
    ConnectionClosed(Id, String),
    InvalidMessageType,
}

/// Calls `ToString::to_string` on a `tungstenite::Error`, that is its
/// `Display` text. Nothing is promised of the text: it depends on the
/// error's contents, which are not visible here.
#[verifier::external_body]
fn websocket_error_text(e: &WsError) -> String {
    e.to_string()
}

/// Calls `ToString::to_string` on an `http::header::InvalidHeaderName`,
/// whose `Display` writes "invalid HTTP header name" whatever the name was.
#[verifier::external_body]
fn invalid_header_name_text(e: &http::header::InvalidHeaderName) -> (s: String)
    ensures
        s@ == "invalid HTTP header name"@,
{
    e.to_string()
}

/// Calls `ToString::to_string` on an `http::header::InvalidHeaderValue`,
/// whose `Display` writes "failed to parse header value" whatever the value was.
#[verifier::external_body]
fn invalid_header_value_text(e: &http::header::InvalidHeaderValue) -> (s: String)
    ensures
        s@ == "failed to parse header value"@,
{
    e.to_string()
}

/// A string holding `prefix` followed by the decimal notation of `n`.
fn text_with_number(prefix: &str, n: u32) -> (s: String)
    ensures
        s@ == prefix@ + decimal(n as nat),
{
    let mut s = String::from_str(prefix);
    append_decimal(&mut s, n);
    s
}

impl Error {
    /// The description of the error, for every error whose text the library
    /// composes or `http` fixes; none for a protocol error (`Websocket`),
    /// which `tungstenite` describes from contents not visible here.
    pub open spec fn message(self) -> Option<Seq<char>> {
        match self {
            Error::Websocket(_) => None,
            Error::ConnectionNotFound(id) => Some(
                "connection not found for the given id: "@ + decimal(id as nat),
            ),
            Error::InvalidHeaderValue(_) => Some("failed to parse header value"@),
            Error::InvalidHeaderName(_) => Some("invalid HTTP header name"@),
            Error::FailedToStopServer(id) => Some("failed to stop server "@ + decimal(id as nat)),
            Error::ServerNotFound(id) => Some(
                "server not found for the given id: "@ + decimal(id as nat),
            ),
            Error::ConnectionClosed(id, _) => Some(
                "connection channel closed for the given id: "@ + decimal(id as nat),
            ),
            Error::InvalidMessageType => Some("invalid message type"@),
        }
    }

    /// The human-readable description of the error.
    pub fn to_string(&self) -> (s: String)
        ensures
            self.message() matches Some(m) ==> s@ == m,
    {
        match self {
            Error::Websocket(e) => websocket_error_text(e),
            Error::ConnectionNotFound(id) => text_with_number(
                "connection not found for the given id: ",
                *id,
            ),
            Error::InvalidHeaderValue(e) => invalid_header_value_text(e),
            Error::InvalidHeaderName(e) => invalid_header_name_text(e),
            Error::FailedToStopServer(id) => text_with_number("failed to stop server ", *id),
            Error::ServerNotFound(id) => text_with_number("server not found for the given id: ", *id),
            Error::ConnectionClosed(id, _) => text_with_number(
                "connection channel closed for the given id: ",
                *id,
            ),
            Error::InvalidMessageType => String::from_str("invalid message type"),
        }
    }
}

} // verus!
