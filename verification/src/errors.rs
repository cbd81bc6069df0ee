//! The error taxonomy every layer of the client reports through.
//!
//! Each variant carries the context a caller needs for its own
//! backoff or retry decision: the close code and reason, the
//! retry-after delay, the offending input, or the failure text that
//! the transport reported.

use vstd::prelude::*;
use vstd::string::StringExecFns;
use crate::digits::{dec_chars, u64_to_string};

verus! {

#[derive(Debug, Clone, PartialEq, Eq)]
pub enum DiscordError {
    /// The HTTP transport failed below the protocol (I/O, TLS);
    /// carries the transport's own description.
    Http(String),
    /// The streaming transport failed below the protocol; carries the
    /// transport's own description.
    WebSocket(String),
    /// A payload was not valid JSON; carries the decoder's description.
    Json(String),
    /// Endpoint discovery failed; carries a description.
    Gateway(String),
    /// A caller or peer handed over invalid input; carries the
    /// offending text (an unknown verb, a malformed identifier, an
    /// unrecognized capability field name).
    InvalidData(String),
    /// The stream was closed; carries the close code and reason text.
    ConnectionClosed { code: u16, reason: String },
    /// The request was throttled; carries the server-set delay in
    /// milliseconds before a retry may be issued.
    RateLimited { retry_after_ms: u64 },
    /// The request was refused outright (status 403).
    Forbidden,
    /// A response had a status this protocol never uses; carries the
    /// status code.
    InvalidResponse { status: u16 },
    /// The requested entity does not exist (status 404).
    NotFound,
    /// The server failed (status 500 to 599).
    ServerError,
}

/// The human-readable description of each error.
pub open spec fn spec_describe(e: DiscordError) -> Seq<char> {
    match e {
        DiscordError::Http(m) => "HTTP error: "@ + m@,
        DiscordError::WebSocket(m) => "WebSocket error: "@ + m@,
        DiscordError::Json(m) => "JSON error: "@ + m@,
        DiscordError::Gateway(m) => "Gateway error: "@ + m@,
        DiscordError::InvalidData(m) => "Invalid data: "@ + m@,
        DiscordError::ConnectionClosed { code, reason } => "Connection closed with code "@
            + dec_chars(code as nat) + ": "@ + reason@,
        DiscordError::RateLimited { retry_after_ms } => "Rate limited, retry after "@ + dec_chars(
            retry_after_ms as nat,
        ) + " ms"@,
        DiscordError::Forbidden => "Forbidden (403)"@,
        DiscordError::InvalidResponse { status } => "Unexpected HTTP status "@ + dec_chars(
            status as nat,
        ),
        DiscordError::NotFound => "Not found (404)"@,
        DiscordError::ServerError => "Server error (5xx)"@,
    }
}

impl DiscordError {
    /// Renders the error for a log line or an exception message.
    pub fn describe(&self) -> (r: String)
        ensures
            r@ == spec_describe(*self),
    {
        match self {
            DiscordError::Http(m) => {
                let mut r = "HTTP error: ".to_owned();
                r.append(m.as_str());
                r
            },
            DiscordError::WebSocket(m) => {
                let mut r = "WebSocket error: ".to_owned();
                r.append(m.as_str());
                r
            },
            DiscordError::Json(m) => {
                let mut r = "JSON error: ".to_owned();
                r.append(m.as_str());
                r
            },
            DiscordError::Gateway(m) => {
                let mut r = "Gateway error: ".to_owned();
                r.append(m.as_str());
                r
            },
            DiscordError::InvalidData(m) => {
                let mut r = "Invalid data: ".to_owned();
                r.append(m.as_str());
                r
            },
            DiscordError::ConnectionClosed { code, reason } => {
                let mut r = "Connection closed with code ".to_owned();
                r.append(u64_to_string(*code as u64).as_str());
                r.append(": ");
                r.append(reason.as_str());
                r
            },
            DiscordError::RateLimited { retry_after_ms } => {
                let mut r = "Rate limited, retry after ".to_owned();
                r.append(u64_to_string(*retry_after_ms).as_str());
                r.append(" ms");
                r
            },
            DiscordError::Forbidden => "Forbidden (403)".to_owned(),
            DiscordError::InvalidResponse { status } => {
                let mut r = "Unexpected HTTP status ".to_owned();
                r.append(u64_to_string(*status as u64).as_str());
                r
            },
            DiscordError::NotFound => "Not found (404)".to_owned(),
            DiscordError::ServerError => "Server error (5xx)".to_owned(),
        }
    }
}

} // verus!
