//! Why a bridged connection ends in failure.

use vstd::prelude::*;

use crate::opt::ProxyProtocol;

verus! {

/// What the HTTP response parser objected to.
#[derive(Clone, Copy, Debug, PartialEq, Eq, Structural)]
pub enum ParseFault {
    /// Invalid byte in a header name.
    HeaderName,
    /// Invalid byte in a header value.
    HeaderValue,
    /// Invalid byte in a line ending.
    NewLine,
    /// Invalid byte in the status.
    Status,
    /// Invalid byte where a token is required.
    Token,
    /// More header fields than the cap allows.
    TooManyHeaders,
    /// Invalid byte in the HTTP version.
    Version,
}

/// In what way a handshake response was not what the protocol expects.
#[derive(Clone, Copy, Debug, PartialEq, Eq, Structural)]
pub enum ResponseFault {
    /// Upstream's stream ended before the header block was complete.
    Truncated,
    /// The header block was complete, yet the parser asked for more bytes.
    Partial,
    /// The parser accepted the header block without finding a status code.
    MissingStatus,
    /// The parser rejected the header block.
    Syntax(ParseFault),
    /// A SOCKS5 message from upstream could not be decoded.
    Undecodable,
}

/// The failure that ends one connection. None of them reaches the accept
/// loop or another connection.
#[derive(Clone, Copy, Debug, PartialEq, Eq, Structural)]
pub enum BridgeError {
    /// Dialing the upstream proxy failed.
    UpstreamConnectError,
    /// Reading from or writing to upstream failed during the handshake.
    HandshakeIOError,
    /// Upstream chose an authentication method other than "none".
    UnsupportedAuthMethod { method: u8 },
    /// The handshake completed and upstream reported failure: the SOCKS5
    /// reply code, or the HTTP status.
    UpstreamRefused { code: u16 },
    /// Upstream's handshake response was not what the protocol expects.
    MalformedResponse { fault: ResponseFault },
    /// Reading or writing failed while relaying.
    TunnelIOError,
    /// The driver reported an event that cannot follow the action it was
    /// given.
    UnexpectedEvent,
}

impl ParseFault {
    /// The fault in words, as the parser words it.
    pub open spec fn description(self) -> Seq<char> {
        match self {
            ParseFault::HeaderName => "invalid header name"@,
            ParseFault::HeaderValue => "invalid header value"@,
            ParseFault::NewLine => "invalid new line"@,
            ParseFault::Status => "invalid response status"@,
            ParseFault::Token => "invalid token"@,
            ParseFault::TooManyHeaders => "too many headers"@,
            ParseFault::Version => "invalid HTTP version"@,
        }
    }

    /// Says in words what the parser objected to.
    pub fn describe(&self) -> (text: &'static str)
        ensures
            text@ == self.description(),
    {
        match self {
            ParseFault::HeaderName => "invalid header name",
            ParseFault::HeaderValue => "invalid header value",
            ParseFault::NewLine => "invalid new line",
            ParseFault::Status => "invalid response status",
            ParseFault::Token => "invalid token",
            ParseFault::TooManyHeaders => "too many headers",
            ParseFault::Version => "invalid HTTP version",
        }
    }
}

impl BridgeError {
    /// The failure in words, for a connection that was bridged with
    /// `protocol`.
    pub open spec fn description(self, protocol: ProxyProtocol) -> Seq<char> {
        match self {
            BridgeError::UpstreamConnectError => "connect to upstream proxy failed"@,
            BridgeError::HandshakeIOError => "handshake with upstream proxy was cut off"@,
            BridgeError::UnsupportedAuthMethod { method } => "unsupported socks5 method"@,
            BridgeError::UpstreamRefused { code } => match protocol {
                ProxyProtocol::Socks5 => "socks5 tcp request failed"@,
                ProxyProtocol::Http => "http connect failed"@,
            },
            BridgeError::MalformedResponse { fault } => match fault {
                ResponseFault::Truncated => "http response ended early"@,
                ResponseFault::Partial => "http parse partial"@,
                ResponseFault::MissingStatus => "http connect failed"@,
                ResponseFault::Syntax(fault) => fault.description(),
                ResponseFault::Undecodable => "socks5 response cannot be decoded"@,
            },
            BridgeError::TunnelIOError => "tunnel failed"@,
            BridgeError::UnexpectedEvent => "bridge was driven out of order"@,
        }
    }

    /// Says the failure in words.
    pub fn describe(&self, protocol: ProxyProtocol) -> (text: &'static str)
        ensures
            text@ == self.description(protocol),
    {
        match self {
            BridgeError::UpstreamConnectError => "connect to upstream proxy failed",
            BridgeError::HandshakeIOError => "handshake with upstream proxy was cut off",
            BridgeError::UnsupportedAuthMethod { method } => "unsupported socks5 method",
            BridgeError::UpstreamRefused { code } => match protocol {
                ProxyProtocol::Socks5 => "socks5 tcp request failed",
                ProxyProtocol::Http => "http connect failed",
            },
            BridgeError::MalformedResponse { fault } => match fault {
                ResponseFault::Truncated => "http response ended early",
                ResponseFault::Partial => "http parse partial",
                ResponseFault::MissingStatus => "http connect failed",
                ResponseFault::Syntax(fault) => fault.describe(),
                ResponseFault::Undecodable => "socks5 response cannot be decoded",
            },
            BridgeError::TunnelIOError => "tunnel failed",
            BridgeError::UnexpectedEvent => "bridge was driven out of order",
        }
    }
}

} // verus!
