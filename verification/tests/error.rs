use proxy_bridge::error::{BridgeError, ParseFault, ResponseFault};
use proxy_bridge::opt::ProxyProtocol;

#[test]
fn parse_faults_are_described_in_the_parsers_words() {
    assert_eq!(ParseFault::HeaderName.describe(), "invalid header name");
    assert_eq!(ParseFault::HeaderValue.describe(), "invalid header value");
    assert_eq!(ParseFault::NewLine.describe(), "invalid new line");
    assert_eq!(ParseFault::Status.describe(), "invalid response status");
    assert_eq!(ParseFault::Token.describe(), "invalid token");
    assert_eq!(ParseFault::TooManyHeaders.describe(), "too many headers");
    assert_eq!(ParseFault::Version.describe(), "invalid HTTP version");
}

#[test]
fn parse_faults_are_worded_as_httparse_words_them() {
    let pairs = [
        (ParseFault::HeaderName, httparse::Error::HeaderName),
        (ParseFault::HeaderValue, httparse::Error::HeaderValue),
        (ParseFault::NewLine, httparse::Error::NewLine),
        (ParseFault::Status, httparse::Error::Status),
        (ParseFault::Token, httparse::Error::Token),
        (ParseFault::TooManyHeaders, httparse::Error::TooManyHeaders),
        (ParseFault::Version, httparse::Error::Version),
    ];
    for (fault, error) in pairs {
        assert_eq!(fault.describe(), error.to_string());
    }
}

#[test]
fn refusal_is_described_by_protocol() {
    let refused = BridgeError::UpstreamRefused { code: 5 };
    assert_eq!(refused.describe(ProxyProtocol::Socks5), "socks5 tcp request failed");
    assert_eq!(refused.describe(ProxyProtocol::Http), "http connect failed");
}

#[test]
fn unsupported_method_is_described() {
    let unsupported = BridgeError::UnsupportedAuthMethod { method: 2 };
    assert_eq!(unsupported.describe(ProxyProtocol::Socks5), "unsupported socks5 method");
    assert_eq!(unsupported.describe(ProxyProtocol::Http), "unsupported socks5 method");
}

#[test]
fn malformed_responses_are_described_by_their_fault() {
    let describe = |fault| BridgeError::MalformedResponse { fault }.describe(ProxyProtocol::Http);
    assert_eq!(describe(ResponseFault::Partial), "http parse partial");
    assert_eq!(describe(ResponseFault::Truncated), "http response ended early");
    assert_eq!(describe(ResponseFault::MissingStatus), "http connect failed");
    assert_eq!(describe(ResponseFault::Undecodable), "socks5 response cannot be decoded");
    assert_eq!(describe(ResponseFault::Syntax(ParseFault::TooManyHeaders)), "too many headers");
    assert_eq!(describe(ResponseFault::Syntax(ParseFault::Version)), "invalid HTTP version");
}

#[test]
fn socket_failures_are_described() {
    assert_eq!(
        BridgeError::UpstreamConnectError.describe(ProxyProtocol::Socks5),
        "connect to upstream proxy failed"
    );
    assert_eq!(
        BridgeError::HandshakeIOError.describe(ProxyProtocol::Http),
        "handshake with upstream proxy was cut off"
    );
    assert_eq!(BridgeError::TunnelIOError.describe(ProxyProtocol::Http), "tunnel failed");
    assert_eq!(
        BridgeError::UnexpectedEvent.describe(ProxyProtocol::Http),
        "bridge was driven out of order"
    );
}
