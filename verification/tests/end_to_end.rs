//! Whole connections over in-memory streams: a client, a bridge that is
//! driven as a server drives it, and a stand-in for the upstream proxy that
//! speaks the real protocol.

use std::future::Future;
use std::time::Duration;

use proxy_bridge::address::{EndpointAddress, SocketAddress};
use proxy_bridge::bridge::{start, step, BridgeAction, BridgeEvent};
use proxy_bridge::error::{BridgeError, ParseFault, ResponseFault};
use proxy_bridge::opt::PluginOpts;
use proxy_bridge::server::ServerConfig;
use shadowsocks::relay::socks5::{
    Address, Command, Error as Socks5Error, HandshakeRequest, HandshakeResponse, Reply,
    TcpRequestHeader, TcpResponseHeader,
};
use tokio::io::{
    duplex, AsyncBufReadExt, AsyncReadExt, AsyncWriteExt, BufReader, DuplexStream,
};

/// How the driver reads the HTTP response.
#[derive(Clone, Copy)]
enum Reading {
    /// Up to and including the next line feed.
    Lines,
    /// Whatever one read brings, up to this many bytes.
    Chunks(usize),
}

fn upstream_addr() -> EndpointAddress {
    EndpointAddress::Socket(SocketAddress::V4 { octets: [10, 0, 0, 1], port: 8388 })
}

fn destination() -> EndpointAddress {
    EndpointAddress::DomainName(String::from("example.com"), 443)
}

fn socks5_config() -> ServerConfig {
    let opts = PluginOpts::default();
    ServerConfig::socks5(
        SocketAddress::V4 { octets: [127, 0, 0, 1], port: 1080 },
        upstream_addr(),
        destination(),
        opts.as_accept_opts(),
        opts.as_connect_opts(),
    )
}

fn http_config() -> ServerConfig {
    let opts = PluginOpts::default();
    ServerConfig::http(
        SocketAddress::V4 { octets: [127, 0, 0, 1], port: 1080 },
        upstream_addr(),
        destination(),
        opts.as_accept_opts(),
        opts.as_connect_opts(),
    )
}

fn run<F: Future>(future: F) -> F::Output {
    let runtime = tokio::runtime::Builder::new_current_thread()
        .enable_all()
        .build()
        .expect("a runtime");
    runtime.block_on(async {
        tokio::time::timeout(Duration::from_secs(10), future).await.expect("finished in time")
    })
}

fn socks5_event(result: Result<BridgeEvent, Socks5Error>) -> BridgeEvent {
    match result {
        Ok(event) => event,
        Err(Socks5Error::IoError(..)) => BridgeEvent::IoFailed,
        Err(..) => BridgeEvent::Undecodable,
    }
}

async fn negotiate(
    upstream: &mut BufReader<DuplexStream>,
    methods: Vec<u8>,
) -> Result<BridgeEvent, Socks5Error> {
    HandshakeRequest::new(methods).write_to(upstream).await?;
    let response = HandshakeResponse::read_from(upstream).await?;
    Ok(BridgeEvent::MethodChosen(response.chosen_method))
}

async fn request_connect(
    upstream: &mut BufReader<DuplexStream>,
    destination: &EndpointAddress,
) -> Result<BridgeEvent, Socks5Error> {
    let address = match destination {
        EndpointAddress::DomainName(host, port) => Address::DomainNameAddress(host.clone(), *port),
        EndpointAddress::Socket(..) => {
            String::from_utf8(destination.to_text()).expect("text").parse().expect("an address")
        }
    };
    TcpRequestHeader::new(Command::TcpConnect, address).write_to(upstream).await?;
    let response = TcpResponseHeader::read_from(upstream).await?;
    Ok(BridgeEvent::Replied(response.reply.as_u8()))
}

async fn read_some(upstream: &mut BufReader<DuplexStream>, reading: Reading) -> BridgeEvent {
    match reading {
        Reading::Lines => {
            let mut line = Vec::new();
            match upstream.read_until(b'\n', &mut line).await {
                Ok(0) => BridgeEvent::EndOfStream,
                Ok(..) => BridgeEvent::Received(line),
                Err(..) => BridgeEvent::IoFailed,
            }
        }
        Reading::Chunks(size) => {
            let mut chunk = vec![0u8; size];
            match upstream.read(&mut chunk).await {
                Ok(0) => BridgeEvent::EndOfStream,
                Ok(n) => {
                    chunk.truncate(n);
                    BridgeEvent::Received(chunk)
                }
                Err(..) => BridgeEvent::IoFailed,
            }
        }
    }
}

async fn relay(
    client: &mut DuplexStream,
    upstream: &mut BufReader<DuplexStream>,
    pending: &[u8],
) -> BridgeEvent {
    if client.write_all(pending).await.is_err() {
        return BridgeEvent::RelayFailed;
    }
    match tokio::io::copy_bidirectional(client, upstream).await {
        Ok(..) => BridgeEvent::RelayFinished,
        Err(..) => BridgeEvent::RelayFailed,
    }
}

/// Bridges one connection: performs each action that the bridge asks for
/// and reports what came of it. Returns the outcome and how often the relay
/// was started. Both streams are dropped, and so closed, on return.
async fn bridge_connection(
    config: ServerConfig,
    mut client: DuplexStream,
    dialed: Option<DuplexStream>,
    reading: Reading,
) -> (Result<(), BridgeError>, usize) {
    let mut upstream = dialed.map(BufReader::new);
    let mut relays = 0;
    let (mut state, mut action) = start(&config);
    loop {
        let event = match (action, upstream.as_mut()) {
            (BridgeAction::Close { outcome }, _) => return (outcome, relays),
            (BridgeAction::Dial { upstream: address }, Some(..)) => {
                assert_eq!(address, upstream_addr());
                BridgeEvent::Connected
            }
            (BridgeAction::Dial { .. }, None) => BridgeEvent::ConnectFailed,
            (BridgeAction::Negotiate { methods }, Some(stream)) => {
                socks5_event(negotiate(stream, methods).await)
            }
            (BridgeAction::RequestConnect { destination }, Some(stream)) => {
                socks5_event(request_connect(stream, &destination).await)
            }
            (BridgeAction::SendRequest { bytes }, Some(stream)) => {
                match stream.write_all(&bytes).await {
                    Ok(()) => read_some(stream, reading).await,
                    Err(..) => BridgeEvent::IoFailed,
                }
            }
            (BridgeAction::ReadMore, Some(stream)) => read_some(stream, reading).await,
            (BridgeAction::Relay { pending }, Some(stream)) => {
                relays += 1;
                relay(&mut client, stream, &pending).await
            }
            (_, None) => BridgeEvent::IoFailed,
        };
        let next = step(&config, state, event);
        state = next.0;
        action = next.1;
    }
}

/// What the stand-in for the upstream proxy saw.
#[derive(Debug, Default, PartialEq)]
struct Seen {
    offered: Vec<u8>,
    requested: Option<String>,
    head: Vec<u8>,
    tunnelled: Vec<u8>,
}

/// A SOCKS5 proxy that chooses `method`, answers the connect request with
/// `reply` and the bound address `0.0.0.0:0`, and then sends `answer`.
async fn socks5_upstream(mut stream: DuplexStream, method: u8, reply: Reply, answer: Vec<u8>) -> Seen {
    let mut seen = Seen::default();
    let greeting = HandshakeRequest::read_from(&mut stream).await.expect("a greeting");
    seen.offered = greeting.methods;
    HandshakeResponse::new(method).write_to(&mut stream).await.expect("method sent");
    if let Ok(request) = TcpRequestHeader::read_from(&mut stream).await {
        assert!(matches!(request.command, Command::TcpConnect));
        seen.requested = Some(request.address.to_string());
        let bound: Address = "0.0.0.0:0".parse().expect("an address");
        TcpResponseHeader::new(reply, bound).write_to(&mut stream).await.expect("reply sent");
        let _ = stream.write_all(&answer).await;
        let _ = stream.shutdown().await;
        let _ = stream.read_to_end(&mut seen.tunnelled).await;
    }
    seen
}

/// An HTTP proxy that reads the request's header block and then sends
/// `response` in writes of at most `write_size` bytes.
async fn http_upstream(mut stream: DuplexStream, response: Vec<u8>, write_size: usize) -> Seen {
    let mut seen = Seen::default();
    while !seen.head.ends_with(b"\r\n\r\n") {
        let byte = stream.read_u8().await.expect("a request byte");
        seen.head.push(byte);
    }
    for part in response.chunks(write_size) {
        if stream.write_all(part).await.is_err() {
            return seen;
        }
        tokio::task::yield_now().await;
    }
    let _ = stream.shutdown().await;
    let _ = stream.read_to_end(&mut seen.tunnelled).await;
    seen
}

/// What the client got back after it sent `sent` and closed its side.
async fn client_talks(mut client: DuplexStream, sent: &[u8]) -> Vec<u8> {
    let _ = client.write_all(sent).await;
    let _ = client.shutdown().await;
    let mut received = Vec::new();
    let _ = client.read_to_end(&mut received).await;
    received
}

async fn socks5_connection(method: u8, reply: Reply) -> (Result<(), BridgeError>, usize, Seen, Vec<u8>) {
    let (client, accepted) = duplex(4096);
    let (dialed, upstream) = duplex(4096);
    let upstream = tokio::spawn(socks5_upstream(upstream, method, reply, b"world".to_vec()));
    let bridge =
        tokio::spawn(bridge_connection(socks5_config(), accepted, Some(dialed), Reading::Lines));
    let received = client_talks(client, b"hello").await;
    let (outcome, relays) = bridge.await.expect("bridge ran");
    let seen = upstream.await.expect("upstream ran");
    (outcome, relays, seen, received)
}

async fn http_connection(
    response: &[u8],
    write_size: usize,
    reading: Reading,
) -> (Result<(), BridgeError>, usize, Seen, Vec<u8>) {
    let (client, accepted) = duplex(4096);
    let (dialed, upstream) = duplex(4096);
    let upstream = tokio::spawn(http_upstream(upstream, response.to_vec(), write_size));
    let bridge = tokio::spawn(bridge_connection(http_config(), accepted, Some(dialed), reading));
    let received = client_talks(client, b"hello").await;
    let (outcome, relays) = bridge.await.expect("bridge ran");
    let seen = upstream.await.expect("upstream ran");
    (outcome, relays, seen, received)
}

#[test]
fn socks5_tunnel_carries_five_bytes_verbatim() {
    let (outcome, relays, seen, received) = run(socks5_connection(0x00, Reply::Succeeded));
    assert_eq!(outcome, Ok(()));
    assert_eq!(relays, 1);
    assert_eq!(seen.offered, vec![0x00]);
    assert_eq!(seen.requested, Some(String::from("example.com:443")));
    assert_eq!(seen.tunnelled, b"hello".to_vec());
    assert_eq!(received, b"world".to_vec());
}

#[test]
fn socks5_connection_refused_forwards_nothing() {
    let (outcome, relays, seen, received) = run(socks5_connection(0x00, Reply::ConnectionRefused));
    assert_eq!(outcome, Err(BridgeError::UpstreamRefused { code: 0x05 }));
    assert_eq!(relays, 0);
    assert_eq!(seen.requested, Some(String::from("example.com:443")));
    assert_eq!(seen.tunnelled, Vec::<u8>::new());
    assert_eq!(received, Vec::<u8>::new());
}

#[test]
fn socks5_every_failure_reply_is_refused_with_its_code() {
    for code in [0x01u8, 0x02, 0x03, 0x04, 0x05, 0x06, 0x07, 0x08, 0x09, 0x7f, 0xff] {
        let (outcome, relays, seen, received) = run(socks5_connection(0x00, Reply::from_u8(code)));
        assert_eq!(outcome, Err(BridgeError::UpstreamRefused { code: code as u16 }));
        assert_eq!(relays, 0);
        assert_eq!(seen.tunnelled, Vec::<u8>::new());
        assert_eq!(received, Vec::<u8>::new());
    }
}

#[test]
fn socks5_password_method_ends_before_any_connect_request() {
    let (outcome, relays, seen, received) = run(socks5_connection(0x02, Reply::Succeeded));
    assert_eq!(outcome, Err(BridgeError::UnsupportedAuthMethod { method: 0x02 }));
    assert_eq!(relays, 0);
    assert_eq!(seen.offered, vec![0x00]);
    assert_eq!(seen.requested, None);
    assert_eq!(received, Vec::<u8>::new());
}

#[test]
fn socks5_upstream_that_hangs_up_is_an_io_failure() {
    let outcome = run(async {
        let (client, accepted) = duplex(4096);
        let (dialed, upstream) = duplex(4096);
        drop(upstream);
        let bridge =
            tokio::spawn(bridge_connection(socks5_config(), accepted, Some(dialed), Reading::Lines));
        let received = client_talks(client, b"hello").await;
        assert_eq!(received, Vec::<u8>::new());
        bridge.await.expect("bridge ran")
    });
    assert_eq!(outcome, (Err(BridgeError::HandshakeIOError), 0));
}

#[test]
fn socks5_upstream_of_another_version_is_malformed() {
    let outcome = run(async {
        let (client, accepted) = duplex(4096);
        let (dialed, mut upstream) = duplex(4096);
        let bridge =
            tokio::spawn(bridge_connection(socks5_config(), accepted, Some(dialed), Reading::Lines));
        let mut greeting = [0u8; 3];
        upstream.read_exact(&mut greeting).await.expect("a greeting");
        assert_eq!(greeting, [0x05, 0x01, 0x00]);
        upstream.write_all(&[0x04, 0x00]).await.expect("answer sent");
        let received = client_talks(client, b"hello").await;
        assert_eq!(received, Vec::<u8>::new());
        bridge.await.expect("bridge ran")
    });
    assert_eq!(
        outcome,
        (Err(BridgeError::MalformedResponse { fault: ResponseFault::Undecodable }), 0)
    );
}

#[test]
fn upstream_that_cannot_be_dialed_is_a_connect_error() {
    for config in [socks5_config(), http_config()] {
        let outcome = run(async {
            let (client, accepted) = duplex(4096);
            let bridge = tokio::spawn(bridge_connection(config, accepted, None, Reading::Lines));
            let received = client_talks(client, b"hello").await;
            assert_eq!(received, Vec::<u8>::new());
            bridge.await.expect("bridge ran")
        });
        assert_eq!(outcome, (Err(BridgeError::UpstreamConnectError), 0));
    }
}

#[test]
fn http_tunnel_carries_bytes_both_ways() {
    let response = b"HTTP/1.1 200 Connection established\r\n\r\nworld";
    let (outcome, relays, seen, received) = run(http_connection(response, 4096, Reading::Lines));
    assert_eq!(outcome, Ok(()));
    assert_eq!(relays, 1);
    assert_eq!(
        seen.head,
        b"CONNECT example.com:443 HTTP/1.1\r\nHost: 10.0.0.1:8388\r\n\r\n".to_vec()
    );
    assert_eq!(seen.tunnelled, b"hello".to_vec());
    assert_eq!(received, b"world".to_vec());
}

#[test]
fn http_response_in_small_writes_is_assembled_and_nothing_behind_it_is_lost() {
    let response = b"HTTP/1.1 200 OK\r\nVia: 1.1 proxy\r\nX-Note: a\r\n\r\nworld\r\n\r\n!";
    for write_size in [1usize, 2, 3, 5, 7, 16, 64] {
        for reading in [Reading::Lines, Reading::Chunks(1), Reading::Chunks(4), Reading::Chunks(512)] {
            let (outcome, relays, seen, received) =
                run(http_connection(response, write_size, reading));
            assert_eq!(outcome, Ok(()));
            assert_eq!(relays, 1);
            assert_eq!(seen.tunnelled, b"hello".to_vec());
            assert_eq!(received, b"world\r\n\r\n!".to_vec());
        }
    }
}

#[test]
fn http_407_fails_with_upstream_refused_and_closes() {
    let response = b"HTTP/1.1 407 Proxy Authentication Required\r\n\r\n";
    for reading in [Reading::Lines, Reading::Chunks(8)] {
        let (outcome, relays, seen, received) = run(http_connection(response, 4096, reading));
        assert_eq!(outcome, Err(BridgeError::UpstreamRefused { code: 407 }));
        assert_eq!(relays, 0);
        assert_eq!(seen.tunnelled, Vec::<u8>::new());
        assert_eq!(received, Vec::<u8>::new());
    }
}

#[test]
fn http_response_over_the_header_cap_is_malformed_and_closes() {
    let mut response = b"HTTP/1.1 200 OK\r\n".to_vec();
    for i in 0..65 {
        response.extend_from_slice(format!("X-Field-{}: {}\r\n", i, i).as_bytes());
    }
    response.extend_from_slice(b"\r\nworld");
    let (outcome, relays, seen, received) = run(http_connection(&response, 100, Reading::Lines));
    assert_eq!(
        outcome,
        Err(BridgeError::MalformedResponse {
            fault: ResponseFault::Syntax(ParseFault::TooManyHeaders)
        })
    );
    assert_eq!(relays, 0);
    assert_eq!(seen.tunnelled, Vec::<u8>::new());
    assert_eq!(received, Vec::<u8>::new());
}

#[test]
fn http_upstream_that_hangs_up_mid_response_is_malformed() {
    let response = b"HTTP/1.1 200 OK\r\nVia: 1.1";
    for reading in [Reading::Lines, Reading::Chunks(8)] {
        let (outcome, relays, _, received) = run(http_connection(response, 4096, reading));
        assert_eq!(
            outcome,
            Err(BridgeError::MalformedResponse { fault: ResponseFault::Truncated })
        );
        assert_eq!(relays, 0);
        assert_eq!(received, Vec::<u8>::new());
    }
}
