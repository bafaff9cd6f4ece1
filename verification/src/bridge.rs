//! The connection bridge: what is done, step by step, for one accepted
//! client connection.
//!
//! The bridge itself touches no socket. A driver performs each action and
//! reports what came of it as an event; [`step`] then decides what to do
//! next. The decisions are defined on models of the states, events and
//! actions ([`step_model`]).

use vstd::prelude::*;

use crate::address::EndpointAddress;
use crate::error::BridgeError;
use crate::error::ResponseFault;
use crate::http::absorb;
use crate::http::absorbed;
use crate::http::connect_request;
use crate::http::ends_head;
use crate::http::head_complete;
use crate::http::judge_response;
use crate::http::parsed_head;
use crate::http::request_bytes;
use crate::http::verdict;
use crate::http::MAX_HEADERS;
use crate::opt::ProxyProtocol;
use crate::server::ServerConfig;
use crate::socks5::judge_method;
use crate::socks5::judge_reply;
use crate::socks5::method_verdict;
use crate::socks5::offer;
use crate::socks5::offered_methods;
use crate::socks5::reply_verdict;

verus! {

/// How far the bridging of one connection has come.
#[derive(Debug, PartialEq, Eq)]
pub enum BridgeState {
    /// The upstream proxy is being dialed.
    Dialing,
    /// SOCKS5: the greeting is out, upstream's choice of method is awaited.
    AwaitingMethod,
    /// SOCKS5: the connect request is out, upstream's reply is awaited.
    AwaitingReply,
    /// HTTP: the request is out; `buffer` holds what has come of the
    /// response's header block so far.
    CollectingHead { buffer: Vec<u8> },
    /// The handshake succeeded and bytes are relayed both ways.
    Relaying,
    /// The connection is over, with this outcome.
    Closed { outcome: Result<(), BridgeError> },
}

/// What came of the action that the driver performed last.
#[derive(Clone, Debug, PartialEq, Eq)]
pub enum BridgeEvent {
    /// The upstream proxy was reached.
    Connected,
    /// The upstream proxy could not be reached.
    ConnectFailed,
    /// Upstream chose this authentication method.
    MethodChosen(u8),
    /// Upstream answered the connect request with this reply code.
    Replied(u8),
    /// Upstream sent a SOCKS5 message that could not be decoded.
    Undecodable,
    /// These bytes were read from upstream. A read may bring more than was
    /// asked for: what lies behind the header block is handed back with
    /// the `Relay` action.
    Received(Vec<u8>),
    /// Upstream closed its stream.
    EndOfStream,
    /// Reading from or writing to upstream failed.
    IoFailed,
    /// The relay ended with both directions closed in order.
    RelayFinished,
    /// The relay ended with a failure in one direction.
    RelayFailed,
}

/// What the driver is to do next.
#[derive(Debug, PartialEq, Eq)]
pub enum BridgeAction {
    /// Dial the upstream proxy.
    Dial { upstream: EndpointAddress },
    /// SOCKS5: send a greeting that offers `methods`, then read upstream's
    /// choice.
    Negotiate { methods: Vec<u8> },
    /// SOCKS5: send a TCP connect request for `destination`, then read the
    /// reply.
    RequestConnect { destination: EndpointAddress },
    /// HTTP: send `bytes`, then read up to and including the next line feed.
    SendRequest { bytes: Vec<u8> },
    /// HTTP: read up to and including the next line feed.
    ReadMore,
    /// Relay bytes between client and upstream in both directions until
    /// either side ends or fails. `pending` was read from upstream behind
    /// the handshake response and goes to the client first.
    Relay { pending: Vec<u8> },
    /// Release both sockets; the connection ended with `outcome`.
    Close { outcome: Result<(), BridgeError> },
}

/// The model of a [`BridgeState`].
pub enum StateModel {
    Dialing,
    AwaitingMethod,
    AwaitingReply,
    CollectingHead { buffer: Seq<u8> },
    Relaying,
    Closed { outcome: Result<(), BridgeError> },
}

/// The model of a [`BridgeEvent`].
pub enum EventModel {
    Connected,
    ConnectFailed,
    MethodChosen(u8),
    Replied(u8),
    Undecodable,
    Received(Seq<u8>),
    EndOfStream,
    IoFailed,
    RelayFinished,
    RelayFailed,
}

/// The model of a [`BridgeAction`].
pub enum ActionModel {
    Dial { upstream: EndpointAddress },
    Negotiate { methods: Seq<u8> },
    RequestConnect { destination: EndpointAddress },
    SendRequest { bytes: Seq<u8> },
    ReadMore,
    Relay { pending: Seq<u8> },
    Close { outcome: Result<(), BridgeError> },
}

impl View for BridgeState {
    type V = StateModel;

    open spec fn view(&self) -> StateModel {
        match self {
            BridgeState::Dialing => StateModel::Dialing,
            BridgeState::AwaitingMethod => StateModel::AwaitingMethod,
            BridgeState::AwaitingReply => StateModel::AwaitingReply,
            BridgeState::CollectingHead { buffer } => StateModel::CollectingHead { buffer: buffer@ },
            BridgeState::Relaying => StateModel::Relaying,
            BridgeState::Closed { outcome } => StateModel::Closed { outcome: *outcome },
        }
    }
}

impl View for BridgeEvent {
    type V = EventModel;

    open spec fn view(&self) -> EventModel {
        match self {
            BridgeEvent::Connected => EventModel::Connected,
            BridgeEvent::ConnectFailed => EventModel::ConnectFailed,
            BridgeEvent::MethodChosen(method) => EventModel::MethodChosen(*method),
            BridgeEvent::Replied(reply) => EventModel::Replied(*reply),
            BridgeEvent::Undecodable => EventModel::Undecodable,
            BridgeEvent::Received(bytes) => EventModel::Received(bytes@),
            BridgeEvent::EndOfStream => EventModel::EndOfStream,
            BridgeEvent::IoFailed => EventModel::IoFailed,
            BridgeEvent::RelayFinished => EventModel::RelayFinished,
            BridgeEvent::RelayFailed => EventModel::RelayFailed,
        }
    }
}

impl View for BridgeAction {
    type V = ActionModel;

    open spec fn view(&self) -> ActionModel {
        match self {
            BridgeAction::Dial { upstream } => ActionModel::Dial { upstream: *upstream },
            BridgeAction::Negotiate { methods } => ActionModel::Negotiate { methods: methods@ },
            BridgeAction::RequestConnect { destination } => ActionModel::RequestConnect {
                destination: *destination,
            },
            BridgeAction::SendRequest { bytes } => ActionModel::SendRequest { bytes: bytes@ },
            BridgeAction::ReadMore => ActionModel::ReadMore,
            BridgeAction::Relay { pending } => ActionModel::Relay { pending: pending@ },
            BridgeAction::Close { outcome } => ActionModel::Close { outcome: *outcome },
        }
    }
}

/// The state and the action with which a connection ends in `outcome`.
pub open spec fn closing(outcome: Result<(), BridgeError>) -> (StateModel, ActionModel) {
    (StateModel::Closed { outcome }, ActionModel::Close { outcome })
}

/// The state and the action with which a connection fails.
pub open spec fn failing(error: BridgeError) -> (StateModel, ActionModel) {
    closing(Err(error))
}

/// The state in which a bridge starts, and its first action: dial the
/// configured upstream proxy.
pub open spec fn start_model(config: ServerConfig) -> (StateModel, ActionModel) {
    (StateModel::Dialing, ActionModel::Dial { upstream: config.upstream })
}

/// What follows once upstream is reached: the first message of the
/// configured handshake goes out.
pub open spec fn on_connected(config: ServerConfig) -> (StateModel, ActionModel) {
    match config.protocol {
        ProxyProtocol::Socks5 => (
            StateModel::AwaitingMethod,
            ActionModel::Negotiate { methods: offer() },
        ),
        ProxyProtocol::Http => (
            StateModel::CollectingHead { buffer: Seq::empty() },
            ActionModel::SendRequest { bytes: request_bytes(config.destination, config.upstream) },
        ),
    }
}

/// What follows when `chunk` arrives while `buffer` holds the header block
/// so far. The bytes that belong to the block are added to it. While the
/// block is open, more is read. Once it is closed it is parsed and judged:
/// on success the relay starts, and what was read behind the block is
/// pending for the client; otherwise the connection fails.
pub open spec fn on_received(buffer: Seq<u8>, chunk: Seq<u8>) -> (StateModel, ActionModel) {
    let taken = absorbed(buffer, chunk) as int;
    let head = buffer + chunk.take(taken);
    if ends_head(head) {
        match verdict(parsed_head(head, MAX_HEADERS as nat)) {
            Ok(_) => (StateModel::Relaying, ActionModel::Relay { pending: chunk.skip(taken) }),
            Err(error) => failing(error),
        }
    } else {
        (StateModel::CollectingHead { buffer: head }, ActionModel::ReadMore)
    }
}

/// The bridge's decisions: the state that follows `state` on `event`, and
/// the action to perform next.
pub open spec fn step_model(config: ServerConfig, state: StateModel, event: EventModel) -> (
    StateModel,
    ActionModel,
) {
    match state {
        StateModel::Dialing => match event {
            EventModel::Connected => on_connected(config),
            EventModel::ConnectFailed => failing(BridgeError::UpstreamConnectError),
            _ => failing(BridgeError::UnexpectedEvent),
        },
        StateModel::AwaitingMethod => match event {
            EventModel::MethodChosen(method) => match method_verdict(method) {
                Ok(_) => (
                    StateModel::AwaitingReply,
                    ActionModel::RequestConnect { destination: config.destination },
                ),
                Err(error) => failing(error),
            },
            EventModel::Undecodable => failing(
                BridgeError::MalformedResponse { fault: ResponseFault::Undecodable },
            ),
            EventModel::EndOfStream => failing(BridgeError::HandshakeIOError),
            EventModel::IoFailed => failing(BridgeError::HandshakeIOError),
            _ => failing(BridgeError::UnexpectedEvent),
        },
        StateModel::AwaitingReply => match event {
            EventModel::Replied(reply) => match reply_verdict(reply) {
                Ok(_) => (StateModel::Relaying, ActionModel::Relay { pending: Seq::empty() }),
                Err(error) => failing(error),
            },
            EventModel::Undecodable => failing(
                BridgeError::MalformedResponse { fault: ResponseFault::Undecodable },
            ),
            EventModel::EndOfStream => failing(BridgeError::HandshakeIOError),
            EventModel::IoFailed => failing(BridgeError::HandshakeIOError),
            _ => failing(BridgeError::UnexpectedEvent),
        },
        StateModel::CollectingHead { buffer } => match event {
            EventModel::Received(chunk) => on_received(buffer, chunk),
            EventModel::EndOfStream => failing(
                BridgeError::MalformedResponse { fault: ResponseFault::Truncated },
            ),
            EventModel::IoFailed => failing(BridgeError::HandshakeIOError),
            _ => failing(BridgeError::UnexpectedEvent),
        },
        StateModel::Relaying => match event {
            EventModel::RelayFinished => closing(Ok(())),
            EventModel::RelayFailed => failing(BridgeError::TunnelIOError),
            _ => failing(BridgeError::UnexpectedEvent),
        },
        StateModel::Closed { outcome } => closing(outcome),
    }
}

/// Starts the bridging of one accepted connection.
pub fn start(config: &ServerConfig) -> (first: (BridgeState, BridgeAction))
    ensures
        (first.0@, first.1@) == start_model(*config),
{
    (BridgeState::Dialing, BridgeAction::Dial { upstream: config.upstream.clone() })
}

/// Ends the connection with `outcome`.
fn close(outcome: Result<(), BridgeError>) -> (next: (BridgeState, BridgeAction))
    ensures
        (next.0@, next.1@) == closing(outcome),
{
    (BridgeState::Closed { outcome }, BridgeAction::Close { outcome })
}

/// Takes `chunk` into the header block and decides what follows.
fn receive(buffer: Vec<u8>, chunk: Vec<u8>) -> (next: (BridgeState, BridgeAction))
    ensures
        (next.0@, next.1@) == on_received(buffer@, chunk@),
{
    let mut head = buffer;
    let mut rest = chunk;
    let taken = absorb(&mut head, rest.as_slice());
    if head_complete(&head) {
        match judge_response(&head) {
            Ok(_) => {
                let pending = rest.split_off(taken);
                (BridgeState::Relaying, BridgeAction::Relay { pending })
            },
            Err(error) => close(Err(error)),
        }
    } else {
        (BridgeState::CollectingHead { buffer: head }, BridgeAction::ReadMore)
    }
}

/// Decides what follows `state` on `event`: the next state, and the action
/// that the driver is to perform.
pub fn step(config: &ServerConfig, state: BridgeState, event: BridgeEvent) -> (next: (
    BridgeState,
    BridgeAction,
))
    ensures
        (next.0@, next.1@) == step_model(*config, state@, event@),
{
    match state {
        BridgeState::Dialing => match event {
            BridgeEvent::Connected => match config.protocol {
                ProxyProtocol::Socks5 => (
                    BridgeState::AwaitingMethod,
                    BridgeAction::Negotiate { methods: offered_methods() },
                ),
                ProxyProtocol::Http => (
                    BridgeState::CollectingHead { buffer: Vec::new() },
                    BridgeAction::SendRequest {
                        bytes: connect_request(&config.destination, &config.upstream),
                    },
                ),
            },
            BridgeEvent::ConnectFailed => close(Err(BridgeError::UpstreamConnectError)),
            _ => close(Err(BridgeError::UnexpectedEvent)),
        },
        BridgeState::AwaitingMethod => match event {
            BridgeEvent::MethodChosen(method) => match judge_method(method) {
                Ok(_) => (
                    BridgeState::AwaitingReply,
                    BridgeAction::RequestConnect { destination: config.destination.clone() },
                ),
                Err(error) => close(Err(error)),
            },
            BridgeEvent::Undecodable => close(
                Err(BridgeError::MalformedResponse { fault: ResponseFault::Undecodable }),
            ),
            BridgeEvent::EndOfStream => close(Err(BridgeError::HandshakeIOError)),
            BridgeEvent::IoFailed => close(Err(BridgeError::HandshakeIOError)),
            _ => close(Err(BridgeError::UnexpectedEvent)),
        },
        BridgeState::AwaitingReply => match event {
            BridgeEvent::Replied(reply) => match judge_reply(reply) {
                Ok(_) => (BridgeState::Relaying, BridgeAction::Relay { pending: Vec::new() }),
                Err(error) => close(Err(error)),
            },
            BridgeEvent::Undecodable => close(
                Err(BridgeError::MalformedResponse { fault: ResponseFault::Undecodable }),
            ),
            BridgeEvent::EndOfStream => close(Err(BridgeError::HandshakeIOError)),
            BridgeEvent::IoFailed => close(Err(BridgeError::HandshakeIOError)),
            _ => close(Err(BridgeError::UnexpectedEvent)),
        },
        BridgeState::CollectingHead { buffer } => match event {
            BridgeEvent::Received(chunk) => receive(buffer, chunk),
            BridgeEvent::EndOfStream => close(
                Err(BridgeError::MalformedResponse { fault: ResponseFault::Truncated }),
            ),
            BridgeEvent::IoFailed => close(Err(BridgeError::HandshakeIOError)),
            _ => close(Err(BridgeError::UnexpectedEvent)),
        },
        BridgeState::Relaying => match event {
            BridgeEvent::RelayFinished => close(Ok(())),
            BridgeEvent::RelayFailed => close(Err(BridgeError::TunnelIOError)),
            _ => close(Err(BridgeError::UnexpectedEvent)),
        },
        BridgeState::Closed { outcome } => close(outcome),
    }
}

} // verus!
