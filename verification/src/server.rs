//! What one server instance is configured with, and the decisions of its
//! accept loop.

use vstd::prelude::*;

use crate::address::EndpointAddress;
use crate::address::SocketAddress;
use crate::opt::AcceptOptions;
use crate::opt::ConnectOptions;
use crate::opt::ProxyProtocol;

verus! {

/// Everything one server instance works with. It is made once at startup
/// and only read afterwards, by the accept loop and by every connection.
#[derive(Debug)]
pub struct ServerConfig {
    /// Where the listener is bound.
    pub local_addr: SocketAddress,
    /// The upstream proxy that every connection is bridged to.
    pub upstream: EndpointAddress,
    /// The destination that the upstream proxy is asked to reach.
    pub destination: EndpointAddress,
    /// Tuning of accepted sockets.
    pub accept_opts: AcceptOptions,
    /// Tuning of the sockets that dial upstream.
    pub connect_opts: ConnectOptions,
    /// The handshake spoken to the upstream proxy.
    pub protocol: ProxyProtocol,
}

impl ServerConfig {
    /// The configuration of a server that bridges to a SOCKS5 proxy.
    pub fn socks5(
        local_addr: SocketAddress,
        upstream: EndpointAddress,
        destination: EndpointAddress,
        accept_opts: AcceptOptions,
        connect_opts: ConnectOptions,
    ) -> (config: ServerConfig)
        ensures
            config == (ServerConfig {
                local_addr,
                upstream,
                destination,
                accept_opts,
                connect_opts,
                protocol: ProxyProtocol::Socks5,
            }),
    {
        ServerConfig {
            local_addr,
            upstream,
            destination,
            accept_opts,
            connect_opts,
            protocol: ProxyProtocol::Socks5,
        }
    }

    /// The configuration of a server that bridges to an HTTP proxy.
    pub fn http(
        local_addr: SocketAddress,
        upstream: EndpointAddress,
        destination: EndpointAddress,
        accept_opts: AcceptOptions,
        connect_opts: ConnectOptions,
    ) -> (config: ServerConfig)
        ensures
            config == (ServerConfig {
                local_addr,
                upstream,
                destination,
                accept_opts,
                connect_opts,
                protocol: ProxyProtocol::Http,
            }),
    {
        ServerConfig {
            local_addr,
            upstream,
            destination,
            accept_opts,
            connect_opts,
            protocol: ProxyProtocol::Http,
        }
    }
}

/// How long the accept loop waits after a failed accept, in seconds.
pub const ACCEPT_BACKOFF_SECS: u64 = 1;

/// What one call to accept came to.
#[derive(Clone, Copy, Debug, PartialEq, Eq, Structural)]
pub enum AcceptOutcome {
    /// A client connected.
    Accepted,
    /// The call failed. Such failures pass; none of them is fatal.
    AcceptError,
}

/// What the accept loop does before it accepts again.
#[derive(Clone, Copy, Debug, PartialEq, Eq, Structural)]
pub enum LoopAction {
    /// Hand the connection to a bridge of its own that runs beside the
    /// loop. The loop does not wait for it, and what the bridge ends with
    /// is logged there and goes no further.
    Dispatch,
    /// Log the failure and sleep for `seconds`.
    Backoff { seconds: u64 },
}

/// The accept loop's decision on the outcome of one accept.
pub open spec fn decision(outcome: AcceptOutcome) -> LoopAction {
    match outcome {
        AcceptOutcome::Accepted => LoopAction::Dispatch,
        AcceptOutcome::AcceptError => LoopAction::Backoff { seconds: ACCEPT_BACKOFF_SECS },
    }
}

/// Decides what the accept loop does with the outcome of one accept. Either
/// way the loop accepts again afterwards: no outcome ends it.
pub fn after_accept(outcome: AcceptOutcome) -> (action: LoopAction)
    ensures
        action == decision(outcome),
{
    match outcome {
        AcceptOutcome::Accepted => LoopAction::Dispatch,
        AcceptOutcome::AcceptError => LoopAction::Backoff { seconds: ACCEPT_BACKOFF_SECS },
    }
}

/// The decisions of a loop that sees `outcomes`, in order.
pub open spec fn decisions(outcomes: Seq<AcceptOutcome>) -> Seq<LoopAction> {
    Seq::new(outcomes.len(), |i: int| decision(outcomes[i]))
}

/// Failed accepts do not stop the loop or change what it does later: it
/// answers every outcome, each failure with the fixed backoff, and it
/// dispatches every connection that is accepted, however many accepts
/// failed before.
pub proof fn law_accept_failures_pass(outcomes: Seq<AcceptOutcome>, i: int)
    requires
        0 <= i < outcomes.len(),
    ensures
        decisions(outcomes).len() == outcomes.len(),
        outcomes[i] == AcceptOutcome::AcceptError ==> decisions(outcomes)[i] == (LoopAction::Backoff {
            seconds: 1,
        }),
        outcomes[i] == AcceptOutcome::Accepted ==> decisions(outcomes)[i] == LoopAction::Dispatch,
{
}

} // verus!
