//! Plugin options, and the socket options that follow from them.

use vstd::prelude::*;

use crate::address::EndpointAddress;
use crate::address::IpAddress;
use crate::address::SocketAddress;

verus! {

/// The protocol spoken to the upstream proxy.
#[derive(Clone, Copy, Debug, PartialEq, Eq, Structural)]
pub enum ProxyProtocol {
    /// SOCKS version 5.
    Socks5,
    /// HTTP proxy protocol (HTTP/1.1 CONNECT).
    Http,
}

impl ProxyProtocol {
    /// The protocol's name as options spell it, in lower case.
    pub open spec fn name_text(self) -> Seq<char> {
        match self {
            ProxyProtocol::Socks5 => "socks5"@,
            ProxyProtocol::Http => "http"@,
        }
    }

    /// The protocol's name as options spell it.
    pub fn name(&self) -> (name: &'static str)
        ensures
            name@ == self.name_text(),
    {
        match self {
            ProxyProtocol::Socks5 => "socks5",
            ProxyProtocol::Http => "http",
        }
    }
}

impl Default for ProxyProtocol {
    /// SOCKS5 unless told otherwise.
    fn default() -> (protocol: Self)
        ensures
            protocol == ProxyProtocol::Socks5,
    {
        ProxyProtocol::Socks5
    }
}

/// Tuning of a TCP socket.
#[derive(Clone, Copy, Debug, PartialEq, Eq, Structural)]
pub struct TcpOptions {
    /// Keep-alive interval in seconds; `None` leaves keep-alive off.
    pub keepalive_secs: Option<u64>,
    /// TCP Fast Open.
    pub fastopen: bool,
    /// Multipath TCP.
    pub mptcp: bool,
}

/// Tuning of the sockets that dial the upstream proxy. The bridge carries
/// it to whoever opens the socket and reads none of it.
#[derive(Clone, Debug, PartialEq, Eq)]
pub struct ConnectOptions {
    /// Routing mark (`SO_MARK`), for platforms that have one.
    pub fwmark: Option<u32>,
    /// User cookie (`SO_USER_COOKIE`), for platforms that have one.
    pub user_cookie: Option<u32>,
    /// Local address that outbound sockets bind to.
    pub bind_local_addr: Option<SocketAddress>,
    /// Network interface that outbound sockets bind to.
    pub bind_interface: Option<String>,
    /// TCP tuning.
    pub tcp: TcpOptions,
}

/// Tuning of the sockets that the listener accepts.
#[derive(Clone, Copy, Debug, PartialEq, Eq, Structural)]
pub struct AcceptOptions {
    /// TCP tuning.
    pub tcp: TcpOptions,
}

/// The options that a plugin is started with.
#[derive(Debug)]
pub struct PluginOpts {
    /// `SO_MARK` for outbound sockets.
    pub outbound_fwmark: Option<u32>,
    /// `SO_USER_COOKIE` for outbound sockets.
    pub outbound_user_cookie: Option<u32>,
    /// Interface that outbound sockets bind to.
    pub outbound_bind_interface: Option<String>,
    /// Address that outbound sockets bind to.
    pub outbound_bind_addr: Option<IpAddress>,
    /// UDP tunnel timeout in seconds.
    pub udp_timeout: Option<u64>,
    /// TCP keep-alive in seconds.
    pub tcp_keep_alive: Option<u64>,
    /// TCP Fast Open.
    pub tcp_fast_open: Option<bool>,
    /// Multipath TCP.
    pub mptcp: Option<bool>,
    /// Prefer IPv6 addresses when a name resolves to both families.
    pub ipv6_first: Option<bool>,
    /// The upstream proxy's protocol.
    pub proxy_protocol: ProxyProtocol,
    /// The upstream proxy's address.
    pub proxy_addr: EndpointAddress,
}

/// `flag`, or `false` where none is given.
pub open spec fn flag_or_off(flag: Option<bool>) -> bool {
    match flag {
        Some(on) => on,
        None => false,
    }
}

/// The proxy that is assumed where none is named: `127.0.0.1:1080`.
pub open spec fn default_proxy_addr() -> EndpointAddress {
    EndpointAddress::Socket(SocketAddress::V4 { octets: [127, 0, 0, 1], port: 1080 })
}

impl Default for PluginOpts {
    /// No option set, and a SOCKS5 proxy at `127.0.0.1:1080`.
    fn default() -> (opts: Self)
        ensures
            opts.outbound_fwmark is None,
            opts.outbound_user_cookie is None,
            opts.outbound_bind_interface is None,
            opts.outbound_bind_addr is None,
            opts.udp_timeout is None,
            opts.tcp_keep_alive is None,
            opts.tcp_fast_open is None,
            opts.mptcp is None,
            opts.ipv6_first is None,
            opts.proxy_protocol == ProxyProtocol::Socks5,
            opts.proxy_addr == default_proxy_addr(),
    {
        PluginOpts {
            outbound_fwmark: None,
            outbound_user_cookie: None,
            outbound_bind_interface: None,
            outbound_bind_addr: None,
            udp_timeout: None,
            tcp_keep_alive: None,
            tcp_fast_open: None,
            mptcp: None,
            ipv6_first: None,
            proxy_protocol: ProxyProtocol::Socks5,
            proxy_addr: EndpointAddress::Socket(
                SocketAddress::V4 { octets: [127, 0, 0, 1], port: 1080 },
            ),
        }
    }
}

impl PluginOpts {
    /// The TCP tuning that both kinds of socket share: the keep-alive as
    /// given, Fast Open and Multipath TCP off unless switched on.
    pub open spec fn tcp_options(&self) -> TcpOptions {
        TcpOptions {
            keepalive_secs: self.tcp_keep_alive,
            fastopen: flag_or_off(self.tcp_fast_open),
            mptcp: flag_or_off(self.mptcp),
        }
    }

    /// The local address for outbound sockets: the bind address with port
    /// 0, so that the system picks a port.
    pub open spec fn bind_local_addr(&self) -> Option<SocketAddress> {
        match self.outbound_bind_addr {
            Some(ip) => Some(SocketAddress::of(ip, 0)),
            None => None,
        }
    }

    /// The options for sockets that dial the upstream proxy.
    pub fn as_connect_opts(&self) -> (opts: ConnectOptions)
        ensures
            opts.fwmark == self.outbound_fwmark,
            opts.user_cookie == self.outbound_user_cookie,
            opts.bind_interface == self.outbound_bind_interface,
            opts.bind_local_addr == self.bind_local_addr(),
            opts.tcp == self.tcp_options(),
    {
        ConnectOptions {
            fwmark: self.outbound_fwmark,
            user_cookie: self.outbound_user_cookie,
            bind_local_addr: match self.outbound_bind_addr {
                Some(ip) => Some(SocketAddress::new(ip, 0)),
                None => None,
            },
            bind_interface: match &self.outbound_bind_interface {
                Some(name) => Some(name.clone()),
                None => None,
            },
            tcp: self.tcp(),
        }
    }

    /// The options for sockets that the listener accepts.
    pub fn as_accept_opts(&self) -> (opts: AcceptOptions)
        ensures
            opts.tcp == self.tcp_options(),
    {
        AcceptOptions { tcp: self.tcp() }
    }

    fn tcp(&self) -> (tcp: TcpOptions)
        ensures
            tcp == self.tcp_options(),
    {
        TcpOptions {
            keepalive_secs: self.tcp_keep_alive,
            fastopen: match self.tcp_fast_open {
                Some(on) => on,
                None => false,
            },
            mptcp: match self.mptcp {
                Some(on) => on,
                None => false,
            },
        }
    }
}

} // verus!
