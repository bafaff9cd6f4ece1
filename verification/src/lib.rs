//! Protocol core of a local proxy front-end.
//!
//! The front-end accepts clients on a local address and bridges each
//! connection, through one upstream SOCKS5 or HTTP proxy, to one fixed
//! destination. This crate holds its decisions and none of its sockets:
//! what is sent to the upstream proxy, how its answers are judged, when the
//! tunnel opens and with what outcome a connection ends. Whoever owns the
//! sockets performs the actions that the crate asks for and reports back
//! what came of them.
//!
//! - [`address`]: endpoints and the text they are written as.
//! - [`opt`]: plugin options and the socket options that follow from them.
//! - [`server`]: a server's configuration and the accept loop's decisions.
//! - [`socks5`], [`http`]: the two handshakes.
//! - [`bridge`]: the steps of one bridged connection.
//! - [`runs`]: what holds of every run of a bridge.
//! - [`error`]: why a connection fails.

pub mod address;
pub mod bridge;
pub mod error;
pub mod http;
pub mod opt;
pub mod runs;
pub mod server;
pub mod socks5;
