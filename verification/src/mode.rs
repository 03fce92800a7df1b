//! How a connection is to be made.

use vstd::prelude::*;

verus! {

/// The address of a socket: an IP address and a port, as plain numbers.
///
/// An IPv4 address is its four bytes read as one big-endian number, an IPv6
/// address its sixteen.
#[derive(Debug, Clone, Copy, PartialEq, Eq, Structural, PartialOrd, Ord, Hash)]
pub enum SocketAddress {
    V4 { ip: u32, port: u16 },
    V6 { ip: u128, port: u16, flowinfo: u32, scope_id: u32 },
}

/// The transport under a connection.
#[derive(Debug, Clone, PartialEq, Eq, PartialOrd, Ord, Hash)]
pub enum ConnectionMode {
    /// Straight to the target.
    Direct,
    /// Through the SOCKS5 proxy at this address.
    Proxy(SocketAddress),
    /// Through the embedded anonymity-network client.
    Tor {
        /// Where the client keeps its cache and state. Targets with a
        /// sandboxed file system, such as mobile ones, need a path here.
        custom_path: Option<String>,
    },
}

/// The mathematical value of a [`ConnectionMode`].
pub enum ConnectionModeView {
    Direct,
    Proxy(SocketAddress),
    Tor { custom_path: Option<Seq<char>> },
}

impl View for ConnectionMode {
    type V = ConnectionModeView;

    open spec fn view(&self) -> ConnectionModeView {
        match self {
            ConnectionMode::Direct => ConnectionModeView::Direct,
            ConnectionMode::Proxy(addr) => ConnectionModeView::Proxy(*addr),
            ConnectionMode::Tor { custom_path: Some(path) } => ConnectionModeView::Tor {
                custom_path: Some(path@),
            },
            ConnectionMode::Tor { custom_path: None } => ConnectionModeView::Tor {
                custom_path: None,
            },
        }
    }
}

impl ConnectionMode {
    /// A direct connection.
    pub fn direct() -> (mode: ConnectionMode)
        ensures
            mode@ == ConnectionModeView::Direct,
    {
        ConnectionMode::Direct
    }

    /// A connection through the SOCKS5 proxy at `addr`. The address is a
    /// resolved one: looking a name up is the caller's part.
    pub fn proxy(addr: SocketAddress) -> (mode: ConnectionMode)
        ensures
            mode@ == ConnectionModeView::Proxy(addr),
    {
        ConnectionMode::Proxy(addr)
    }

    /// A connection through the embedded anonymity-network client, which
    /// keeps its data where it chooses.
    pub fn tor() -> (mode: ConnectionMode)
        ensures
            mode@ == (ConnectionModeView::Tor { custom_path: None }),
    {
        ConnectionMode::Tor { custom_path: None }
    }

    /// A connection through the embedded anonymity-network client, which
    /// keeps its data under `data_path`.
    pub fn tor_with_path(data_path: &str) -> (mode: ConnectionMode)
        ensures
            mode@ == (ConnectionModeView::Tor { custom_path: Some(data_path@) }),
    {
        ConnectionMode::Tor { custom_path: Some(data_path.to_owned()) }
    }
}

impl Default for ConnectionMode {
    fn default() -> (mode: ConnectionMode)
        ensures
            mode@ == ConnectionModeView::Direct,
    {
        ConnectionMode::Direct
    }
}

} // verus!
