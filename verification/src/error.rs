//! The errors of a connection attempt.

use vstd::prelude::*;

verus! {

/// Why a SOCKS5 handshake was given up.
#[derive(Debug, Clone, Copy, PartialEq, Eq, Structural, Hash)]
pub enum SocksError {
    /// The target's host name is empty or longer than 255 bytes, so no
    /// request can name it.
    InvalidTarget,
    /// The proxy answered with a protocol version other than 5.
    InvalidVersion(u8),
    /// The proxy accepts none of the offered authentication methods.
    NoAcceptableAuthMethod,
    /// The proxy chose an authentication method that was not offered.
    UnsupportedAuthMethod(u8),
    /// The proxy refused the request; the value is its reply code, never 0.
    Rejected(u8),
    /// The reserved byte of the reply is not zero.
    InvalidReservedByte(u8),
    /// The reply names an address type that the protocol does not know.
    UnknownAddressType(u8),
    /// The proxy closed the connection in the middle of the handshake.
    UnexpectedEof,
}

/// Why a connection attempt failed.
#[derive(Debug, Clone, Copy, PartialEq, Eq, Structural, Hash)]
pub enum Error {
    /// The deadline passed before the connection was established.
    Timeout,
    /// The URL names no host.
    EmptyHost,
    /// The URL gives no port and its scheme has no default one.
    InvalidPort,
    /// The SOCKS5 proxy was reached and the handshake with it failed.
    Proxy(SocksError),
    /// The transport below failed: TCP or TLS.
    Network,
    /// The remote peer refused the WebSocket upgrade.
    Upgrade,
    /// The anonymity network could not be joined, or gave no stream.
    Circuit,
}

impl Error {
    /// Whether the error was found in the URL alone, before anything was
    /// sent or opened.
    pub open spec fn is_addressing(self) -> bool {
        self == Error::EmptyHost || self == Error::InvalidPort
    }
}

} // verus!
