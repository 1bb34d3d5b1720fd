//! Connection layer configuration: which transport, cipher and key exchange
//! a connection uses, and the endpoint it binds. The listener and dialer
//! themselves live with the I/O runtime; this module holds what the
//! verified pipeline needs to know about them.

use vstd::prelude::*;

verus! {

/// Number of records each of the two bounded per-connection queues holds.
pub const CHANNEL_BUFFER_SIZE: usize = 256;

/// Types of connection the transport can be configured with.
pub enum Implementation {
    Tcp,
}

/// Settings for the connection layer.
pub struct ConnectionConfiguration {
    /// The IPv6 address to listen on, in network byte order.
    pub addr: u128,
    /// The port to listen on.
    pub port: u16,
    /// The configured transport.
    pub connection: Implementation,
    /// The configured cipher.
    pub crypto: crate::crypto::Implementation,
    /// The configured key exchange.
    pub kex: crate::kex::Implementation,
}

impl ConnectionConfiguration {
    /// Builds a configuration from explicit choices.
    pub fn new(
        addr: u128,
        port: u16,
        connection: Implementation,
        crypto: crate::crypto::Implementation,
        kex: crate::kex::Implementation,
    ) -> (r: Self)
        ensures
            r.addr == addr,
            r.port == port,
    {
        ConnectionConfiguration { addr, port, connection, crypto, kex }
    }
}

impl Default for ConnectionConfiguration {
    /// The default connection configuration: TCP with the default methods,
    /// bound to the IPv6 loopback address and the default port.
    fn default() -> (r: Self)
        ensures
            r.addr == 1u128,
            r.port == 54321,
    {
        ConnectionConfiguration {
            addr: default_addr(),
            port: default_port(),
            connection: default_allowed_connection(),
            crypto: default_allowed_crypto(),
            kex: default_allowed_kex(),
        }
    }
}

fn default_allowed_connection() -> Implementation {
    Implementation::Tcp
}

fn default_allowed_crypto() -> crate::crypto::Implementation {
    crate::crypto::Implementation::AesGcm
}

fn default_allowed_kex() -> crate::kex::Implementation {
    crate::kex::Implementation::Kyberlib
}

fn default_addr() -> (r: u128)
    ensures
        r == 1u128,
{
    1
}

fn default_port() -> (r: u16)
    ensures
        r == 54321,
{
    54321
}

} // verus!
