//! Connection-layer settings of the daemon's configuration.

use vstd::prelude::*;

use crate::config::crypto::CryptoTypes;
use crate::config::kex::KexTypes;

verus! {

/// Different types of connections available.
pub enum ConnectionTypes {
    Tcp,
}

/// Settings for the connection layer.
pub struct ConnectionConfiguration {
    /// What address to listen on, in network byte order.
    pub addr: u128,
    /// What port to listen on.
    pub port: u16,
    /// The configured transport.
    pub connection: ConnectionTypes,
    /// The configured cipher.
    pub crypto: CryptoTypes,
    /// The configured key exchange.
    pub kex: KexTypes,
}

impl ConnectionConfiguration {
    /// Builds a configuration from explicit choices.
    pub fn new(
        addr: u128,
        port: u16,
        connection: ConnectionTypes,
        crypto: CryptoTypes,
        kex: KexTypes,
    ) -> (r: Self)
        ensures
            r.addr == addr,
            r.port == port,
    {
        ConnectionConfiguration { addr, port, connection, crypto, kex }
    }
}

impl Default for ConnectionConfiguration {
    /// The default connection settings: TCP on the IPv6 loopback address at
    /// the default port, with the default methods.
    fn default() -> (r: Self)
        ensures
            r.addr == 1u128,
            r.port == 54321,
    {
        ConnectionConfiguration {
            addr: default_addr(),
            port: default_port(),
            connection: default_allowed_connection(),
            crypto: default_allowed_crypto(),
            kex: default_allowed_kex(),
        }
    }
}

fn default_allowed_connection() -> ConnectionTypes {
    ConnectionTypes::Tcp
}

fn default_allowed_crypto() -> CryptoTypes {
    CryptoTypes::AesGcm
}

fn default_allowed_kex() -> KexTypes {
    KexTypes::Kyberlib
}

fn default_addr() -> (r: u128)
    ensures
        r == 1u128,
{
    1
}

fn default_port() -> (r: u16)
    ensures
        r == 54321,
{
    54321
}

} // verus!
