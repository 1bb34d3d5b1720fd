//! The user-facing tool's configuration: general options and the method
//! chosen for each pluggable role. The file itself is read and parsed by
//! the runtime around the library; this module holds the values and their
//! defaults.

use vstd::prelude::*;

verus! {

/// The tool's configuration.
pub struct QshConfiguration {
    /// General options.
    pub general: General,
    /// The method chosen for each pluggable role.
    pub methods: Methods,
}

/// General options.
pub struct General {
    /// Whether diagnostic logging is enabled.
    pub log: bool,
    /// Seconds between configuration reloads.
    pub config_update_interval: u64,
    /// The IPv6 address to listen on, in network byte order.
    pub listen_address: u128,
    /// The port to listen on.
    pub listen_port: u16,
}

/// The method chosen for each pluggable role.
pub struct Methods {
    /// How peers are authenticated.
    pub authentication: AuthenticationMethod,
    /// How per-channel payloads are compressed.
    pub compression: CompressionMethod,
    /// How records are encrypted.
    pub crypto: CryptographyMethod,
    /// How session keys are agreed.
    pub key_exchange: KeyExchangeMethod,
}

/// Authentication methods.
pub enum AuthenticationMethod {
    Fips204,
}

/// Compression methods.
pub enum CompressionMethod {
    Lz4Flex,
}

/// Cryptography methods.
pub enum CryptographyMethod {
    AesGcm,
}

/// Key-exchange methods.
pub enum KeyExchangeMethod {
    Kyberlib,
}

impl Default for General {
    /// The default general options: no logging, reload every 30 seconds,
    /// listen on the IPv6 loopback address at the default port.
    fn default() -> (r: Self)
        ensures
            r.log == false,
            r.config_update_interval == 30,
            r.listen_address == 1u128,
            r.listen_port == 54321,
    {
        General {
            log: false,
            config_update_interval: default_update_interval(),
            listen_address: 1,
            listen_port: 54321,
        }
    }
}

impl Default for Methods {
    /// The default method for every role.
    fn default() -> Self {
        Methods {
            authentication: default_authentication_method(),
            compression: default_compression_method(),
            crypto: default_cryptography_method(),
            key_exchange: default_key_exchange_method(),
        }
    }
}

impl Default for QshConfiguration {
    /// The default configuration.
    fn default() -> Self {
        QshConfiguration { general: General::default(), methods: Methods::default() }
    }
}

fn default_update_interval() -> (r: u64)
    ensures
        r == 30,
{
    30
}

fn default_authentication_method() -> AuthenticationMethod {
    AuthenticationMethod::Fips204
}

fn default_compression_method() -> CompressionMethod {
    CompressionMethod::Lz4Flex
}

fn default_cryptography_method() -> CryptographyMethod {
    CryptographyMethod::AesGcm
}

fn default_key_exchange_method() -> KeyExchangeMethod {
    KeyExchangeMethod::Kyberlib
}

} // verus!
