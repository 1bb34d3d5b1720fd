//! Session-layer settings of the daemon's configuration.

use vstd::prelude::*;

use crate::config::crypto::CryptoTypes;
use crate::config::kex::KexTypes;

verus! {

/// Types of identity keys.
pub enum KeyTypes {
    Fips204,
}

/// Settings for the session layer.
pub struct SessionConfiguration {
    /// The allowed identity-key scheme.
    pub key: KeyTypes,
    /// The allowed cipher.
    pub crypto: CryptoTypes,
    /// The allowed key exchange.
    pub kex: KexTypes,
}

impl SessionConfiguration {
    /// Builds a configuration from explicit choices.
    pub fn new(key: KeyTypes, crypto: CryptoTypes, kex: KexTypes) -> Self {
        SessionConfiguration { key, crypto, kex }
    }
}

impl Default for SessionConfiguration {
    /// The default session settings.
    fn default() -> Self {
        SessionConfiguration {
            key: default_allowed_key(),
            crypto: default_allowed_crypto(),
            kex: default_allowed_kex(),
        }
    }
}

fn default_allowed_crypto() -> CryptoTypes {
    CryptoTypes::AesGcm
}

fn default_allowed_kex() -> KexTypes {
    KexTypes::Kyberlib
}

fn default_allowed_key() -> KeyTypes {
    KeyTypes::Fips204
}

} // verus!
