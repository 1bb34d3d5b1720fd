//! Cryptography choices for the daemon's configuration.

use vstd::prelude::*;

verus! {

/// Types of encryption.
pub enum CryptoTypes {
    AesGcm,
}

} // verus!
