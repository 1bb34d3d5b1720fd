//! Key-exchange choices for the daemon's configuration.

use vstd::prelude::*;

verus! {

/// Types of key exchange.
pub enum KexTypes {
    Kyberlib,
}

} // verus!
