//! Quantum-safe remote-shell transport library.
//!
//! The crate verifies the secure transport pipeline of a client/daemon pair:
//! a bidirectional ML-KEM key-exchange handshake with two independent session
//! keys, an AES-256-GCM record layer with a monotonic 96-bit nonce counter per
//! direction, length-prefixed record framing, an ML-DSA identity layer keyed
//! by peer IPv6 address, and the plaintext channel multiplexing on top.

pub mod bytes;
pub mod channel;
pub mod compress;
pub mod config;
pub mod configuration;
pub mod connection;
pub mod control;
pub mod crypto;
pub mod encrypt;
pub mod handshake;
pub mod ipc;
pub mod kex;
pub mod record;
pub mod server;
pub mod session;
