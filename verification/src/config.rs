//! The daemon's layered configuration types: one module per layer.

pub mod channel;
pub mod connection;
pub mod crypto;
pub mod kex;
pub mod session;
