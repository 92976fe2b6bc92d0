//! Orchestration core of a threshold-signature key daemon: an exclusive
//! reserve-then-commit key store, the keygen flow built on it, and the
//! selection of a protocol-deviation behaviour from startup arguments.

pub mod error;
pub mod store;
pub mod keygen;
pub mod config;
