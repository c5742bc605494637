//! Store-and-forward relay for opaque, end-to-end encrypted messages.
//!
//! The relay keeps a registry of connected recipients, hands each routed
//! envelope either to the recipient's live outbound channel or to a durable
//! per-recipient queue with bounded retention, and drives every session
//! through a small lifecycle. Network and store I/O are performed by the
//! embedding program; every decision is taken here.

pub mod config;
pub mod envelope;
pub mod error;
pub mod memory;
pub mod model;
pub mod relay;
pub mod session;
pub mod storage;
pub mod wire;

pub use error::Error;
