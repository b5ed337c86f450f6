//! Persistence layer for a double-ratchet style messaging protocol.
//!
//! A store keeps three kinds of protocol state across restarts: the ratchet
//! session of each remote peer, the local long-term identity keypair, and a
//! pool of one-time prekeys. The [`api::Store`] trait states the contract
//! every backend must meet; [`memory::MemStore`] is the reference backend.

pub mod api;
pub mod codec;
pub mod keys;
pub mod laws;
pub mod memory;
pub mod session;
