//! Mutually authenticated secure channels between cryptographic identities:
//! address allocation, trust evaluation, the three-message handshake state
//! machine, the per-direction channel runtime and the channel registry.

pub mod address;
pub mod channels;
pub mod error;
pub mod handshake;
pub mod registry;
pub mod runtime;
pub mod trust;
