//! Verified bootstrap of an on-chain trading process's execution context.
//!
//! The library assembles and validates the immutable execution context the
//! rest of the process depends on: an event-subscription channel, a
//! transactional channel authorized by a signing identity bound to the
//! observed chain identity, a compiled-in operator address, and fork
//! simulation parameters resolved with documented defaults. All decision
//! logic carries contracts; network transports and the signing primitive are
//! outside collaborators reached through a few trusted declarations.

pub mod channels;
pub mod config;
pub mod decimal;
pub mod errors;
pub mod keyhex;
pub mod signer;
