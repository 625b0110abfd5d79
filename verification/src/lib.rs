//! Multi-party Ed25519 signing: deterministic, rogue-key-resistant
//! public-key aggregation, a two-round commit-then-reveal nonce
//! exchange, partial-signature computation and verification, and two
//! distinct signature-combination schemes.
#![allow(non_snake_case)]

pub mod group;
pub mod protocols;
