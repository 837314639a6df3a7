//! Deterministic per-site password derivation.
//!
//! A master passphrase is stretched into a 64-byte master key, each site is
//! identified by a seed string built from the site name and a counter, a
//! keyed hash of that seed yields a 64-byte digest, and the digest bytes are
//! mapped into a chosen password alphabet.

pub mod alphabet;
pub mod crypto;
pub mod generator;
pub mod text;

pub use generator::{PasswordError, PasswordGenerator, PasswordGeneratorAlgo,
    PasswordGeneratorHmac, Site};
