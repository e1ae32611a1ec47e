//! goto: a URL-shortener core.
//!
//! The library maps short identifiers to long target URLs. It offers a
//! mapping store with create/update/lookup semantics, a deterministic
//! short-identifier derived from a cryptographic hash of the target, and an
//! append-only persistence format that doubles as a key/value document for
//! bootstrap. A thin command-line client side (option merging, response
//! classification) comes along as well. All logic is verified; calls into
//! outside crates (blake3, url, serde_yaml) stand behind trusted wrappers.

pub mod cli;
pub mod config;
pub mod hasher;
pub mod laws;
pub mod persistence;
pub mod server;
pub mod store;
pub mod upsert;
