//! A small secret vault: passphrase-derived snapshot keys, a registry of
//! client namespaces, and the two key procedures (generate a signing key,
//! read out its public half) run against an in-memory stronghold.
pub mod backend;
pub mod error;
pub mod header;
pub mod kdf;
pub mod location;
pub mod locks;
pub mod session;
pub mod vault;
