//! Identity-binding and proof-of-possession core.
//!
//! A client registers an account by proving control of an Ed25519 keypair
//! (a signature over its email address), looks up the account bound to a
//! public key, and authenticates arbitrary messages by re-proving possession
//! of the keypair. The key-to-account mapping is the sole source of truth;
//! transport, persistence connections and outbound mail live outside this
//! crate.

pub mod crypto;
pub mod errors;
pub mod ident;
pub mod service;
pub mod store;
