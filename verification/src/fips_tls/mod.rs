//! The FIPS TLS 1.3 backend: the restricted provider, the client tunnel with its
//! parameter guard, the MAC of the negotiated suite, and the signing seam for
//! keys that never leave their store.
pub mod backend;
pub mod error;
pub mod mac;
pub mod provider;
pub mod queue;
pub mod secret;
pub mod server;
pub mod signer;
