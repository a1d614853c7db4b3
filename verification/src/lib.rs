//! A wired 802.1X supplicant for EAP-TEAP over a FIPS TLS 1.3 tunnel.
//!
//! The library holds the rules of the supplicant: the connection-profile codec
//! and its XML envelope, certificate selection and signature encoding, the
//! stored machine ticket, the TLS tunnel with its parameter guard, the outer and
//! inner EAP state machines, and the session table that a host drives.
pub mod bytes;
pub mod cli;
pub mod creds;
pub mod eaphost;
pub mod fips_tls;
pub mod harness;
pub mod kat;
pub mod pac;
pub mod supplicant;
pub mod text;
