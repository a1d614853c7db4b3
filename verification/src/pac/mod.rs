//! Persistence of the machine authorization ticket.
//!
//! At boot a machine session may receive a server-issued ticket, an opaque byte
//! string that is stored and never parsed; at user logon the stored ticket is
//! presented in the tunnel.
pub mod error;
pub mod record;
pub mod store;
