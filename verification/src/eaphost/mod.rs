//! The host side: the connection profile and its XML forms, the policy guards,
//! and the sessions that an `EAPHost` peer method drives.
pub mod config;
pub mod config_xml;
pub mod error;
pub mod markup;
pub mod os_fips;
pub mod peer;
pub mod profile;
mod profile_tags;
pub mod register;
pub mod session;
pub mod session_registry;
pub mod status;

use vstd::prelude::*;

verus! {

/// Registry location under which `EAPHost` peer methods are registered.
pub const EAPHOST_METHODS_KEY: &'static str = "SYSTEM\\CurrentControlSet\\Services\\EapHost\\Methods";

/// Our author id: distinct from the in-box methods' author.
pub const USG_AUTHOR_ID: u32 = 192000;

/// The EAP type of the method: TEAP.
pub const USG_TYPE_ID: u32 = 55;

} // verus!
