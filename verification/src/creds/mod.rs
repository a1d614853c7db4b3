//! Client credentials: which certificate is presented, what its key signs with,
//! and how the signature is encoded.
pub mod adapter;
pub mod cng;
pub mod ecdsa;
pub mod error;
pub mod keyinfo;
pub mod selection;

use vstd::prelude::*;

verus! {

/// Which identity a credential authenticates.
#[derive(Debug, Clone, Copy, PartialEq, Eq, Structural)]
pub enum CredKind {
    /// Machine certificate (boot, before logon).
    Machine,
    /// User certificate (smartcard, at logon).
    User,
}

} // verus!
