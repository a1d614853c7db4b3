//! Key material that is scrubbed when it is dropped.
use crate::bytes::copy_of;
use vstd::prelude::*;
use zeroize::Zeroizing;

verus! {

/// Octets in zeroize's scrubbing container: they are overwritten on drop, and
/// `Debug` does not show them.
#[verifier::external_body]
#[derive(Debug, PartialEq, Eq)]
pub struct SecretBytes {
    octets: Zeroizing<Vec<u8>>,
}

/// The octets that are held.
pub uninterp spec fn secret_octets(s: SecretBytes) -> Seq<u8>;

/// `Zeroizing::new`: holds exactly the given octets.
#[verifier::external_body]
fn conceal(octets: Vec<u8>) -> (s: SecretBytes)
    ensures
        secret_octets(s) == octets@,
{
    SecretBytes { octets: Zeroizing::new(octets) }
}

/// `Zeroizing`'s dereference: the octets that are held.
#[verifier::external_body]
fn expose(s: &SecretBytes) -> (octets: &[u8])
    ensures
        octets@ == secret_octets(*s),
{
    s.octets.as_slice()
}

impl View for SecretBytes {
    type V = Seq<u8>;

    open spec fn view(&self) -> Seq<u8> {
        secret_octets(*self)
    }
}

impl SecretBytes {
    /// Hold these octets.
    pub fn new(octets: Vec<u8>) -> (s: SecretBytes)
        ensures
            s@ == octets@,
    {
        conceal(octets)
    }

    /// The octets that are held.
    pub fn as_slice(&self) -> (octets: &[u8])
        ensures
            octets@ == self@,
    {
        expose(self)
    }

    /// A second container with the same octets.
    pub fn duplicate(&self) -> (s: SecretBytes)
        ensures
            s@ == self@,
    {
        conceal(copy_of(expose(self)))
    }
}

/// What is put in comes out: the octets that are held are those that were given, and a
/// second container holds the same.
pub proof fn law_held_octets_come_out(
    octets: Vec<u8>,
    s: SecretBytes,
    out: &[u8],
    t: SecretBytes,
    again: &[u8],
)
    requires
        call_ensures(SecretBytes::new, (octets,), s),
        call_ensures(SecretBytes::as_slice, (&s,), out),
        call_ensures(SecretBytes::duplicate, (&s,), t),
        call_ensures(SecretBytes::as_slice, (&t,), again),
    ensures
        out@ == octets@,
        again@ == octets@,
{
}

} // verus!
