//! When a remote key's identity is presented, and as what algorithm.
use crate::fips_tls::signer::SignatureScheme;
use vstd::prelude::*;

verus! {

/// A TLS signature algorithm.
#[derive(Debug, Clone, Copy, PartialEq, Eq, Structural)]
pub enum SignatureAlgorithm {
    RSA,
    ED25519,
    ECDSA,
}

/// The algorithm of a scheme: RSA for the PKCS#1 and PSS schemes, Ed25519 for its
/// own, ECDSA for all others.
pub open spec fn algorithm_of(scheme: SignatureScheme) -> SignatureAlgorithm {
    match scheme {
        SignatureScheme::RSA_PKCS1_SHA256 | SignatureScheme::RSA_PKCS1_SHA384
        | SignatureScheme::RSA_PKCS1_SHA512 | SignatureScheme::RSA_PSS_SHA256
        | SignatureScheme::RSA_PSS_SHA384 | SignatureScheme::RSA_PSS_SHA512 => SignatureAlgorithm::RSA,
        SignatureScheme::ED25519 => SignatureAlgorithm::ED25519,
        _ => SignatureAlgorithm::ECDSA,
    }
}

/// The algorithm of a scheme.
pub fn scheme_algorithm(scheme: SignatureScheme) -> (a: SignatureAlgorithm)
    ensures
        a == algorithm_of(scheme),
{
    match scheme {
        SignatureScheme::RSA_PKCS1_SHA256 | SignatureScheme::RSA_PKCS1_SHA384
        | SignatureScheme::RSA_PKCS1_SHA512 | SignatureScheme::RSA_PSS_SHA256
        | SignatureScheme::RSA_PSS_SHA384 | SignatureScheme::RSA_PSS_SHA512 => SignatureAlgorithm::RSA,
        SignatureScheme::ED25519 => SignatureAlgorithm::ED25519,
        _ => SignatureAlgorithm::ECDSA,
    }
}

/// Whether a key that signs with `scheme` is presented: only if the server offers
/// that very scheme. Matching by algorithm would present a certificate whose key
/// then cannot sign.
pub fn is_offered(scheme: SignatureScheme, offered: &Vec<SignatureScheme>) -> (r: bool)
    ensures
        r == offered@.contains(scheme),
{
    let mut i: usize = 0;
    while i < offered.len()
        invariant
            i <= offered@.len(),
            forall|j: int| 0 <= j < i ==> offered@[j] != scheme,
        decreases offered@.len() - i,
    {
        if offered[i] == scheme {
            assert(offered@[i as int] == scheme);
            return true;
        }
        i = i + 1;
    }
    false
}

/// The schemes of RSA, of either padding and with each hash, are RSA; Ed25519 is its own;
/// the curves of ECDSA, and what is unknown, are ECDSA.
pub proof fn law_schemes_have_their_algorithm(scheme: SignatureScheme, a: SignatureAlgorithm)
    requires
        call_ensures(scheme_algorithm, (scheme,), a),
    ensures
        a == SignatureAlgorithm::RSA <==> scheme is RSA_PKCS1_SHA256 || scheme is RSA_PKCS1_SHA384
            || scheme is RSA_PKCS1_SHA512 || scheme is RSA_PSS_SHA256 || scheme is RSA_PSS_SHA384
            || scheme is RSA_PSS_SHA512,
        a == SignatureAlgorithm::ED25519 <==> scheme is ED25519,
        scheme is ECDSA_NISTP256_SHA256 || scheme is ECDSA_NISTP384_SHA384
            || scheme is ECDSA_NISTP521_SHA512 || scheme is Unknown ==> a
            == SignatureAlgorithm::ECDSA,
{
}

/// A key is presented exactly if its very scheme stands among those that are offered,
/// wherever it stands; another scheme of the same algorithm is not enough.
pub proof fn law_presented_scheme_is_offered(
    scheme: SignatureScheme,
    offered: Vec<SignatureScheme>,
    r: bool,
    i: int,
)
    requires
        call_ensures(is_offered, (scheme, &offered), r),
        0 <= i < offered@.len(),
    ensures
        offered@[i] == scheme ==> r,
        r ==> exists|j: int| 0 <= j < offered@.len() && #[trigger] offered@[j] == scheme,
{
    assert(offered@[i] == scheme ==> offered@.contains(scheme));
}

/// Nothing is presented where nothing is offered.
pub proof fn law_nothing_offered_nothing_presented(
    scheme: SignatureScheme,
    offered: Vec<SignatureScheme>,
    r: bool,
)
    requires
        call_ensures(is_offered, (scheme, &offered), r),
        offered@.len() == 0,
    ensures
        !r,
{
}

} // verus!
