//! What a key store signs, and what becomes of its signature. The store hashes
//! nothing and encodes nothing: the digest is computed in the validated module,
//! and the store's raw signature is encoded here.
use crate::creds::ecdsa::raw_to_der;
use crate::creds::error::CredError;
use crate::creds::keyinfo::CertKey;
use crate::fips_tls::mac::{sha256, sha384};
use crate::fips_tls::signer::{SignatureScheme, SignerError};
use crate::text::append_upper_hex;
use vstd::prelude::*;

verus! {

/// The digest of `message` that a scheme signs; nothing for a scheme we do not
/// sign with.
pub open spec fn signed_digest(scheme: SignatureScheme, message: Seq<u8>) -> Option<Seq<u8>> {
    match scheme {
        SignatureScheme::ECDSA_NISTP256_SHA256 => Some(crate::fips_tls::mac::sha256_of(message)),
        SignatureScheme::RSA_PSS_SHA256 => Some(crate::fips_tls::mac::sha256_of(message)),
        SignatureScheme::ECDSA_NISTP384_SHA384 => Some(crate::fips_tls::mac::sha384_of(message)),
        _ => None,
    }
}

/// The digest to hand to the key store for `message`.
pub fn signing_digest(key: CertKey, message: &[u8]) -> (r: Result<Vec<u8>, CredError>)
    ensures
        match r {
            Ok(d) => signed_digest(key.advertised(), message@) == Some(d@),
            Err(e) => signed_digest(key.advertised(), message@) is None && e
                == CredError::UnsupportedKey,
        },
{
    match key.scheme() {
        SignatureScheme::ECDSA_NISTP256_SHA256 => Ok(sha256(message)),
        SignatureScheme::RSA_PSS_SHA256 => Ok(sha256(message)),
        SignatureScheme::ECDSA_NISTP384_SHA384 => Ok(sha384(message)),
        _ => Err(CredError::UnsupportedKey),
    }
}

/// The signature that TLS expects, from what the key store returned: DER for
/// ECDSA, the octets as they are for RSA-PSS.
pub fn finish_signature(key: CertKey, raw: Vec<u8>) -> (r: Result<Vec<u8>, CredError>)
    ensures
        match key {
            CertKey::RsaPss { .. } => r == Ok::<Vec<u8>, CredError>(raw),
            CertKey::Ecdsa { coord_len, .. } => {
                &&& r is Ok <==> (coord_len == crate::creds::ecdsa::P256_COORD_LEN || coord_len
                    == crate::creds::ecdsa::P384_COORD_LEN) && raw@.len() == 2 * coord_len
                &&& r matches Ok(der) ==> der@ == crate::creds::ecdsa::der_signature(
                    raw@.take(coord_len as int),
                    raw@.skip(coord_len as int),
                )
                &&& r matches Err(e) ==> e == CredError::BadSignature
            },
        },
{
    match key {
        CertKey::RsaPss { .. } => Ok(raw),
        CertKey::Ecdsa { coord_len, .. } => raw_to_der(raw.as_slice(), coord_len),
    }
}

/// What a signer reports: any failure of the store or of the encoding is a failed
/// signing operation.
pub fn signer_result(r: Result<Vec<u8>, CredError>) -> (s: Result<Vec<u8>, SignerError>)
    ensures
        match r {
            Ok(v) => s == Ok::<Vec<u8>, SignerError>(v),
            Err(_) => s == Err::<Vec<u8>, SignerError>(SignerError::SigningFailed),
        },
{
    match r {
        Ok(v) => Ok(v),
        Err(_) => Err(SignerError::SigningFailed),
    }
}

/// The thumbprint that is published for a certificate: its SHA-256 digest in
/// uppercase hexadecimal.
pub fn thumbprint_text(cert_der: &[u8]) -> (t: String)
    ensures
        t@ == crate::text::upper_hex_text(crate::fips_tls::mac::sha256_of(cert_der@)),
        t@.len() == 64,
{
    let digest: Vec<u8> = sha256(cert_der);
    let mut t: String = String::new();
    append_upper_hex(&mut t, digest.as_slice());
    assert(t@ =~= crate::text::upper_hex_text(digest@));
    t
}

/// What the key store signs is the digest whose hash the scheme names: SHA-256 for P-256
/// and RSA-PSS, SHA-384 for P-384. For any other scheme there is none.
pub proof fn law_signed_digest_is_the_schemes(
    key: CertKey,
    message: &[u8],
    r: Result<Vec<u8>, CredError>,
    scheme: SignatureScheme,
)
    requires
        call_ensures(signing_digest, (key, message), r),
        call_ensures(CertKey::scheme, (key,), scheme),
    ensures
        scheme is ECDSA_NISTP256_SHA256 || scheme is RSA_PSS_SHA256 ==> (r matches Ok(d) && d@
            == crate::fips_tls::mac::sha256_of(message@)),
        scheme is ECDSA_NISTP384_SHA384 ==> (r matches Ok(d) && d@
            == crate::fips_tls::mac::sha384_of(message@)),
        r is Err <==> !(scheme is ECDSA_NISTP256_SHA256 || scheme is RSA_PSS_SHA256
            || scheme is ECDSA_NISTP384_SHA384),
        r matches Err(e) ==> e == CredError::UnsupportedKey,
{
}

/// Every key that a certificate may have can be signed with.
pub proof fn law_accepted_keys_can_sign(
    facts: crate::creds::keyinfo::KeyFacts,
    key: CertKey,
    message: &[u8],
    r: Result<Vec<u8>, CredError>,
)
    requires
        call_ensures(
            crate::creds::keyinfo::scheme_for_key,
            (&facts,),
            Ok::<CertKey, CredError>(key),
        ),
        call_ensures(signing_digest, (key, message), r),
    ensures
        r is Ok,
{
}

/// A signature of RSA-PSS goes out as the store gave it. One of ECDSA must be two
/// coordinates of 32 or of 48 octets, and its DER form holds the same two numbers.
pub proof fn law_finished_signature_keeps_its_numbers(
    key: CertKey,
    raw: Vec<u8>,
    r: Result<Vec<u8>, CredError>,
)
    requires
        call_ensures(finish_signature, (key, raw), r),
    ensures
        key is RsaPss ==> (r matches Ok(v) && v@ == raw@),
        key matches CertKey::Ecdsa { coord_len, .. } ==> {
            &&& r is Ok <==> (coord_len == 32 || coord_len == 48) && raw@.len() == 2 * coord_len
            &&& r matches Ok(der) ==> crate::creds::ecdsa::signature_numbers(der@) == Some(
                (
                    crate::creds::ecdsa::octets_value(raw@.take(coord_len as int)),
                    crate::creds::ecdsa::octets_value(raw@.skip(coord_len as int)),
                ),
            )
            &&& r matches Err(e) ==> e == CredError::BadSignature
        },
{
    if let CertKey::Ecdsa { coord_len, .. } = key {
        if r is Ok {
            crate::creds::ecdsa::law_der_keeps_both_numbers(
                raw@.take(coord_len as int),
                raw@.skip(coord_len as int),
            );
        }
    }
}

/// A signer reports a signature as it is, and every failure as one and the same.
pub proof fn law_signer_reports_no_details(
    r: Result<Vec<u8>, CredError>,
    s: Result<Vec<u8>, SignerError>,
)
    requires
        call_ensures(signer_result, (r,), s),
    ensures
        r matches Ok(v) ==> (s matches Ok(w) && v == w),
        r is Err ==> (s matches Err(e) && e is SigningFailed),
{
}

/// The published thumbprint is the certificate's digest in uppercase hexadecimal: read
/// back, its 64 digits are the 32 octets.
pub proof fn law_thumbprint_reads_back(der: &[u8], t: String)
    requires
        call_ensures(thumbprint_text, (der,), t),
    ensures
        t@.len() == 64,
        crate::text::hex_octets(t@) == crate::fips_tls::mac::sha256_of(der@),
        forall|i: int| 0 <= i < t@.len() ==> '0' <= #[trigger] t@[i] <= '9' || 'A' <= t@[i] <= 'F',
{
    crate::text::law_uppercase_hexadecimal_round_trips(crate::fips_tls::mac::sha256_of(der@));
}

} // verus!
