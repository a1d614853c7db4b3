//! What a certificate's public key signs with, from its algorithm and named
//! curve.
//!
//! Two key families are supported: ECDSA on P-256 or P-384, signed raw and
//! re-encoded to DER, and RSA of at least 2048 bits, signed RSA-PSS, the only RSA
//! signature that TLS 1.3 permits.
use crate::creds::ecdsa::{P256_COORD_LEN, P384_COORD_LEN};
use crate::creds::error::CredError;
use crate::fips_tls::signer::SignatureScheme;
use crate::text::same_text;
use vstd::prelude::*;
use x509_parser::prelude::FromDer;

verus! {

/// Smallest approved RSA modulus, in bits.
pub const RSA_MIN_BITS: usize = 2048;

/// The signature shape of a certificate's key: the TLS 1.3 scheme to advertise
/// and what the signer needs to encode the result.
#[derive(Debug, Clone, Copy, PartialEq, Eq, Structural)]
pub enum CertKey {
    /// ECDSA on an approved curve.
    Ecdsa {
        /// The TLS 1.3 signature scheme.
        scheme: SignatureScheme,
        /// Octets of one coordinate.
        coord_len: usize,
    },
    /// RSA, signed RSA-PSS; the store's signature is final.
    RsaPss {
        /// The TLS 1.3 signature scheme.
        scheme: SignatureScheme,
        /// Octets of the hash, and of the salt.
        digest_len: usize,
    },
}

impl CertKey {
    /// The scheme to advertise.
    pub open spec fn advertised(self) -> SignatureScheme {
        match self {
            CertKey::Ecdsa { scheme, .. } => scheme,
            CertKey::RsaPss { scheme, .. } => scheme,
        }
    }

    /// The TLS 1.3 signature scheme to advertise for this key.
    pub fn scheme(self) -> (s: SignatureScheme)
        ensures
            s == self.advertised(),
    {
        match self {
            CertKey::Ecdsa { scheme, .. } => scheme,
            CertKey::RsaPss { scheme, .. } => scheme,
        }
    }
}

/// What a certificate says of its public key.
#[derive(Debug, Clone, PartialEq, Eq)]
pub struct KeyFacts {
    /// The key algorithm's object identifier, in dotted form.
    pub algorithm: String,
    /// The modulus size in bits, of an RSA key that could be parsed.
    pub rsa_bits: Option<usize>,
    /// The named curve's object identifier, in dotted form, where the algorithm's
    /// parameter is one.
    pub curve: Option<String>,
}

impl KeyFacts {
    /// The facts as mathematical values: algorithm, modulus bits, curve.
    pub open spec fn values(self) -> (Seq<char>, Option<usize>, Option<Seq<char>>) {
        (
            self.algorithm@,
            self.rsa_bits,
            match self.curve {
                Some(c) => Some(c@),
                None => None,
            },
        )
    }
}

/// What `x509_parser` reads of a certificate's public key: nothing if the bytes
/// are not an X.509 certificate, otherwise the algorithm, the modulus bits and
/// the curve.
pub uninterp spec fn certificate_key(der: Seq<u8>) -> Option<
    (Seq<char>, Option<usize>, Option<Seq<char>>),
>;

/// `X509Certificate::from_der`, and of the key found: the algorithm's
/// `to_id_string`, `RSAPublicKey::key_size` where `SubjectPublicKeyInfo::parsed`
/// gives an RSA key, and the parameter's `as_oid`. The bytes alone decide all of
/// it.
#[verifier::external_body]
fn read_key(der: &[u8]) -> (r: Option<KeyFacts>)
    ensures
        match r {
            Some(k) => certificate_key(der@) == Some(k.values()),
            None => certificate_key(der@) is None,
        },
{
    let (_, cert) = x509_parser::certificate::X509Certificate::from_der(der).ok()?;
    let spki = cert.public_key();
    let rsa_bits = match spki.parsed() {
        Ok(x509_parser::public_key::PublicKey::RSA(rsa)) => Some(rsa.key_size()),
        _ => None,
    };
    let parameter = spki.algorithm.parameters.as_ref().and_then(|p| p.as_oid().ok());
    Some(KeyFacts {
        algorithm: spki.algorithm.algorithm.to_id_string(),
        rsa_bits,
        curve: parameter.map(|oid| oid.to_id_string()),
    })
}

/// What a key signs with: RSA of at least 2048 bits with RSA-PSS and SHA-256,
/// ECDSA on P-256 with SHA-256, ECDSA on P-384 with SHA-384, nothing else.
pub open spec fn key_shape(
    algorithm: Seq<char>,
    rsa_bits: Option<usize>,
    curve: Option<Seq<char>>,
) -> Result<CertKey, CredError> {
    if algorithm == "1.2.840.113549.1.1.1"@ {
        match rsa_bits {
            Some(bits) => if bits >= RSA_MIN_BITS {
                Ok(CertKey::RsaPss { scheme: SignatureScheme::RSA_PSS_SHA256, digest_len: 32 })
            } else {
                Err(CredError::UnsupportedKey)
            },
            None => Err(CredError::UnsupportedKey),
        }
    } else if algorithm == "1.2.840.10045.2.1"@ {
        match curve {
            Some(c) => if c == "1.2.840.10045.3.1.7"@ {
                Ok(
                    CertKey::Ecdsa {
                        scheme: SignatureScheme::ECDSA_NISTP256_SHA256,
                        coord_len: P256_COORD_LEN,
                    },
                )
            } else if c == "1.3.132.0.34"@ {
                Ok(
                    CertKey::Ecdsa {
                        scheme: SignatureScheme::ECDSA_NISTP384_SHA384,
                        coord_len: P384_COORD_LEN,
                    },
                )
            } else {
                Err(CredError::UnsupportedKey)
            },
            None => Err(CredError::UnsupportedKey),
        }
    } else {
        Err(CredError::UnsupportedKey)
    }
}

/// The signature shape of a key.
pub fn scheme_for_key(key: &KeyFacts) -> (r: Result<CertKey, CredError>)
    ensures
        r == key_shape(key.values().0, key.values().1, key.values().2),
{
    // rsaEncryption
    if same_text(key.algorithm.as_str(), "1.2.840.113549.1.1.1") {
        // A key whose size cannot be determined is refused too.
        let bits: usize = match key.rsa_bits {
            Some(bits) => bits,
            None => {
                return Err(CredError::UnsupportedKey);
            },
        };
        if bits < RSA_MIN_BITS {
            return Err(CredError::UnsupportedKey);
        }
        return Ok(CertKey::RsaPss { scheme: SignatureScheme::RSA_PSS_SHA256, digest_len: 32 });
    }
    // id-ecPublicKey

    if !same_text(key.algorithm.as_str(), "1.2.840.10045.2.1") {
        return Err(CredError::UnsupportedKey);
    }
    match &key.curve {
        None => Err(CredError::UnsupportedKey),
        Some(curve) => {
            // secp256r1, secp384r1
            if same_text(curve.as_str(), "1.2.840.10045.3.1.7") {
                Ok(
                    CertKey::Ecdsa {
                        scheme: SignatureScheme::ECDSA_NISTP256_SHA256,
                        coord_len: P256_COORD_LEN,
                    },
                )
            } else if same_text(curve.as_str(), "1.3.132.0.34") {
                Ok(
                    CertKey::Ecdsa {
                        scheme: SignatureScheme::ECDSA_NISTP384_SHA384,
                        coord_len: P384_COORD_LEN,
                    },
                )
            } else {
                Err(CredError::UnsupportedKey)
            }
        },
    }
}

/// What a certificate's key signs with.
pub open spec fn certificate_shape(der: Seq<u8>) -> Result<CertKey, CredError> {
    match certificate_key(der) {
        None => Err(CredError::BadCertificate),
        Some((algorithm, rsa_bits, curve)) => key_shape(algorithm, rsa_bits, curve),
    }
}

/// The signature shape of a certificate's key: a bad certificate if the bytes are
/// not X.509, an unsupported key if it is neither ECDSA on P-256 or P-384 nor RSA
/// of at least 2048 bits.
pub fn scheme_for_cert(cert_der: &[u8]) -> (r: Result<CertKey, CredError>)
    ensures
        r == certificate_shape(cert_der@),
{
    match read_key(cert_der) {
        None => Err(CredError::BadCertificate),
        Some(key) => scheme_for_key(&key),
    }
}

/// Every accepted key has one of three shapes, and a coordinate length that the
/// signature encoder accepts.
pub proof fn law_accepted_shapes(
    algorithm: Seq<char>,
    rsa_bits: Option<usize>,
    curve: Option<Seq<char>>,
)
    ensures
        key_shape(algorithm, rsa_bits, curve) matches Ok(shape) ==> {
            ||| shape == (CertKey::Ecdsa {
                scheme: SignatureScheme::ECDSA_NISTP256_SHA256,
                coord_len: P256_COORD_LEN,
            })
            ||| shape == (CertKey::Ecdsa {
                scheme: SignatureScheme::ECDSA_NISTP384_SHA384,
                coord_len: P384_COORD_LEN,
            })
            ||| shape == (CertKey::RsaPss {
                scheme: SignatureScheme::RSA_PSS_SHA256,
                digest_len: 32,
            }) && rsa_bits is Some && rsa_bits->0 >= RSA_MIN_BITS
        },
        key_shape(algorithm, rsa_bits, curve) matches Err(e) ==> e == CredError::UnsupportedKey,
{
}

/// An RSA key is accepted exactly if its modulus is known and has 2048 bits or more, and
/// signs RSA-PSS with SHA-256; its curve does not matter.
pub proof fn law_rsa_keys_need_their_size(key: KeyFacts, r: Result<CertKey, CredError>)
    requires
        call_ensures(scheme_for_key, (&key,), r),
        key.algorithm@ == "1.2.840.113549.1.1.1"@,
    ensures
        r is Ok <==> (key.rsa_bits matches Some(bits) && bits >= 2048),
        r matches Ok(k) ==> k == (CertKey::RsaPss {
            scheme: SignatureScheme::RSA_PSS_SHA256,
            digest_len: 32,
        }),
        r matches Err(e) ==> e == CredError::UnsupportedKey,
{
}

/// An elliptic-curve key is accepted exactly on P-256, with SHA-256 and coordinates of 32
/// octets, and on P-384, with SHA-384 and coordinates of 48; a modulus does not matter.
pub proof fn law_curve_keys_need_an_approved_curve(key: KeyFacts, r: Result<CertKey, CredError>)
    requires
        call_ensures(scheme_for_key, (&key,), r),
        key.algorithm@ == "1.2.840.10045.2.1"@,
    ensures
        (key.curve matches Some(c) && c@ == "1.2.840.10045.3.1.7"@) <==> r == Ok::<
            CertKey,
            CredError,
        >(
            CertKey::Ecdsa {
                scheme: SignatureScheme::ECDSA_NISTP256_SHA256,
                coord_len: 32,
            },
        ),
        (key.curve matches Some(c) && c@ == "1.3.132.0.34"@) <==> r == Ok::<CertKey, CredError>(
            CertKey::Ecdsa {
                scheme: SignatureScheme::ECDSA_NISTP384_SHA384,
                coord_len: 48,
            },
        ),
        r is Ok ==> (key.curve matches Some(c) && (c@ == "1.2.840.10045.3.1.7"@ || c@
            == "1.3.132.0.34"@)),
        r matches Err(e) ==> e == CredError::UnsupportedKey,
{
    reveal_strlit("1.2.840.113549.1.1.1");
    reveal_strlit("1.2.840.10045.2.1");
    reveal_strlit("1.2.840.10045.3.1.7");
    reveal_strlit("1.3.132.0.34");
    assert("1.2.840.113549.1.1.1"@.len() == 20);
    assert("1.2.840.10045.2.1"@.len() == 17);
    assert("1.2.840.10045.3.1.7"@.len() == 19);
    assert("1.3.132.0.34"@.len() == 12);
}

/// A key of any other algorithm is not supported.
pub proof fn law_other_keys_are_refused(key: KeyFacts, r: Result<CertKey, CredError>)
    requires
        call_ensures(scheme_for_key, (&key,), r),
        key.algorithm@ != "1.2.840.113549.1.1.1"@,
        key.algorithm@ != "1.2.840.10045.2.1"@,
    ensures
        r == Err::<CertKey, CredError>(CredError::UnsupportedKey),
{
}

/// A certificate is as good as its key: octets that are no certificate are bad, and a
/// certificate signs with what its key signs with.
pub proof fn law_certificate_signs_with_its_key(
    der: &[u8],
    r: Result<CertKey, CredError>,
    key: KeyFacts,
    k: Result<CertKey, CredError>,
)
    requires
        call_ensures(scheme_for_cert, (der,), r),
        call_ensures(scheme_for_key, (&key,), k),
    ensures
        certificate_key(der@) is None <==> r == Err::<CertKey, CredError>(CredError::BadCertificate),
        certificate_key(der@) == Some(key.values()) ==> r == k,
{
}

/// The scheme that is advertised is the scheme of the shape.
pub proof fn law_advertised_scheme_is_the_shapes(k: CertKey, s: SignatureScheme)
    requires
        call_ensures(CertKey::scheme, (k,), s),
    ensures
        k matches CertKey::Ecdsa { scheme, .. } ==> s == scheme,
        k matches CertKey::RsaPss { scheme, .. } ==> s == scheme,
{
}

} // verus!
