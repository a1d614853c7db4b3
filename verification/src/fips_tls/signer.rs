//! The signing seam for keys that never leave their store.
use crate::text::{lemma_contains_at, stands, text_contains};
use vstd::prelude::*;

verus! {

/// A TLS signature scheme.
#[allow(non_camel_case_types)]
#[derive(Debug, Clone, Copy, PartialEq, Eq, Structural)]
pub enum SignatureScheme {
    RSA_PKCS1_SHA256,
    RSA_PKCS1_SHA384,
    RSA_PKCS1_SHA512,
    ECDSA_NISTP256_SHA256,
    ECDSA_NISTP384_SHA384,
    ECDSA_NISTP521_SHA512,
    RSA_PSS_SHA256,
    RSA_PSS_SHA384,
    RSA_PSS_SHA512,
    ED25519,
    /// Any other scheme, by its codepoint.
    Unknown(u16),
}

impl SignatureScheme {
    /// The scheme of a TLS codepoint.
    pub open spec fn of_code(code: u16) -> SignatureScheme {
        match code {
            0x0401 => SignatureScheme::RSA_PKCS1_SHA256,
            0x0501 => SignatureScheme::RSA_PKCS1_SHA384,
            0x0601 => SignatureScheme::RSA_PKCS1_SHA512,
            0x0403 => SignatureScheme::ECDSA_NISTP256_SHA256,
            0x0503 => SignatureScheme::ECDSA_NISTP384_SHA384,
            0x0603 => SignatureScheme::ECDSA_NISTP521_SHA512,
            0x0804 => SignatureScheme::RSA_PSS_SHA256,
            0x0805 => SignatureScheme::RSA_PSS_SHA384,
            0x0806 => SignatureScheme::RSA_PSS_SHA512,
            0x0807 => SignatureScheme::ED25519,
            _ => SignatureScheme::Unknown(code),
        }
    }

    /// The scheme's TLS codepoint.
    pub fn code(&self) -> (code: u16)
        ensures
            !(*self is Unknown) ==> SignatureScheme::of_code(code) == *self,
            *self matches SignatureScheme::Unknown(n) ==> code == n,
    {
        match self {
            SignatureScheme::RSA_PKCS1_SHA256 => 0x0401,
            SignatureScheme::RSA_PKCS1_SHA384 => 0x0501,
            SignatureScheme::RSA_PKCS1_SHA512 => 0x0601,
            SignatureScheme::ECDSA_NISTP256_SHA256 => 0x0403,
            SignatureScheme::ECDSA_NISTP384_SHA384 => 0x0503,
            SignatureScheme::ECDSA_NISTP521_SHA512 => 0x0603,
            SignatureScheme::RSA_PSS_SHA256 => 0x0804,
            SignatureScheme::RSA_PSS_SHA384 => 0x0805,
            SignatureScheme::RSA_PSS_SHA512 => 0x0806,
            SignatureScheme::ED25519 => 0x0807,
            SignatureScheme::Unknown(n) => *n,
        }
    }

    /// The scheme of a TLS codepoint.
    pub fn from_code(code: u16) -> (s: SignatureScheme)
        ensures
            s == SignatureScheme::of_code(code),
    {
        match code {
            0x0401 => SignatureScheme::RSA_PKCS1_SHA256,
            0x0501 => SignatureScheme::RSA_PKCS1_SHA384,
            0x0601 => SignatureScheme::RSA_PKCS1_SHA512,
            0x0403 => SignatureScheme::ECDSA_NISTP256_SHA256,
            0x0503 => SignatureScheme::ECDSA_NISTP384_SHA384,
            0x0603 => SignatureScheme::ECDSA_NISTP521_SHA512,
            0x0804 => SignatureScheme::RSA_PSS_SHA256,
            0x0805 => SignatureScheme::RSA_PSS_SHA384,
            0x0806 => SignatureScheme::RSA_PSS_SHA512,
            0x0807 => SignatureScheme::ED25519,
            _ => SignatureScheme::Unknown(code),
        }
    }
}

/// Error from a remote signing operation.
#[derive(Debug, Clone, Copy, PartialEq, Eq, Structural)]
pub enum SignerError {
    /// The key store refused or failed the operation.
    SigningFailed,
    /// The requested scheme is not supported by this key.
    UnsupportedScheme,
}

impl SignerError {
    /// What the error says, in words.
    pub fn message(&self) -> (t: String)
        ensures
            t@ == (match *self {
                SignerError::SigningFailed => "remote signing operation failed"@,
                SignerError::UnsupportedScheme => "signature scheme not supported by this key"@,
            }),
    {
        match self {
            SignerError::SigningFailed => "remote signing operation failed".to_owned(),
            SignerError::UnsupportedScheme => "signature scheme not supported by this key".to_owned(),
        }
    }
}

/// A private key held in a non-exportable store, used for TLS client
/// authentication.
pub trait RemoteSigner: Send + Sync {
    /// The certificate chain (DER, leaf first) presented to the server.
    fn cert_chain(&self) -> Vec<Vec<u8>>;

    /// The one signature scheme that this key supports.
    fn scheme(&self) -> SignatureScheme;

    /// Sign `message` inside the key store, in the encoding that TLS expects: a
    /// DER `SEQUENCE` for ECDSA, the RSA-PSS octet string for RSA.
    fn sign(&self, message: &[u8]) -> Result<Vec<u8>, SignerError>;
}

/// A scheme and its codepoint name each other: reading back a codepoint gives the scheme
/// it came from, and every codepoint comes back.
pub proof fn law_codepoints_round_trip(
    s: SignatureScheme,
    code: u16,
    back: SignatureScheme,
    n: u16,
    of: SignatureScheme,
    again: u16,
)
    requires
        call_ensures(SignatureScheme::code, (&s,), code),
        call_ensures(SignatureScheme::from_code, (code,), back),
        call_ensures(SignatureScheme::from_code, (n,), of),
        call_ensures(SignatureScheme::code, (&of,), again),
    ensures
        !(s is Unknown) ==> back == s,
        again == n,
{
}

/// The schemes that keys of this library sign with have the codepoints 0x0403 (P-256 with
/// SHA-256), 0x0503 (P-384 with SHA-384) and 0x0804 (RSA-PSS with SHA-256). The low octet of
/// a codepoint tells ECDSA, RSA of the older padding and RSA-PSS apart.
pub proof fn law_codepoints_are_those_of_tls(s: SignatureScheme, code: u16)
    requires
        call_ensures(SignatureScheme::code, (&s,), code),
    ensures
        s is ECDSA_NISTP256_SHA256 ==> code == 0x0403,
        s is ECDSA_NISTP384_SHA384 ==> code == 0x0503,
        s is ECDSA_NISTP521_SHA512 ==> code == 0x0603,
        s is RSA_PKCS1_SHA256 ==> code == 0x0401,
        s is RSA_PKCS1_SHA384 ==> code == 0x0501,
        s is RSA_PKCS1_SHA512 ==> code == 0x0601,
        s is RSA_PSS_SHA256 ==> code == 0x0804,
        s is RSA_PSS_SHA384 ==> code == 0x0805,
        s is RSA_PSS_SHA512 ==> code == 0x0806,
        s is ED25519 ==> code == 0x0807,
{
}

/// Each message names what went wrong.
pub proof fn law_signer_messages_name_the_failure(e: SignerError, t: String)
    requires
        call_ensures(SignerError::message, (&e,), t),
    ensures
        e is SigningFailed ==> text_contains(t@, "operation failed"@),
        e is UnsupportedScheme ==> text_contains(t@, "not supported"@),
{
    match e {
        SignerError::SigningFailed => {
            reveal_strlit("remote signing operation failed");
            reveal_strlit("operation failed");
            assert(stands("remote signing operation failed"@, 15, "operation failed"@, 16)) by {
                reveal_with_fuel(stands, 17);
            }
            lemma_contains_at("remote signing operation failed"@, 15, "operation failed"@);
        },
        SignerError::UnsupportedScheme => {
            reveal_strlit("signature scheme not supported by this key");
            reveal_strlit("not supported");
            assert(stands("signature scheme not supported by this key"@, 17, "not supported"@, 13)) by {
                reveal_with_fuel(stands, 14);
            }
            lemma_contains_at("signature scheme not supported by this key"@, 17, "not supported"@);
        },
    }
}

} // verus!
