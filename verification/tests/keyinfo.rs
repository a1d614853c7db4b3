//! Signature-shape detection from the certificate's public key (ECDSA curve or
//! RSA).
use rcgen::{
    CertificateParams, KeyPair, PKCS_ECDSA_P256_SHA256, PKCS_ECDSA_P384_SHA384, PKCS_RSA_SHA256,
};
use usg_supplicant::creds::error::CredError;
use usg_supplicant::creds::keyinfo::{scheme_for_cert, scheme_for_key, CertKey, KeyFacts};
use usg_supplicant::fips_tls::signer::SignatureScheme;

fn self_signed(alg: &'static rcgen::SignatureAlgorithm) -> Vec<u8> {
    let key = KeyPair::generate_for(alg).unwrap();
    let params = CertificateParams::new(vec!["x".to_string()]).unwrap();
    params.self_signed(&key).unwrap().der().to_vec()
}

fn der(tag: u8, content: &[u8]) -> Vec<u8> {
    let mut out = vec![tag];
    if content.len() < 0x80 {
        out.push(content.len() as u8);
    } else {
        out.push(0x82);
        out.push((content.len() / 256) as u8);
        out.push((content.len() % 256) as u8);
    }
    out.extend_from_slice(content);
    out
}

fn joined(parts: &[Vec<u8>]) -> Vec<u8> {
    parts.concat()
}

/// A certificate around an RSA key with a modulus of `bits` bits; the signature
/// octets are arbitrary.
fn rsa_cert(bits: usize) -> Vec<u8> {
    let mut modulus = vec![0x00u8, 0xC1];
    modulus.extend(vec![0x5Bu8; bits / 8 - 1]);
    let key = der(
        0x30,
        &joined(&[der(0x02, &modulus), der(0x02, &[0x01, 0x00, 0x01])]),
    );
    let mut key_bits = vec![0x00u8];
    key_bits.extend(key);
    let rsa_oid = [0x2A, 0x86, 0x48, 0x86, 0xF7, 0x0D, 0x01, 0x01, 0x01];
    let sig_oid = [0x2A, 0x86, 0x48, 0x86, 0xF7, 0x0D, 0x01, 0x01, 0x0B];
    let sig_alg = der(0x30, &joined(&[der(0x06, &sig_oid), der(0x05, &[])]));
    let spki = der(
        0x30,
        &joined(&[
            der(0x30, &joined(&[der(0x06, &rsa_oid), der(0x05, &[])])),
            der(0x03, &key_bits),
        ]),
    );
    let name = der(
        0x30,
        &der(
            0x31,
            &der(
                0x30,
                &joined(&[der(0x06, &[0x55, 0x04, 0x03]), der(0x0C, b"rsa")]),
            ),
        ),
    );
    let validity = der(
        0x30,
        &joined(&[der(0x17, b"250101000000Z"), der(0x17, b"350101000000Z")]),
    );
    let tbs = der(
        0x30,
        &joined(&[
            der(0xA0, &der(0x02, &[0x02])),
            der(0x02, &[0x01]),
            sig_alg.clone(),
            name.clone(),
            validity,
            name,
            spki,
        ]),
    );
    let mut signature = vec![0x00u8];
    signature.extend(vec![0x11u8; bits / 8]);
    der(0x30, &joined(&[tbs, sig_alg, der(0x03, &signature)]))
}

#[test]
fn detects_p256() {
    let der = self_signed(&PKCS_ECDSA_P256_SHA256);
    assert_eq!(
        scheme_for_cert(&der).unwrap(),
        CertKey::Ecdsa {
            scheme: SignatureScheme::ECDSA_NISTP256_SHA256,
            coord_len: 32,
        }
    );
}

#[test]
fn detects_p384() {
    let der = self_signed(&PKCS_ECDSA_P384_SHA384);
    assert_eq!(
        scheme_for_cert(&der).unwrap(),
        CertKey::Ecdsa {
            scheme: SignatureScheme::ECDSA_NISTP384_SHA384,
            coord_len: 48,
        }
    );
}

#[test]
fn detects_rsa_as_pss() {
    // An RSA key (the common CAC/PIV case) advertises RSA-PSS with SHA-256.
    let expected = CertKey::RsaPss {
        scheme: SignatureScheme::RSA_PSS_SHA256,
        digest_len: 32,
    };
    assert_eq!(scheme_for_cert(&self_signed(&PKCS_RSA_SHA256)).unwrap(), expected);
    assert_eq!(scheme_for_cert(&rsa_cert(2048)).unwrap(), expected);
    assert_eq!(scheme_for_cert(&rsa_cert(4096)).unwrap(), expected);
}

#[test]
fn rejects_rsa_below_2048() {
    // RSA must be at least 2048 bits; a 1024-bit key fails closed.
    assert_eq!(
        scheme_for_cert(&rsa_cert(1024)),
        Err(CredError::UnsupportedKey)
    );
}

#[test]
fn rejects_unsupported_key() {
    // Ed25519 is neither ECDSA P-256/P-384 nor RSA.
    let der = self_signed(&rcgen::PKCS_ED25519);
    assert_eq!(scheme_for_cert(&der), Err(CredError::UnsupportedKey));
}

#[test]
fn bytes_that_are_no_certificate_are_a_bad_certificate() {
    assert_eq!(scheme_for_cert(&[]), Err(CredError::BadCertificate));
    assert_eq!(scheme_for_cert(b"not a certificate"), Err(CredError::BadCertificate));
}

#[test]
fn key_facts_decide_the_shape() {
    let facts = |algorithm: &str, rsa_bits: Option<usize>, curve: Option<&str>| KeyFacts {
        algorithm: algorithm.to_string(),
        rsa_bits,
        curve: curve.map(str::to_string),
    };
    let rsa = "1.2.840.113549.1.1.1";
    let ec = "1.2.840.10045.2.1";
    assert!(scheme_for_key(&facts(rsa, Some(2048), None)).is_ok());
    assert_eq!(
        scheme_for_key(&facts(rsa, Some(2047), None)),
        Err(CredError::UnsupportedKey)
    );
    assert_eq!(
        scheme_for_key(&facts(rsa, None, None)),
        Err(CredError::UnsupportedKey)
    );
    assert_eq!(
        scheme_for_key(&facts(ec, None, Some("1.3.132.0.34"))).unwrap().scheme(),
        SignatureScheme::ECDSA_NISTP384_SHA384
    );
    assert_eq!(
        scheme_for_key(&facts(ec, None, Some("1.3.132.0.35"))),
        Err(CredError::UnsupportedKey)
    );
    assert_eq!(
        scheme_for_key(&facts(ec, None, None)),
        Err(CredError::UnsupportedKey)
    );
}
