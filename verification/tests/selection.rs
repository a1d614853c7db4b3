//! Certificate selection: pick the Client-Auth certificate among several, by key
//! usage and thumbprint, failing closed on none and on several.
use rcgen::{CertificateParams, DistinguishedName, DnType, ExtendedKeyUsagePurpose, KeyPair};
use usg_supplicant::creds::adapter::{is_offered, scheme_algorithm, SignatureAlgorithm};
use usg_supplicant::creds::cng::{
    finish_signature, signer_result, signing_digest, thumbprint_text,
};
use usg_supplicant::creds::error::CredError;
use usg_supplicant::creds::keyinfo::CertKey;
use usg_supplicant::creds::selection::{pick, thumbprint_sha256, CertSelector, HolderFacts};
use usg_supplicant::fips_tls::signer::{SignatureScheme, SignerError};
use usg_supplicant::kat::{from_hex, to_hex};

fn cert_with_eku(name: &str, eku: ExtendedKeyUsagePurpose) -> Vec<u8> {
    let key = KeyPair::generate().unwrap();
    let mut params = CertificateParams::new(vec![name.to_string()]).unwrap();
    params.extended_key_usages = vec![eku];
    let mut dn = DistinguishedName::new();
    dn.push(DnType::CommonName, name);
    params.distinguished_name = dn;
    params.self_signed(&key).unwrap().der().to_vec()
}

#[test]
fn selects_the_client_auth_cert_among_several() {
    let auth = cert_with_eku("piv-auth", ExtendedKeyUsagePurpose::ClientAuth);
    let signing = cert_with_eku("piv-sign", ExtendedKeyUsagePurpose::EmailProtection);
    let server = cert_with_eku("srv", ExtendedKeyUsagePurpose::ServerAuth);
    let certs = vec![signing, auth.clone(), server];

    let selector = CertSelector {
        require_client_auth_eku: true,
        ..Default::default()
    };
    let picked = selector.select(&certs).unwrap();
    assert_eq!(*picked, auth);
    assert_eq!(selector.select_index(&certs), Ok(1));
}

#[test]
fn thumbprint_selects_exactly_one() {
    let a = cert_with_eku("a", ExtendedKeyUsagePurpose::ClientAuth);
    let b = cert_with_eku("b", ExtendedKeyUsagePurpose::ClientAuth);
    let want = thumbprint_sha256(&b);
    let certs = vec![a, b.clone()];

    let selector = CertSelector {
        thumbprint_sha256: Some(want),
        ..Default::default()
    };
    assert_eq!(*selector.select(&certs).unwrap(), b);
}

#[test]
fn no_match_fails_closed() {
    let server = cert_with_eku("srv", ExtendedKeyUsagePurpose::ServerAuth);
    let selector = CertSelector {
        require_client_auth_eku: true,
        ..Default::default()
    };
    assert_eq!(selector.select(&vec![server]), Err(CredError::NoMatchingCert));
}

#[test]
fn ambiguous_match_fails_closed() {
    let a = cert_with_eku("a", ExtendedKeyUsagePurpose::ClientAuth);
    let b = cert_with_eku("b", ExtendedKeyUsagePurpose::ClientAuth);
    let selector = CertSelector {
        require_client_auth_eku: true,
        ..Default::default()
    };
    assert!(matches!(
        selector.select(&vec![a, b]),
        Err(CredError::AmbiguousMatch { count: 2 })
    ));
}

#[test]
fn subject_substring_narrows_selection() {
    let auth1 = cert_with_eku("piv-auth-alice", ExtendedKeyUsagePurpose::ClientAuth);
    let auth2 = cert_with_eku("piv-auth-bob", ExtendedKeyUsagePurpose::ClientAuth);
    let selector = CertSelector {
        require_client_auth_eku: true,
        subject_contains: Some("alice".to_string()),
        ..Default::default()
    };
    assert_eq!(*selector.select(&vec![auth1.clone(), auth2]).unwrap(), auth1);
}

#[test]
fn issuer_substring_is_looked_for_in_the_issuer() {
    let cert = cert_with_eku("piv-auth-carol", ExtendedKeyUsagePurpose::ClientAuth);
    let by_issuer = |part: &str| CertSelector {
        issuer_contains: Some(part.to_string()),
        ..Default::default()
    };
    assert_eq!(by_issuer("CN=piv-auth").matches(&cert), Ok(true));
    assert_eq!(by_issuer("PIV").matches(&cert), Ok(false));
}

#[test]
fn bad_certificate_only_where_contents_are_needed() {
    let junk = vec![1u8, 2, 3];
    assert_eq!(CertSelector::default().matches(&junk), Ok(true));
    let needs = CertSelector {
        require_client_auth_eku: true,
        ..Default::default()
    };
    assert_eq!(needs.matches(&junk), Err(CredError::BadCertificate));
    // A pinned thumbprint that differs is decided before the contents.
    let pinned = CertSelector {
        thumbprint_sha256: Some([0u8; 32]),
        require_client_auth_eku: true,
        ..Default::default()
    };
    assert_eq!(pinned.matches(&junk), Ok(false));
    assert_eq!(needs.select(&vec![junk]), Err(CredError::BadCertificate));
}

#[test]
fn picking_is_by_the_flags_alone() {
    assert_eq!(pick(&vec![]), Err(CredError::NoMatchingCert));
    assert_eq!(pick(&vec![false, true, false]), Ok(1));
    assert_eq!(
        pick(&vec![true, false, true, true]),
        Err(CredError::AmbiguousMatch { count: 3 })
    );
}

#[test]
fn holder_criteria_combine() {
    let holder = HolderFacts {
        client_auth: true,
        subject: "CN=alice, O=usg".to_string(),
        issuer: "CN=root".to_string(),
    };
    let selector = CertSelector {
        require_client_auth_eku: true,
        subject_contains: Some("alice".to_string()),
        issuer_contains: Some("root".to_string()),
        ..Default::default()
    };
    assert!(selector.holder_matches(&holder));
    let no_usage = HolderFacts { client_auth: false, ..holder.clone() };
    assert!(!selector.holder_matches(&no_usage));
    let other_issuer = HolderFacts { issuer: "CN=other".to_string(), ..holder };
    assert!(!selector.holder_matches(&other_issuer));
}

#[test]
fn thumbprints_are_sha256() {
    let digest = "ba7816bf8f01cfea414140de5dae2223b00361a396177a9cb410ff61f20015ad";
    assert_eq!(to_hex(&thumbprint_sha256(b"abc")), digest);
    assert_eq!(thumbprint_text(b"abc"), digest.to_uppercase());
}

#[test]
fn signing_digests_follow_the_scheme() {
    let p256 = CertKey::Ecdsa { scheme: SignatureScheme::ECDSA_NISTP256_SHA256, coord_len: 32 };
    let p384 = CertKey::Ecdsa { scheme: SignatureScheme::ECDSA_NISTP384_SHA384, coord_len: 48 };
    let rsa = CertKey::RsaPss { scheme: SignatureScheme::RSA_PSS_SHA256, digest_len: 32 };
    let sha256 = from_hex("ba7816bf8f01cfea414140de5dae2223b00361a396177a9cb410ff61f20015ad").unwrap();
    let sha384 = from_hex(
        "cb00753f45a35e8bb5a03d699ac65007272c32ab0eded1631a8b605a43ff5bed
         8086072ba1e7cc2358baeca134c825a7",
    )
    .unwrap();
    assert_eq!(signing_digest(p256, b"abc"), Ok(sha256.clone()));
    assert_eq!(signing_digest(rsa, b"abc"), Ok(sha256));
    assert_eq!(signing_digest(p384, b"abc"), Ok(sha384));
    let other = CertKey::RsaPss { scheme: SignatureScheme::RSA_PSS_SHA512, digest_len: 64 };
    assert_eq!(signing_digest(other, b"abc"), Err(CredError::UnsupportedKey));
}

#[test]
fn signatures_are_finished_by_key_family() {
    let rsa = CertKey::RsaPss { scheme: SignatureScheme::RSA_PSS_SHA256, digest_len: 32 };
    assert_eq!(finish_signature(rsa, vec![7, 8, 9]), Ok(vec![7, 8, 9]));
    let p256 = CertKey::Ecdsa { scheme: SignatureScheme::ECDSA_NISTP256_SHA256, coord_len: 32 };
    let mut raw = vec![0u8; 64];
    raw[31] = 5;
    raw[63] = 6;
    assert_eq!(
        finish_signature(p256, raw),
        Ok(vec![0x30, 0x06, 0x02, 0x01, 0x05, 0x02, 0x01, 0x06])
    );
    assert_eq!(finish_signature(p256, vec![0u8; 63]), Err(CredError::BadSignature));
    assert_eq!(
        signer_result(Err(CredError::NoSigningKey)),
        Err(SignerError::SigningFailed)
    );
    assert_eq!(signer_result(Ok(vec![1])), Ok(vec![1]));
}

#[test]
fn a_key_is_presented_for_its_very_scheme_only() {
    let offered = vec![
        SignatureScheme::ECDSA_NISTP256_SHA256,
        SignatureScheme::Unknown(0x1234),
    ];
    assert!(is_offered(SignatureScheme::ECDSA_NISTP256_SHA256, &offered));
    assert!(!is_offered(SignatureScheme::ECDSA_NISTP384_SHA384, &offered));
    assert!(!is_offered(SignatureScheme::ECDSA_NISTP256_SHA256, &vec![]));
    assert_eq!(scheme_algorithm(SignatureScheme::RSA_PSS_SHA256), SignatureAlgorithm::RSA);
    assert_eq!(scheme_algorithm(SignatureScheme::ED25519), SignatureAlgorithm::ED25519);
    assert_eq!(
        scheme_algorithm(SignatureScheme::ECDSA_NISTP384_SHA384),
        SignatureAlgorithm::ECDSA
    );
}

#[test]
fn scheme_codes_match_the_tls_library() {
    for (scheme, tls) in [
        (SignatureScheme::RSA_PKCS1_SHA256, rustls::SignatureScheme::RSA_PKCS1_SHA256),
        (SignatureScheme::RSA_PKCS1_SHA384, rustls::SignatureScheme::RSA_PKCS1_SHA384),
        (SignatureScheme::RSA_PKCS1_SHA512, rustls::SignatureScheme::RSA_PKCS1_SHA512),
        (SignatureScheme::ECDSA_NISTP256_SHA256, rustls::SignatureScheme::ECDSA_NISTP256_SHA256),
        (SignatureScheme::ECDSA_NISTP384_SHA384, rustls::SignatureScheme::ECDSA_NISTP384_SHA384),
        (SignatureScheme::ECDSA_NISTP521_SHA512, rustls::SignatureScheme::ECDSA_NISTP521_SHA512),
        (SignatureScheme::RSA_PSS_SHA256, rustls::SignatureScheme::RSA_PSS_SHA256),
        (SignatureScheme::RSA_PSS_SHA384, rustls::SignatureScheme::RSA_PSS_SHA384),
        (SignatureScheme::RSA_PSS_SHA512, rustls::SignatureScheme::RSA_PSS_SHA512),
        (SignatureScheme::ED25519, rustls::SignatureScheme::ED25519),
    ] {
        assert_eq!(scheme.code(), u16::from(tls));
        assert_eq!(SignatureScheme::from_code(scheme.code()), scheme);
    }
    assert_eq!(SignatureScheme::from_code(0x9999), SignatureScheme::Unknown(0x9999));
    assert_eq!(SignatureScheme::Unknown(0x9999).code(), 0x9999);
}

#[test]
fn credential_errors_in_words() {
    assert_eq!(
        CredError::AmbiguousMatch { count: 12 }.message(),
        "12 certificates matched; criteria not unique"
    );
    assert_eq!(
        CredError::StoreFailure { detail: -2146893802 }.message(),
        "key store failure (status -2146893802)"
    );
    assert_eq!(
        CredError::NoMatchingCert.message(),
        "no certificate matched the selection criteria"
    );
    assert_eq!(
        SignerError::UnsupportedScheme.message(),
        "signature scheme not supported by this key"
    );
}
