//! In-memory TLS 1.3 handshakes: the restricted provider negotiates ML-KEM-1024,
//! the allow-list is enforced, and both ends agree on the exported keys; the outer
//! driver and the inner method run over them.
use aws_lc_rs::rand::SystemRandom;
use aws_lc_rs::signature::{EcdsaKeyPair, ECDSA_P256_SHA256_ASN1_SIGNING};
use rcgen::{
    BasicConstraints, CertificateParams, IsCa, KeyPair, KeyUsagePurpose, PKCS_RSA_SHA256,
};
use rustls::pki_types::{CertificateDer, PrivateKeyDer};
use rustls::server::WebPkiClientVerifier;
use rustls::version::TLS13;
use rustls::{ClientConfig, RootCertStore, ServerConfig, ServerConnection};
use std::io::{Cursor, Read, Write};
use std::sync::Arc;
use usg_supplicant::creds::adapter::{is_offered, scheme_algorithm, SignatureAlgorithm};
use usg_supplicant::fips_tls::backend::{
    client_config, duplicate_anchors, trust_anchors, CertResolver, ClientAuth, TeapTlsClient,
    TLS_BUFFER_LIMIT,
};
use usg_supplicant::fips_tls::error::FipsTlsError;
use usg_supplicant::fips_tls::mac::AwsLcMac;
use usg_supplicant::fips_tls::provider::{
    assert_fips, assert_os_fips_mode, fips_cipher_suites, fips_kx_groups, fips_provider,
    fips_provider_arc,
};
use usg_supplicant::fips_tls::secret::SecretBytes;
use usg_supplicant::fips_tls::signer::{RemoteSigner, SignatureScheme, SignerError};
use usg_supplicant::harness::{self, ServerMessage, ServerPhase, TeapServer, SERVER_NAME};
use usg_supplicant::kat::{from_hex, to_hex};
use usg_supplicant::supplicant::builder::assemble_driver;
use usg_supplicant::supplicant::driver::{
    DriverAction, DriverConfig, FailReason, Identity, Outcome, SessionReply, TeapDriver,
};
use usg_supplicant::supplicant::error::DriverError;
use usg_supplicant::supplicant::framing::{
    EapCode, EapPacket, TeapOuter, TEAP_EAP_TYPE, TEAP_VERSION,
};
use usg_supplicant::supplicant::inner_tls::{
    EapTlsInner, InnerAction, InnerTlsError, EAP_TLS_TYPE, EAP_TLS_VERSION,
};

const SEED_LABEL: &[u8] = b"EXPORTER: teap session key seed";
const MLKEM1024: u16 = 0x0202;
const AES_256_GCM_SHA384: u16 = 0x1302;

struct Id {
    cert: CertificateDer<'static>,
    pkcs8: Vec<u8>,
}

fn gen_id(name: &str) -> Id {
    let ck = rcgen::generate_simple_self_signed([name.to_string()]).unwrap();
    Id {
        cert: ck.cert.der().clone(),
        pkcs8: ck.key_pair.serialize_der(),
    }
}

fn key_of(id: &Id) -> PrivateKeyDer<'static> {
    PrivateKeyDer::Pkcs8(id.pkcs8.clone().into())
}

fn roots_of(id: &Id) -> RootCertStore {
    trust_anchors(vec![id.cert.to_vec()]).unwrap()
}

/// A server without client authentication.
fn server_conn(server: &Id) -> ServerConnection {
    let config = ServerConfig::builder_with_provider(fips_provider_arc())
        .with_protocol_versions(&[&TLS13])
        .unwrap()
        .with_no_client_auth()
        .with_single_cert(vec![server.cert.clone()], key_of(server))
        .unwrap();
    ServerConnection::new(Arc::new(config)).unwrap()
}

/// A server that requires a client certificate chaining to `client`.
fn mutual_server_conn(server: &Id, client: &CertificateDer<'static>) -> ServerConnection {
    let mut client_roots = RootCertStore::empty();
    client_roots.add(client.clone()).unwrap();
    let verifier =
        WebPkiClientVerifier::builder_with_provider(Arc::new(client_roots), fips_provider_arc())
            .build()
            .unwrap();
    let config = ServerConfig::builder_with_provider(fips_provider_arc())
        .with_protocol_versions(&[&TLS13])
        .unwrap()
        .with_client_cert_verifier(verifier)
        .with_single_cert(vec![server.cert.clone()], key_of(server))
        .unwrap();
    ServerConnection::new(Arc::new(config)).unwrap()
}

fn client(server: &Id) -> TeapTlsClient {
    let config = client_config(roots_of(server), ClientAuth::Anonymous).unwrap();
    TeapTlsClient::connect(config, SERVER_NAME).unwrap()
}

fn srv_feed(conn: &mut ServerConnection, records: &[u8]) {
    let mut rest = records;
    while !rest.is_empty() {
        let mut cur = Cursor::new(rest);
        let n = conn.read_tls(&mut cur).unwrap();
        if n == 0 {
            break;
        }
        conn.process_new_packets().unwrap();
        rest = &rest[n..];
    }
}

fn srv_take(conn: &mut ServerConnection) -> Vec<u8> {
    let mut out = Vec::new();
    while conn.wants_write() {
        conn.write_tls(&mut out).unwrap();
    }
    out
}

fn srv_plain(conn: &mut ServerConnection) -> Vec<u8> {
    let mut got = Vec::new();
    conn.reader().read_to_end(&mut got).ok();
    got
}

/// Drive the handshake to completion by shuttling records between the two ends.
fn drive(client: &mut TeapTlsClient, server: &mut ServerConnection) {
    for _ in 0..32 {
        let c2s = client.take_outgoing().unwrap();
        srv_feed(server, &c2s);
        let s2c = srv_take(server);
        if !s2c.is_empty() {
            client.feed_incoming(&s2c).unwrap();
        }
        if !client.is_handshaking() && !server.is_handshaking() {
            return;
        }
    }
    panic!("handshake did not converge");
}

#[test]
fn handshake_negotiates_mlkem1024_and_agrees_on_seed() {
    let server_cert = gen_id(SERVER_NAME);
    let mut srv = server_conn(&server_cert);
    let mut cli = client(&server_cert);

    drive(&mut cli, &mut srv);

    // ML-KEM-1024 key exchange and the SHA-384 AEAD suite must have been chosen.
    assert_eq!(cli.negotiated_group(), Some(MLKEM1024));
    assert_eq!(cli.negotiated_suite(), Some(AES_256_GCM_SHA384));
    // Secret-producing methods are refused until the handshake is finalized.
    assert!(matches!(
        cli.session_key_seed(),
        Err(FipsTlsError::NotEstablished)
    ));
    cli.finish_handshake()
        .expect("negotiated params are FIPS-allowed");

    // The exporter yields a 40-octet seed identical on both ends.
    let client_seed = cli.session_key_seed().unwrap();
    let server_seed = srv
        .export_keying_material([0u8; 40], SEED_LABEL, None)
        .unwrap();
    assert_eq!(client_seed.as_slice().len(), 40);
    assert_eq!(client_seed.as_slice(), server_seed);

    // The MAC primitive tracks the negotiated suite hash (SHA-384 here).
    assert_eq!(cli.negotiated_mac().unwrap().hash_len(), 48);
}

#[test]
fn application_data_roundtrips_through_the_tunnel() {
    let server_cert = gen_id(SERVER_NAME);
    let mut srv = server_conn(&server_cert);
    let mut cli = client(&server_cert);
    drive(&mut cli, &mut srv);
    cli.finish_handshake().unwrap();

    // Client encrypts Phase-2 data; server decrypts it.
    let payload = b"teap-phase2-tlvs";
    let records = cli.protect(payload).unwrap();
    assert_ne!(records, payload);
    srv_feed(&mut srv, &records);
    assert_eq!(srv_plain(&mut srv), payload);
}

#[test]
fn server_name_mismatch_is_rejected() {
    let server_cert = gen_id(SERVER_NAME);
    let mut srv = server_conn(&server_cert);

    let config = client_config(roots_of(&server_cert), ClientAuth::Anonymous).unwrap();
    // Connect expecting a DIFFERENT name than the cert's SAN.
    let mut cli = TeapTlsClient::connect(config, "wrong.example.com").unwrap();

    // The handshake must fail (cert name mismatch) rather than complete.
    let mut converged = false;
    for _ in 0..32 {
        let Ok(c2s) = cli.take_outgoing() else {
            converged = true;
            break;
        };
        if !c2s.is_empty() {
            let mut cur = Cursor::new(c2s);
            while srv.read_tls(&mut cur).unwrap() > 0 {
                let _ = srv.process_new_packets();
            }
        }
        let s2c = srv_take(&mut srv);
        if !s2c.is_empty() && cli.feed_incoming(&s2c).is_err() {
            converged = true;
            break;
        }
        if !cli.is_handshaking() {
            break;
        }
    }
    assert!(
        converged,
        "expected the handshake to fail on server-name mismatch"
    );
}

#[test]
fn handshake_verifies_rsa_server_cert_chain() {
    // The outer tunnel must verify an RSA leaf (RSA-PSS CertificateVerify) issued
    // by an RSA CA (PKCS#1 chain signature) while still negotiating ML-KEM-1024 /
    // AES-256-GCM. The server presents only the leaf; the CA is the client's trust
    // anchor.
    let ca_key = KeyPair::generate_for(&PKCS_RSA_SHA256).unwrap();
    let mut ca_params = CertificateParams::new(Vec::<String>::new()).unwrap();
    ca_params.is_ca = IsCa::Ca(BasicConstraints::Unconstrained);
    ca_params.key_usages = vec![KeyUsagePurpose::KeyCertSign];
    let ca = ca_params.self_signed(&ca_key).unwrap();
    let leaf_key = KeyPair::generate_for(&PKCS_RSA_SHA256).unwrap();
    let leaf = CertificateParams::new(vec![SERVER_NAME.to_string()])
        .unwrap()
        .signed_by(&leaf_key, &ca, &ca_key)
        .unwrap();
    let server_config = ServerConfig::builder_with_provider(fips_provider_arc())
        .with_protocol_versions(&[&TLS13])
        .unwrap()
        .with_no_client_auth()
        .with_single_cert(
            vec![leaf.der().clone()],
            PrivateKeyDer::Pkcs8(leaf_key.serialize_der().into()),
        )
        .unwrap();
    let mut srv = ServerConnection::new(Arc::new(server_config)).unwrap();

    let roots = trust_anchors(vec![ca.der().to_vec()]).unwrap();
    let config = client_config(roots, ClientAuth::Anonymous).unwrap();
    let mut cli = TeapTlsClient::connect(config, SERVER_NAME).unwrap();

    drive(&mut cli, &mut srv);

    assert_eq!(cli.negotiated_group(), Some(MLKEM1024));
    assert_eq!(cli.negotiated_suite(), Some(AES_256_GCM_SHA384));
    cli.finish_handshake()
        .expect("RSA server chain verifies and params are FIPS-allowed");

    // Both ends agreeing on the exporter seed proves the tunnel fully established
    // over the RSA-authenticated handshake.
    let client_seed = cli.session_key_seed().unwrap();
    let server_seed = srv
        .export_keying_material([0u8; 40], SEED_LABEL, None)
        .unwrap();
    assert_eq!(client_seed.as_slice(), server_seed);
}

#[test]
fn fips_self_check_matches_build() {
    // This build's provider is not the validated module -> fail closed.
    let provider = fips_provider();
    let result = assert_fips(&provider);
    assert!(matches!(result, Err(FipsTlsError::NotFips)));
}

#[test]
fn server_to_client_app_data_unprotects() {
    let server_cert = gen_id(SERVER_NAME);
    let mut srv = server_conn(&server_cert);
    let mut cli = client(&server_cert);
    drive(&mut cli, &mut srv);
    cli.finish_handshake().unwrap();

    // Server sends application data post-handshake (incl. its NewSessionTickets);
    // the client must unprotect it.
    srv.writer().write_all(b"phase2-tlvs").unwrap();
    let records = srv_take(&mut srv);
    let got = cli.unprotect(&records).unwrap();
    assert_eq!(got, b"phase2-tlvs");
}

#[test]
fn large_data_is_read_whole() {
    let server_cert = gen_id(SERVER_NAME);
    let mut srv = server_conn(&server_cert);
    let mut cli = client(&server_cert);
    drive(&mut cli, &mut srv);
    cli.finish_handshake().unwrap();

    // More than one read buffer.
    let data: Vec<u8> = (0..40_000u32).map(|i| i as u8).collect();
    srv.writer().write_all(&data[..12_000]).unwrap();
    let records = srv_take(&mut srv);
    assert_eq!(cli.unprotect(&records).unwrap(), &data[..12_000]);
    // Nothing is left over.
    assert_eq!(cli.unprotect(&[]).unwrap(), Vec::<u8>::new());
    // More than one record.
    let records = cli.protect(&data).unwrap();
    let mut got = Vec::new();
    for chunk in records.chunks(10_000) {
        srv_feed(&mut srv, chunk);
        got.extend(srv_plain(&mut srv));
    }
    assert_eq!(got, data);
    // What exceeds the TLS library's buffer is refused.
    srv.writer().write_all(&data).unwrap();
    let records = srv_take(&mut srv);
    let err = cli.unprotect(&records).unwrap_err();
    assert_eq!(err.message(), "rustls error: unexpected error: tls byte I/O error");
}

#[test]
fn a_closed_tunnel_gives_nothing_more() {
    let server_cert = gen_id(SERVER_NAME);
    let mut srv = server_conn(&server_cert);
    let mut cli = client(&server_cert);
    drive(&mut cli, &mut srv);
    cli.finish_handshake().unwrap();
    srv.writer().write_all(b"last words").unwrap();
    srv.send_close_notify();
    let records = srv_take(&mut srv);
    assert_eq!(cli.unprotect(&records).unwrap(), b"last words");
    assert_eq!(cli.unprotect(&[1, 2, 3]).unwrap(), Vec::<u8>::new());
}

#[test]
fn nothing_secret_comes_out_before_the_parameters_are_verified() {
    let server_cert = gen_id(SERVER_NAME);
    let mut cli = client(&server_cert);
    assert!(cli.is_handshaking());
    assert!(matches!(
        cli.finish_handshake(),
        Err(FipsTlsError::HandshakeIncomplete)
    ));
    assert!(matches!(cli.protect(b"x"), Err(FipsTlsError::NotEstablished)));
    assert!(matches!(cli.unprotect(b"x"), Err(FipsTlsError::NotEstablished)));
    assert!(matches!(
        cli.export_keying_material(b"label", 8),
        Err(FipsTlsError::NotEstablished)
    ));
    assert!(matches!(cli.negotiated_mac(), Err(FipsTlsError::NotEstablished)));
    assert!(matches!(
        cli.enforce_fips_parameters(),
        Err(FipsTlsError::DisallowedParameter { what: "protocol version" })
    ));
    assert_eq!(cli.negotiated_group(), None);
    assert_eq!(cli.negotiated_suite(), None);
}

#[test]
fn the_weaker_suite_is_offered_but_not_accepted() {
    // A server that insists on AES-128-GCM completes the handshake; the tunnel
    // then refuses the negotiated suite.
    let server_cert = gen_id(SERVER_NAME);
    let provider = rustls::crypto::CryptoProvider {
        cipher_suites: vec![rustls::crypto::aws_lc_rs::cipher_suite::TLS13_AES_128_GCM_SHA256],
        ..fips_provider()
    };
    let config = ServerConfig::builder_with_provider(Arc::new(provider))
        .with_protocol_versions(&[&TLS13])
        .unwrap()
        .with_no_client_auth()
        .with_single_cert(vec![server_cert.cert.clone()], key_of(&server_cert))
        .unwrap();
    let mut srv = ServerConnection::new(Arc::new(config)).unwrap();
    let mut cli = client(&server_cert);
    drive(&mut cli, &mut srv);
    assert_eq!(cli.negotiated_suite(), Some(0x1301));
    assert!(matches!(
        cli.finish_handshake(),
        Err(FipsTlsError::DisallowedParameter { what: "cipher suite" })
    ));
    assert!(matches!(cli.session_key_seed(), Err(FipsTlsError::NotEstablished)));
}

#[test]
fn exports_depend_on_the_label() {
    let server_cert = gen_id(SERVER_NAME);
    let mut srv = server_conn(&server_cert);
    let mut cli = client(&server_cert);
    drive(&mut cli, &mut srv);
    cli.finish_handshake().unwrap();
    let a = cli.export_keying_material(b"label a", 24).unwrap();
    let b = cli.export_keying_material(b"label b", 24).unwrap();
    let expected = srv.export_keying_material([0u8; 24], b"label a", None).unwrap();
    assert_eq!(a.as_slice(), expected);
    assert_ne!(a, b);
    // No export of zero octets.
    assert!(matches!(
        cli.export_keying_material(b"label a", 0),
        Err(FipsTlsError::Rustls(_))
    ));
}

#[test]
fn server_names_and_anchors_are_checked() {
    let server_cert = gen_id(SERVER_NAME);
    let config = client_config(roots_of(&server_cert), ClientAuth::Anonymous).unwrap();
    assert!(matches!(
        TeapTlsClient::connect(config.clone(), "not a name"),
        Err(FipsTlsError::BadServerName)
    ));
    assert!(TeapTlsClient::connect(config, "192.0.2.1").is_ok());
    assert!(trust_anchors(vec![server_cert.cert.to_vec(), vec![1, 2, 3]]).is_none());
    let both = trust_anchors(vec![server_cert.cert.to_vec(), server_cert.cert.to_vec()]).unwrap();
    assert_eq!(both.len(), 2);
    assert_eq!(duplicate_anchors(&both).len(), 2);
    assert_eq!(trust_anchors(vec![]).unwrap().len(), 0);
}

#[test]
fn records_that_are_no_tls_are_an_error_of_the_library() {
    let server_cert = gen_id(SERVER_NAME);
    let mut cli = client(&server_cert);
    let _ = cli.take_outgoing().unwrap();
    let err = cli.feed_incoming(&[0x42; 64]).unwrap_err();
    assert!(matches!(err, FipsTlsError::Rustls(_)));
    assert!(err.message().starts_with("rustls error: "));
    assert!(err.message().len() > "rustls error: ".len());
}

#[test]
fn a_credential_must_fit_together() {
    let server_cert = gen_id(SERVER_NAME);
    let a = gen_id("a");
    let b = gen_id("b");
    let auth = |chain: Vec<Vec<u8>>, key: Vec<u8>| ClientAuth::SoftwareCert {
        chain,
        key: PrivateKeyDer::Pkcs8(key.into()),
    };
    let good = client_config(roots_of(&server_cert), auth(vec![a.cert.to_vec()], a.pkcs8.clone()));
    assert!(good.is_ok());
    let mixed = client_config(roots_of(&server_cert), auth(vec![a.cert.to_vec()], b.pkcs8.clone()));
    assert!(matches!(mixed, Err(FipsTlsError::Rustls(_))));
    let no_key = client_config(roots_of(&server_cert), auth(vec![a.cert.to_vec()], vec![0; 10]));
    assert!(matches!(no_key, Err(FipsTlsError::Rustls(_))));
}

/// The content of an octet string at the end of a PKCS#8 structure: the key in its
/// own format.
fn inner_key(pkcs8: &[u8], algorithm_len: usize) -> Vec<u8> {
    // SEQUENCE { INTEGER 0, SEQUENCE algorithm, OCTET STRING key }, with a header of
    // two octets, or of more for a long form.
    let header = |at: usize| match pkcs8[at + 1] {
        n if n < 0x80 => (2, usize::from(n)),
        0x81 => (3, usize::from(pkcs8[at + 2])),
        _ => (4, usize::from(pkcs8[at + 2]) * 256 + usize::from(pkcs8[at + 3])),
    };
    let at = header(0).0 + 3 + 2 + algorithm_len;
    assert_eq!(pkcs8[at], 0x04);
    let (start, len) = header(at);
    pkcs8[at + start..at + start + len].to_vec()
}

#[test]
fn keys_are_taken_in_every_format() {
    let server_cert = gen_id(SERVER_NAME);
    let id = gen_id("a");
    let sec1 = inner_key(&id.pkcs8, 19);
    let taken = |chain: Vec<u8>, key: PrivateKeyDer<'static>| {
        let auth = ClientAuth::SoftwareCert { chain: vec![chain], key };
        client_config(roots_of(&server_cert), auth).is_ok()
    };
    assert!(taken(id.cert.to_vec(), PrivateKeyDer::Sec1(sec1.clone().into())));
    assert!(!taken(id.cert.to_vec(), PrivateKeyDer::Pkcs1(sec1.into())));

    let key_pair = KeyPair::generate_for(&PKCS_RSA_SHA256).unwrap();
    let params = CertificateParams::new(vec!["b".to_string()]).unwrap();
    let cert = params.self_signed(&key_pair).unwrap();
    let pkcs1 = inner_key(&key_pair.serialize_der(), 13);
    assert!(taken(cert.der().to_vec(), PrivateKeyDer::Pkcs1(pkcs1.into())));
}

#[test]
fn the_send_buffer_is_capped() {
    let server_cert = gen_id(SERVER_NAME);
    let mut srv = server_conn(&server_cert);
    let mut cli = client(&server_cert);
    drive(&mut cli, &mut srv);
    cli.finish_handshake().unwrap();
    assert!(cli.protect(&[7; TLS_BUFFER_LIMIT]).is_ok());
    let err = cli.protect(&[7; TLS_BUFFER_LIMIT + 1]).unwrap_err();
    assert_eq!(err.message(), "rustls error: unexpected error: tls byte I/O error");
}

#[test]
fn what_waits_can_be_read_without_new_records() {
    let server_cert = gen_id(SERVER_NAME);
    let mut srv = server_conn(&server_cert);
    let mut cli = client(&server_cert);
    drive(&mut cli, &mut srv);
    cli.finish_handshake().unwrap();
    assert_eq!(cli.unprotect(&[]).unwrap(), Vec::<u8>::new());
    srv.writer().write_all(b"early").unwrap();
    cli.feed_incoming(&srv_take(&mut srv)).unwrap();
    assert_eq!(cli.drain_received().unwrap(), b"early");
    srv.writer().write_all(b"later").unwrap();
    cli.feed_incoming(&srv_take(&mut srv)).unwrap();
    assert_eq!(cli.unprotect(&[]).unwrap(), b"later");
}

#[test]
fn what_is_shown_holds_no_secret() {
    let server_cert = gen_id(SERVER_NAME);
    let machine = gen_id("usg-machine");
    let mut srv = server_conn(&server_cert);
    let mut cli = client(&server_cert);
    assert_eq!(cli.redacted(), "TeapTlsClient { handshaking: true, established: false }");
    drive(&mut cli, &mut srv);
    assert_eq!(cli.redacted(), "TeapTlsClient { handshaking: false, established: false }");
    cli.finish_handshake().unwrap();
    assert_eq!(cli.redacted(), "TeapTlsClient { handshaking: false, established: true }");

    let mut srv = server_conn(&server_cert);
    let mut driver = TeapDriver::new(driver_config(), roots_of(&server_cert)).unwrap();
    assert_eq!(driver.redacted(), "TeapDriver { identity: Machine, phase: ExpectStart, .. }");
    let _ = established(&mut driver, &mut srv);
    assert_eq!(driver.redacted(), "TeapDriver { identity: Machine, phase: Phase2, .. }");

    let mut srv = mutual_server_conn(&server_cert, &machine.cert);
    let mut inner =
        EapTlsInner::new(remote_config(&server_cert, &machine), SERVER_NAME, 64 * 1024).unwrap();
    assert_eq!(inner.redacted(), "EapTlsInner { state: Handshake, .. }");
    inner_handshake(&mut inner, &mut srv);
    assert_eq!(inner.redacted(), "EapTlsInner { state: AwaitCommitment, .. }");
    inner.fail();
    assert_eq!(inner.redacted(), "EapTlsInner { state: Failed, .. }");
}

#[test]
fn empty_messages_are_not_refused() {
    let server = gen_id(SERVER_NAME);
    let machine = gen_id("usg-machine");
    let mut srv = server_conn(&server);
    let mut driver = TeapDriver::new(driver_config(), roots_of(&server)).unwrap();
    driver.step(&request(1)).unwrap();
    assert!(matches!(driver.on_outer(true, false), Ok(DriverAction::Fragment { .. })));
    // Still in the handshake, with nothing more to send.
    match driver.on_message(Some(vec![])) {
        Ok(DriverAction::Fragment { message }) => assert!(message.is_empty()),
        _ => panic!("expected an empty flight"),
    }
    let mut driver = TeapDriver::new(driver_config(), roots_of(&server)).unwrap();
    let _ = established(&mut driver, &mut srv);
    match driver.on_message(Some(vec![])) {
        Ok(DriverAction::Exchange { plaintext }) => assert!(plaintext.is_empty()),
        _ => panic!("expected an exchange"),
    }
    let mut inner =
        EapTlsInner::new(remote_config(&server, &machine), SERVER_NAME, 64 * 1024).unwrap();
    let _ = inner.on_outer(true, false);
    match inner.on_records(Some(vec![]), 32) {
        InnerAction::Fragment { message } => assert!(message.is_empty()),
        _ => panic!("expected an empty flight"),
    }
}

#[test]
fn the_provider_is_restricted() {
    assert_eq!(fips_kx_groups(), vec![MLKEM1024]);
    let suites: Vec<u16> = fips_cipher_suites()
        .iter()
        .map(|s| u16::from(s.suite()))
        .collect();
    assert_eq!(suites, vec![0x1302, 0x1301]);
    let provider = fips_provider();
    let groups: Vec<u16> = provider
        .kx_groups
        .iter()
        .map(|g| u16::from(g.name()))
        .collect();
    assert_eq!(groups, fips_kx_groups());
    assert_eq!(provider.cipher_suites.len(), 2);
    assert!(assert_os_fips_mode().is_ok());
}

#[test]
fn mac_known_answers() {
    // A published test vector.
    let key = b"Jefe";
    let data = b"what do ya want for nothing?";
    assert_eq!(
        to_hex(&AwsLcMac::sha256().hmac(key, data)),
        "5bdcc146bf60754e6a042426089575c75a003f089d2739839dec58b964ec3843"
    );
    assert_eq!(
        to_hex(&AwsLcMac::sha384().hmac(key, data)),
        "af45d2e376484031617f78d2b58a6b1b9c7ef464f5a01b47e42ec3736322445e8e2240ca5e69e2c78b3239ecfab21649"
    );
    assert_eq!(AwsLcMac::sha256().hash_len(), 32);
    assert_eq!(from_hex("00").unwrap(), vec![0]);
}

#[test]
fn tls_errors_in_words() {
    assert_eq!(
        FipsTlsError::DisallowedParameter { what: "cipher suite" }.message(),
        "negotiated cipher suite is outside the FIPS allow-list"
    );
    assert_eq!(
        FipsTlsError::NotEstablished.message(),
        "tunnel not finalized: call finish_handshake first"
    );
    assert_eq!(
        FipsTlsError::Rustls(rustls::Error::General("boom".into())).message(),
        "rustls error: unexpected error: boom"
    );
    assert_eq!(
        DriverError::Tls(FipsTlsError::BadServerName).message(),
        "TLS error: expected server name is not a valid DNS name"
    );
    assert_eq!(
        DriverError::Protocol("expected TEAP Start").message(),
        "protocol violation: expected TEAP Start"
    );
    assert_eq!(
        DriverError::Decode("short".to_string()).message(),
        "framing/decode error: short"
    );
    assert_eq!(
        DriverError::Session("bad".to_string()).message(),
        "session error: bad"
    );
}

// ---- client authentication with a key that stays in its store ----

/// A software `RemoteSigner` standing in for a CNG/smartcard key.
struct SoftSigner {
    chain: Vec<Vec<u8>>,
    key: EcdsaKeyPair,
}

impl SoftSigner {
    fn of(id: &Id) -> SoftSigner {
        SoftSigner {
            chain: vec![id.cert.to_vec()],
            key: EcdsaKeyPair::from_pkcs8(&ECDSA_P256_SHA256_ASN1_SIGNING, &id.pkcs8).unwrap(),
        }
    }
}

impl RemoteSigner for SoftSigner {
    fn cert_chain(&self) -> Vec<Vec<u8>> {
        self.chain.clone()
    }
    fn scheme(&self) -> SignatureScheme {
        SignatureScheme::ECDSA_NISTP256_SHA256
    }
    fn sign(&self, message: &[u8]) -> Result<Vec<u8>, SignerError> {
        self.key
            .sign(&SystemRandom::new(), message)
            .map(|s| s.as_ref().to_vec())
            .map_err(|_| SignerError::SigningFailed)
    }
}

/// Presents a `RemoteSigner`'s identity to the TLS library.
struct Resolver(Arc<SoftSigner>);

impl std::fmt::Debug for Resolver {
    fn fmt(&self, f: &mut std::fmt::Formatter<'_>) -> std::fmt::Result {
        f.debug_struct("Resolver").finish_non_exhaustive()
    }
}

impl rustls::client::ResolvesClientCert for Resolver {
    fn resolve(
        &self,
        _root_hint_subjects: &[&[u8]],
        sigschemes: &[rustls::SignatureScheme],
    ) -> Option<Arc<rustls::sign::CertifiedKey>> {
        let offered: Vec<SignatureScheme> = sigschemes
            .iter()
            .map(|s| SignatureScheme::from_code(u16::from(*s)))
            .collect();
        if !is_offered(self.0.scheme(), &offered) {
            return None;
        }
        let chain = self.0.cert_chain().into_iter().map(CertificateDer::from).collect();
        let key = RemoteKey(self.0.clone());
        Some(Arc::new(rustls::sign::CertifiedKey::new(chain, Arc::new(key))))
    }
    fn has_certs(&self) -> bool {
        true
    }
}

struct RemoteKey(Arc<SoftSigner>);

impl std::fmt::Debug for RemoteKey {
    fn fmt(&self, f: &mut std::fmt::Formatter<'_>) -> std::fmt::Result {
        f.debug_struct("RemoteKey").finish_non_exhaustive()
    }
}

impl rustls::sign::SigningKey for RemoteKey {
    fn choose_scheme(
        &self,
        offered: &[rustls::SignatureScheme],
    ) -> Option<Box<dyn rustls::sign::Signer>> {
        let mine = rustls::SignatureScheme::from(self.0.scheme().code());
        if offered.contains(&mine) {
            Some(Box::new(RemoteKey(self.0.clone())))
        } else {
            None
        }
    }
    fn algorithm(&self) -> rustls::SignatureAlgorithm {
        match scheme_algorithm(self.0.scheme()) {
            SignatureAlgorithm::RSA => rustls::SignatureAlgorithm::RSA,
            SignatureAlgorithm::ED25519 => rustls::SignatureAlgorithm::ED25519,
            SignatureAlgorithm::ECDSA => rustls::SignatureAlgorithm::ECDSA,
        }
    }
}

impl rustls::sign::Signer for RemoteKey {
    fn sign(&self, message: &[u8]) -> Result<Vec<u8>, rustls::Error> {
        self.0
            .sign(message)
            .map_err(|e| rustls::Error::General(e.message()))
    }
    fn scheme(&self) -> rustls::SignatureScheme {
        rustls::SignatureScheme::from(self.0.scheme().code())
    }
}

/// A credential whose key stays behind a resolver.
fn resolver_auth(client: &Id) -> ClientAuth {
    ClientAuth::Resolver(CertResolver(Arc::new(Resolver(Arc::new(SoftSigner::of(client))))))
}

fn remote_config(server: &Id, client: &Id) -> Arc<ClientConfig> {
    client_config(roots_of(server), resolver_auth(client)).unwrap()
}

#[test]
fn remote_signer_authenticates_the_client_to_the_server() {
    let server_id = gen_id(SERVER_NAME);
    let client_id = gen_id("usg-machine");

    // Server requires + verifies a client cert chaining to `client_id`.
    let mut srv = mutual_server_conn(&server_id, &client_id.cert);

    // Client presents `client_id` via a RemoteSigner-backed resolver.
    let config = remote_config(&server_id, &client_id);
    let mut cli = TeapTlsClient::connect(config, SERVER_NAME).unwrap();
    drive(&mut cli, &mut srv);

    assert!(!cli.is_handshaking(), "client handshake incomplete");
    assert!(!srv.is_handshaking(), "server handshake incomplete");
    cli.finish_handshake().unwrap();

    // The server received and accepted the RemoteSigner-presented client cert.
    let peer = srv.peer_certificates().expect("server got a client cert");
    assert_eq!(peer.len(), 1);
    assert_eq!(peer[0], client_id.cert);
}

#[test]
fn software_credential_authenticates_the_client_to_the_server() {
    let server_id = gen_id(SERVER_NAME);
    let client_id = gen_id("usg-machine");
    let mut srv = mutual_server_conn(&server_id, &client_id.cert);
    let config = client_config(
        roots_of(&server_id),
        ClientAuth::SoftwareCert {
            chain: vec![client_id.cert.to_vec()],
            key: key_of(&client_id),
        },
    )
    .unwrap();
    let mut cli = TeapTlsClient::connect(config, SERVER_NAME).unwrap();
    drive(&mut cli, &mut srv);
    cli.finish_handshake().unwrap();
    assert_eq!(srv.peer_certificates().unwrap()[0], client_id.cert);
}

// ---- the outer driver ----

fn driver_config() -> DriverConfig {
    DriverConfig {
        identity: Identity::Machine,
        server_name: SERVER_NAME.to_string(),
        mat_vendor_id: 0x0000_9999,
        mat_to_present: None,
        max_fragment: 64 * 1024,
    }
}

fn request(id: u8) -> EapPacket {
    EapPacket {
        code: EapCode::Request,
        id,
        type_: Some(TEAP_EAP_TYPE),
        data: vec![],
    }
}

fn packet(code: EapCode, id: u8) -> EapPacket {
    EapPacket { code, id, type_: None, data: vec![] }
}

/// The TEAP messages of a TLS message, of at most `max` octets each.
fn pieces(message: &[u8], max: usize, version: u8) -> Vec<TeapOuter> {
    let chunks: Vec<&[u8]> = message.chunks(max).collect();
    let last = chunks.len();
    chunks
        .iter()
        .enumerate()
        .map(|(i, chunk)| TeapOuter {
            more_fragments: i + 1 < last,
            start: false,
            version,
            tls_message_length: if i == 0 && last > 1 { Some(message.len() as u32) } else { None },
            data: chunk.to_vec(),
        })
        .collect()
}

/// The octets of a response, which must carry identifier `expected`.
fn response_octets(action: DriverAction, expected: u8) -> Vec<u8> {
    match action {
        DriverAction::Respond { id, outer } => {
            assert_eq!(id, expected);
            assert_eq!(outer.version, TEAP_VERSION);
            outer.data
        }
        DriverAction::Acknowledge { id, version } => {
            assert_eq!(id, expected);
            assert_eq!(version, TEAP_VERSION);
            Vec::new()
        }
        _ => panic!("expected a response"),
    }
}

/// Send what the driver asks to be fragmented, opening the session on the way.
fn follow(driver: &mut TeapDriver, action: DriverAction, seed: &mut Option<SecretBytes>) -> DriverAction {
    match action {
        DriverAction::Fragment { message } => {
            driver.send_fragments(pieces(&message, 64 * 1024, TEAP_VERSION))
        }
        DriverAction::OpenSession { seed: s, mac } => {
            assert_eq!(mac.hash_len(), 48);
            *seed = Some(s);
            let next = driver.on_session_opened(true).unwrap();
            follow(driver, next, seed)
        }
        other => other,
    }
}

/// Hand a whole TLS message (or the Start) to the driver.
fn deliver(
    driver: &mut TeapDriver,
    id: u8,
    start: bool,
    records: Vec<u8>,
    seed: &mut Option<SecretBytes>,
) -> Result<DriverAction, DriverError> {
    assert!(matches!(driver.step(&request(id))?, DriverAction::ParseOuter));
    let action = match driver.on_outer(start, false)? {
        DriverAction::Reassemble => driver.on_message(Some(records))?,
        other => other,
    };
    Ok(follow(driver, action, seed))
}

/// Bring a driver's tunnel up with its server; returns the seed.
fn established(driver: &mut TeapDriver, srv: &mut ServerConnection) -> SecretBytes {
    let mut seed = None;
    let mut id = 1u8;
    let mut records = Vec::new();
    for round in 0..16 {
        let action = deliver(driver, id, round == 0, records, &mut seed).unwrap();
        srv_feed(srv, &response_octets(action, id));
        if driver.is_established() && !srv.is_handshaking() {
            // The server's tickets reach the driver with its first TLVs.
            return seed.unwrap();
        }
        records = srv_take(srv);
        id = id.wrapping_add(1);
    }
    panic!("handshake did not converge");
}

#[test]
fn driver_completes_mlkem_handshake_over_teap_framing() {
    // Server: self-signed cert, restricted provider, TLS 1.3, no client auth (the
    // outer tunnel is server-authenticated; inner auth carries the identity).
    let server = gen_id(SERVER_NAME);
    let mut srv = server_conn(&server);
    let mut driver = TeapDriver::new(driver_config(), roots_of(&server)).unwrap();
    assert!(!driver.is_established());
    assert_eq!(driver.config().server_name, SERVER_NAME);

    let seed = established(&mut driver, &mut srv);
    assert!(
        srv.peer_certificates().is_none(),
        "outer tunnel has no client cert"
    );
    let expected = srv.export_keying_material([0u8; 40], SEED_LABEL, None).unwrap();
    assert_eq!(seed.as_slice(), expected);
}

#[test]
fn driver_rejects_non_start_first_message() {
    let server = gen_id(SERVER_NAME);
    let mut cfg = driver_config();
    cfg.mat_vendor_id = 1;
    let mut driver = TeapDriver::new(cfg, roots_of(&server)).unwrap();
    // First message without the Start bit must be rejected.
    let result = deliver(&mut driver, 1, false, vec![], &mut None);
    assert!(matches!(result, Err(DriverError::Protocol("expected TEAP Start"))));
    assert!(matches!(
        driver.on_message(Some(vec![1])),
        Err(DriverError::Protocol("expected TEAP Start"))
    ));
}

#[test]
fn driver_sends_fragments_as_they_are_acknowledged() {
    let server = gen_id(SERVER_NAME);
    let mut driver = TeapDriver::new(driver_config(), roots_of(&server)).unwrap();
    driver.step(&request(7)).unwrap();
    let hello = match driver.on_outer(true, false).unwrap() {
        DriverAction::Fragment { message } => message,
        _ => panic!("expected the ClientHello"),
    };
    let all = pieces(&hello, 500, TEAP_VERSION);
    assert!(all.len() > 2);
    let mut sent = response_octets(driver.send_fragments(all.clone()), 7);
    for n in 1..all.len() {
        let id = 7 + n as u8;
        driver.step(&request(id)).unwrap();
        sent.extend(response_octets(driver.on_outer(false, true).unwrap(), id));
    }
    assert_eq!(sent, hello);
    // With nothing left to send, an acknowledgement counts as a handshake message.
    driver.step(&request(99)).unwrap();
    assert!(matches!(driver.on_outer(false, true).unwrap(), DriverAction::Reassemble));
    // Missing fragments are acknowledged.
    assert!(matches!(
        driver.on_message(None).unwrap(),
        DriverAction::Acknowledge { id: 99, version: 1 }
    ));
}

#[test]
fn responses_echo_the_request() {
    assert_eq!(
        EapPacket::response(9, TEAP_EAP_TYPE, vec![1]),
        EapPacket { code: EapCode::Response, id: 9, type_: Some(55), data: vec![1] }
    );
}

#[test]
fn driver_limits_handshake_rounds() {
    let server = gen_id(SERVER_NAME);
    let mut driver = TeapDriver::new(driver_config(), roots_of(&server)).unwrap();
    deliver(&mut driver, 1, true, vec![], &mut None).unwrap();
    for _ in 0..64 {
        assert!(matches!(driver.on_outer(false, false).unwrap(), DriverAction::Reassemble));
    }
    assert!(matches!(
        driver.on_outer(false, false),
        Err(DriverError::Protocol("handshake exceeded round limit"))
    ));
}

#[test]
fn driver_refuses_what_does_not_fit() {
    let server = gen_id(SERVER_NAME);
    let mut driver = TeapDriver::new(driver_config(), roots_of(&server)).unwrap();
    assert!(matches!(
        driver.step(&packet(EapCode::Success, 1)),
        Err(DriverError::Protocol("EAP-Success before a result"))
    ));
    assert!(matches!(
        driver.step(&packet(EapCode::Response, 1)),
        Err(DriverError::Protocol("unexpected EAP code from server"))
    ));
    assert!(matches!(
        driver.step(&packet(EapCode::Unknown(9), 1)),
        Err(DriverError::Protocol("unexpected EAP code from server"))
    ));
    assert!(matches!(
        driver.step(&packet(EapCode::Request, 1)),
        Err(DriverError::Protocol("inner EAP type is not TEAP"))
    ));
    assert!(matches!(
        driver.on_session_opened(true),
        Err(DriverError::Protocol("no session"))
    ));
    assert!(matches!(
        driver.on_session_step(SessionReply::Continue(vec![])),
        Err(DriverError::Protocol("no session"))
    ));
    // EAP-Success ended the exchange above.
    driver.step(&request(2)).unwrap();
    assert!(matches!(
        driver.on_outer(true, false),
        Err(DriverError::Protocol("packet after terminal state"))
    ));
    let mut cfg = driver_config();
    cfg.server_name = "no name".to_string();
    assert!(matches!(
        TeapDriver::new(cfg, roots_of(&server)),
        Err(DriverError::Tls(FipsTlsError::BadServerName))
    ));
}

#[test]
fn driver_stops_when_the_session_rejects_the_seed() {
    let server = gen_id(SERVER_NAME);
    let mut srv = server_conn(&server);
    let mut driver = TeapDriver::new(driver_config(), roots_of(&server)).unwrap();
    let action = deliver(&mut driver, 1, true, vec![], &mut None).unwrap();
    srv_feed(&mut srv, &response_octets(action, 1));
    driver.step(&request(2)).unwrap();
    driver.on_outer(false, false).unwrap();
    let action = driver.on_message(Some(srv_take(&mut srv))).unwrap();
    assert!(matches!(action, DriverAction::OpenSession { .. }));
    assert!(matches!(
        driver.on_session_opened(false),
        Err(DriverError::Protocol("session key seed rejected"))
    ));
    // The inner method was handed out; it is not handed out again.
    driver.on_outer(false, false).unwrap();
    assert!(matches!(
        driver.on_message(Some(vec![])),
        Err(DriverError::Protocol("inner method already used"))
    ));
}

fn done(msk: u8) -> SessionReply {
    SessionReply::Done {
        send: b"result".to_vec(),
        outcome: Outcome::Success {
            msk: SecretBytes::new(vec![msk; 64]),
            emsk: SecretBytes::new(vec![0; 64]),
            issued_mat: Some(vec![5]),
        },
    }
}

#[test]
fn driver_reports_a_confirmed_result_once() {
    let server = gen_id(SERVER_NAME);
    let mut srv = server_conn(&server);
    let mut driver = TeapDriver::new(driver_config(), roots_of(&server)).unwrap();
    established(&mut driver, &mut srv);

    // Phase 2: the server's data reaches the session, its reply reaches the server.
    srv.writer().write_all(b"tlvs").unwrap();
    driver.step(&request(20)).unwrap();
    driver.on_outer(false, false).unwrap();
    match driver.on_message(Some(srv_take(&mut srv))).unwrap() {
        DriverAction::Exchange { plaintext } => assert_eq!(plaintext, b"tlvs"),
        _ => panic!("expected an exchange"),
    }
    let action = driver.on_session_step(done(0x77)).unwrap();
    let action = follow(&mut driver, action, &mut None);
    srv_feed(&mut srv, &response_octets(action, 20));
    assert_eq!(srv_plain(&mut srv), b"result");

    match driver.step(&packet(EapCode::Success, 21)).unwrap() {
        DriverAction::Finished { outcome: Outcome::Success { msk, issued_mat, .. } } => {
            assert_eq!(msk.as_slice(), &[0x77; 64]);
            assert_eq!(issued_mat, Some(vec![5]));
        }
        _ => panic!("expected success"),
    }
    assert!(driver.step(&packet(EapCode::Success, 22)).is_err());
}

#[test]
fn a_late_failure_discards_a_pending_success() {
    let server = gen_id(SERVER_NAME);
    let mut srv = server_conn(&server);
    let mut driver = TeapDriver::new(driver_config(), roots_of(&server)).unwrap();
    established(&mut driver, &mut srv);
    driver.on_session_step(done(1)).unwrap();
    assert!(matches!(
        driver.step(&packet(EapCode::Failure, 30)).unwrap(),
        DriverAction::Finished { outcome: Outcome::Failure(FailReason::ServerFailure) }
    ));
    assert!(driver.step(&packet(EapCode::Success, 31)).is_err());
}

// ---- the inner method ----

fn inner_request(id: u8) -> EapPacket {
    EapPacket {
        code: EapCode::Request,
        id,
        type_: Some(EAP_TLS_TYPE),
        data: vec![],
    }
}

fn inner_octets(inner: &mut EapTlsInner, action: InnerAction, expected: u8) -> Vec<u8> {
    let action = match action {
        InnerAction::Fragment { message } => {
            inner.send_fragments(pieces(&message, 64 * 1024, EAP_TLS_VERSION))
        }
        other => other,
    };
    match action {
        InnerAction::Respond { id, outer } => {
            assert_eq!(id, expected);
            assert_eq!(outer.version, 0);
            outer.data
        }
        InnerAction::Acknowledge { id, version } => {
            assert_eq!((id, version), (expected, 0));
            Vec::new()
        }
        _ => panic!("expected a response"),
    }
}

/// Run the inner handshake until the commitment is awaited; returns the identifier
/// of the next request.
fn inner_handshake(inner: &mut EapTlsInner, srv: &mut ServerConnection) -> u8 {
    let mut id = 2u8;
    assert!(matches!(inner.on_packet(&inner_request(id)), InnerAction::ParseOuter));
    let action = inner.on_outer(true, false);
    srv_feed(srv, &inner_octets(inner, action, id));
    for _ in 0..16 {
        if !srv.is_handshaking() {
            return id + 1;
        }
        id += 1;
        assert!(matches!(inner.on_packet(&inner_request(id)), InnerAction::ParseOuter));
        assert!(matches!(inner.on_outer(false, false), InnerAction::Reassemble));
        let action = inner.on_records(Some(srv_take(srv)), 32);
        srv_feed(srv, &inner_octets(inner, action, id));
    }
    panic!("inner handshake did not converge");
}

#[test]
fn inner_method_authenticates_and_yields_the_inner_key() {
    let server = gen_id(SERVER_NAME);
    let machine = gen_id("usg-machine");
    let mut srv = mutual_server_conn(&server, &machine.cert);
    let mut inner =
        EapTlsInner::new(remote_config(&server, &machine), SERVER_NAME, 64 * 1024).unwrap();
    assert_eq!(inner.max_fragment(), 64 * 1024);
    let id = inner_handshake(&mut inner, &mut srv);
    assert_eq!(srv.peer_certificates().unwrap()[0], machine.cert);

    srv.writer().write_all(&[0x00]).unwrap();
    let commit = srv_take(&mut srv);
    inner.on_packet(&inner_request(id));
    assert!(matches!(inner.on_outer(false, false), InnerAction::Reassemble));
    // The commitment's fragments are collected first.
    assert!(matches!(
        inner.on_records(None, 32),
        InnerAction::Acknowledge { version: 0, .. }
    ));
    let expected = srv
        .export_keying_material([0u8; 64], b"EXPORTER_EAP_TLS_Key_Material", None)
        .unwrap();
    match inner.on_records(Some(commit), 32) {
        InnerAction::Done { imsk } => assert_eq!(imsk, expected[..32]),
        _ => panic!("expected completion"),
    }
    // A completed method takes no further packet.
    assert!(matches!(inner.on_packet(&inner_request(id + 1)), InnerAction::Failed));
    assert!(matches!(inner.on_outer(false, false), InnerAction::Failed));
    assert!(matches!(inner.on_records(Some(vec![1]), 32), InnerAction::Failed));
}

#[test]
fn an_empty_commitment_does_not_complete_the_method() {
    let server = gen_id(SERVER_NAME);
    let machine = gen_id("usg-machine");
    let run = || {
        let mut srv = mutual_server_conn(&server, &machine.cert);
        let mut inner =
            EapTlsInner::new(remote_config(&server, &machine), SERVER_NAME, 64 * 1024).unwrap();
        let id = inner_handshake(&mut inner, &mut srv);
        inner.on_packet(&inner_request(id));
        inner.on_outer(false, false);
        inner
    };
    assert!(matches!(run().on_records(Some(vec![]), 32), InnerAction::Failed));
    // The inner key cannot be longer than what is exported.
    assert!(matches!(run().on_records(Some(vec![1]), 65), InnerAction::Failed));
    assert!(matches!(run().on_records(Some(vec![1]), 64), InnerAction::Done { .. }));
}

#[test]
fn inner_method_fails_closed() {
    let server = gen_id(SERVER_NAME);
    let machine = gen_id("usg-machine");
    let fresh =
        || EapTlsInner::new(remote_config(&server, &machine), SERVER_NAME, 64 * 1024).unwrap();
    // Not a request, not EAP-TLS, not the Start, records before the Start.
    assert!(matches!(fresh().on_packet(&packet(EapCode::Success, 1)), InnerAction::Failed));
    assert!(matches!(fresh().on_packet(&request(1)), InnerAction::Failed));
    assert!(matches!(fresh().on_outer(false, false), InnerAction::Failed));
    assert!(matches!(fresh().on_records(Some(vec![1]), 32), InnerAction::Failed));
    // Records that are no TLS.
    let mut inner = fresh();
    let _ = inner.on_outer(true, false);
    assert!(matches!(inner.on_records(Some(vec![0x42; 64]), 32), InnerAction::Failed));
    // Once failed, failed.
    let mut inner = fresh();
    assert!(matches!(inner.fail(), InnerAction::Failed));
    assert!(matches!(inner.on_packet(&inner_request(3)), InnerAction::Failed));
    assert!(matches!(
        EapTlsInner::new(remote_config(&server, &machine), "no name", 1),
        Err(InnerTlsError::Connect)
    ));
}

// ---- both together ----

fn harness_id(id: &Id) -> harness::Id {
    harness::Id { cert: id.cert.to_vec(), pkcs8: id.pkcs8.clone() }
}

/// Run a whole authentication; the protected exchange carries the inner messages as
/// they are. What the server refuses ends it.
fn authenticate(
    server: &Id,
    expected: &Id,
    client_auth: ClientAuth,
) -> Result<(TeapDriver, TeapServer, u8), FipsTlsError> {
    let (mut driver, mut inner) =
        assemble_driver(driver_config(), roots_of(server), client_auth).unwrap();
    let mut srv = TeapServer::new(&harness_id(server), &expected.cert, Identity::Machine).unwrap();

    let mut seed = None;
    let mut imsk = Vec::new();
    let (mut id, opening) = srv.start();
    assert_eq!(opening.version, TEAP_VERSION);
    let mut action = deliver(&mut driver, id, opening.start, opening.data, &mut seed).unwrap();
    loop {
        let plain = srv.receive(&response_octets(action, id))?;
        assert_eq!(plain.is_none(), srv.plan().phase == ServerPhase::OuterHandshake);
        if srv.plan().phase == ServerPhase::InnerHandshake {
            srv.receive_inner(&plain.unwrap())?;
        }
        let next = srv.handle()?;
        let message = next.action.message;
        id = next.action.id;
        let tlvs = match message {
            ServerMessage::OuterFlight => {
                action = deliver(&mut driver, id, false, next.flight, &mut seed).unwrap();
                continue;
            }
            ServerMessage::Success => break,
            ServerMessage::InnerFlight | ServerMessage::Commitment => next.flight,
            ServerMessage::OpenInner => b"start".to_vec(),
            ServerMessage::CryptoBinding => b"binding".to_vec(),
            ServerMessage::FinalResult => b"result".to_vec(),
        };
        let flight = srv.protect_tlvs(&tlvs).unwrap();
        let plaintext = match deliver(&mut driver, id, false, flight, &mut seed).unwrap() {
            DriverAction::Exchange { plaintext } => plaintext,
            _ => panic!("expected an exchange"),
        };
        let reply = match message {
            ServerMessage::FinalResult => done(0x11),
            ServerMessage::CryptoBinding => {
                // Both ends have the same keys.
                let (srv_seed, srv_key) = srv.binding_keys().unwrap();
                assert_eq!(seed.as_ref().unwrap().as_slice(), srv_seed.as_slice());
                assert_eq!(imsk, srv_key.as_slice()[..32]);
                SessionReply::Continue(b"bound".to_vec())
            }
            _ => {
                let inner_id = next.action.inner_id;
                let start = message == ServerMessage::OpenInner;
                let step = inner.process(
                    Some(inner_request(inner_id)),
                    Some((start, false)),
                    || Some(Some(plaintext)),
                    32,
                );
                match step {
                    InnerAction::Done { imsk: key } => {
                        imsk = key;
                        SessionReply::Continue(vec![])
                    }
                    other => SessionReply::Continue(inner_octets(&mut inner, other, inner_id)),
                }
            }
        };
        let asked = driver.on_session_step(reply).unwrap();
        action = follow(&mut driver, asked, &mut seed);
    }
    Ok((driver, srv, id))
}

#[test]
fn outer_and_inner_authentication_complete_together() {
    let server = gen_id(SERVER_NAME);
    let machine = gen_id("usg-machine");
    let software = ClientAuth::SoftwareCert {
        chain: vec![machine.cert.to_vec()],
        key: key_of(&machine),
    };
    for auth in [software, resolver_auth(&machine)] {
        let (mut driver, srv, id) = authenticate(&server, &machine, auth).ok().unwrap();
        assert!(srv.is_done());
        assert_eq!(srv.mac().hash_len(), 48);
        assert!(matches!(
            driver.step(&packet(EapCode::Success, id)).unwrap(),
            DriverAction::Finished { outcome: Outcome::Success { .. } }
        ));
    }
}

#[test]
fn the_inner_server_requires_the_expected_certificate() {
    let server = gen_id(SERVER_NAME);
    let machine = gen_id("usg-machine");
    let stranger = gen_id("stranger");
    for auth in [resolver_auth(&stranger), ClientAuth::Anonymous] {
        assert!(matches!(
            authenticate(&server, &machine, auth),
            Err(FipsTlsError::Rustls(_))
        ));
    }
}

#[test]
fn a_test_server_needs_a_usable_identity_and_an_anchor() {
    let server = gen_id(SERVER_NAME);
    let other = gen_id("other");
    let refused = |id: &harness::Id, cert: &[u8]| {
        matches!(TeapServer::new(id, cert, Identity::User), Err(FipsTlsError::Rustls(_)))
    };
    assert!(refused(&harness_id(&server), &[1, 2, 3]));
    let mixed = harness::Id { cert: server.cert.to_vec(), pkcs8: other.pkcs8.clone() };
    assert!(refused(&mixed, &other.cert));
    let mut srv = TeapServer::new(&harness_id(&server), &other.cert, Identity::User).unwrap();
    assert_eq!(srv.plan().identity, Identity::User);
    // Nothing to export before the handshakes, and no TLS is an error.
    assert!(srv.binding_keys().is_err());
    assert_eq!(srv.receive(&[]).unwrap(), None);
    assert!(srv.receive(&[0x42; 64]).is_err());
    assert!(srv.receive_inner(&[0x42; 64]).is_err());
}

#[test]
fn a_tls_failure_is_told_as_it_is() {
    let server_cert = gen_id(SERVER_NAME);
    let mut srv = server_conn(&server_cert);
    let mut cli = client(&server_cert);
    drive(&mut cli, &mut srv);
    cli.finish_handshake().unwrap();
    let first = cli.unprotect(&[0x42; 64]).unwrap_err().message();
    assert_ne!(first, "rustls error: unexpected error: tls byte I/O error");
    // The connection has ended with that error.
    assert_eq!(cli.feed_incoming(&[1]).unwrap_err().message(), first);
    assert_eq!(cli.protect(b"more").unwrap_err().message(), first);
}

#[test]
fn an_export_before_the_guard_is_refused_for_any_length() {
    let server_cert = gen_id(SERVER_NAME);
    let cli = client(&server_cert);
    assert!(matches!(
        cli.export_keying_material(b"label", usize::MAX),
        Err(FipsTlsError::NotEstablished)
    ));
}

#[test]
fn processing_stops_for_good() {
    let server = gen_id(SERVER_NAME);
    let machine = gen_id("usg-machine");
    let fresh =
        || EapTlsInner::new(remote_config(&server, &machine), SERVER_NAME, 64 * 1024).unwrap();
    let unasked = || panic!("nothing to reassemble");
    // What cannot be decoded or parsed, and what is no request of the method.
    assert!(matches!(fresh().process(None, None, unasked, 32), InnerAction::Failed));
    let start = Some((true, false));
    assert!(matches!(
        fresh().process(Some(request(1)), start, unasked, 32),
        InnerAction::Failed
    ));
    let mut inner = fresh();
    assert!(matches!(
        inner.process(Some(inner_request(1)), None, unasked, 32),
        InnerAction::Failed
    ));
    assert!(matches!(
        inner.process(Some(inner_request(2)), start, unasked, 32),
        InnerAction::Failed
    ));
    // What is reassembled is used; a message that does not fit stops the method.
    let mut inner = fresh();
    assert!(matches!(
        inner.process(Some(inner_request(1)), start, unasked, 32),
        InnerAction::Fragment { .. }
    ));
    let more = Some((false, false));
    assert!(matches!(
        inner.process(Some(inner_request(2)), more, || Some(None), 32),
        InnerAction::Acknowledge { id: 2, .. }
    ));
    assert!(matches!(
        inner.process(Some(inner_request(3)), more, || None, 32),
        InnerAction::Failed
    ));
    assert!(matches!(
        inner.process(Some(inner_request(4)), more, unasked, 32),
        InnerAction::Failed
    ));
}

#[test]
fn assembling_needs_a_usable_name_and_credential() {
    let server = gen_id(SERVER_NAME);
    let machine = gen_id("usg-machine");
    let mut cfg = driver_config();
    cfg.server_name = "no name".to_string();
    assert!(matches!(
        assemble_driver(cfg.clone(), roots_of(&server), ClientAuth::Anonymous),
        Err(DriverError::Protocol("inner EAP-TLS construction failed"))
    ));
    assert!(matches!(
        assemble_driver(cfg, roots_of(&server), resolver_auth(&machine)),
        Err(DriverError::Protocol("inner EAP-TLS construction failed"))
    ));
    assert!(matches!(
        assemble_driver(
            driver_config(),
            roots_of(&server),
            ClientAuth::SoftwareCert {
                chain: vec![machine.cert.to_vec()],
                key: PrivateKeyDer::Pkcs8(vec![].into()),
            },
        ),
        Err(DriverError::Tls(FipsTlsError::Rustls(_)))
    ));
    assert!(assemble_driver(driver_config(), roots_of(&server), ClientAuth::Anonymous).is_ok());
}

#[test]
fn nothing_is_lost_on_the_way() {
    let server_cert = gen_id(SERVER_NAME);
    let mut srv = server_conn(&server_cert);
    let mut cli = client(&server_cert);
    // The first message waits; once taken, it is gone.
    let hello = cli.take_outgoing().unwrap();
    assert!(!hello.is_empty());
    assert!(cli.take_outgoing().unwrap().is_empty());
    srv_feed(&mut srv, &hello);
    let flight = srv_take(&mut srv);
    // What comes in piece by piece answers as what comes at once.
    for piece in flight.chunks(100) {
        cli.feed_incoming(piece).unwrap();
    }
    srv_feed(&mut srv, &cli.take_outgoing().unwrap());
    cli.finish_handshake().unwrap();
    // Octets wait in order until they are read.
    let mut records = Vec::new();
    for word in [b"one,", b"two,", b"six."] {
        srv.writer().write_all(word).unwrap();
        records.push(srv_take(&mut srv));
    }
    cli.feed_incoming(&records[0]).unwrap();
    cli.feed_incoming(&records[1]).unwrap();
    assert_eq!(cli.unprotect(&records[2]).unwrap(), b"one,two,six.");
}

#[test]
fn a_refused_credential_says_why() {
    let server = gen_id(SERVER_NAME);
    let other = gen_id("other");
    let mixed = || ClientAuth::SoftwareCert {
        chain: vec![server.cert.to_vec()],
        key: key_of(&other),
    };
    let client_says = client_config(roots_of(&server), mixed()).unwrap_err().message();
    let assembled = match assemble_driver(driver_config(), roots_of(&server), mixed()) {
        Err(DriverError::Tls(e)) => e.message(),
        _ => panic!("expected a TLS error"),
    };
    assert_eq!(assembled, client_says);
    let id = harness::Id { cert: server.cert.to_vec(), pkcs8: other.pkcs8.clone() };
    let server_says = |cert: &[u8]| match TeapServer::new(&id, cert, Identity::User) {
        Err(e) => e.message(),
        Ok(_) => panic!("expected a refusal"),
    };
    assert_eq!(server_says(&other.cert), client_says);
    assert_eq!(
        server_says(&[1, 2, 3]),
        "rustls error: unexpected error: the client certificate is no trust anchor"
    );
}
