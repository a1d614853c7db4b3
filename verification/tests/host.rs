//! The host's side: registration, the command line, session plans, and the status
//! snapshots.
use usg_supplicant::cli::{
    blob_numbers, build_blob, command, flag, present, repeated, required, BlobNumbers, Command,
};
use usg_supplicant::eaphost::config::SessionConfigBlob;
use usg_supplicant::eaphost::error::EapHostError;
use usg_supplicant::eaphost::peer::{
    conclusion_code, meta_with_thumbprint, plan_session, progress_state, serves_type, E_FAIL,
    EAP_TYPE_TEAP,
};
use usg_supplicant::eaphost::register::{
    data_octets, method_subkey, registry_values, u16_bytes, wide, win32, RegistryData,
    METHOD_PROPERTIES,
};
use usg_supplicant::eaphost::session::{AuthResult, ProcessAction, SessionKind};
use usg_supplicant::eaphost::status::{
    publishable, terminal_status, AuthState, AuthStatus, StatusBoard, StatusMeta,
};
use usg_supplicant::eaphost::EAPHOST_METHODS_KEY;
use usg_supplicant::fips_tls::secret::SecretBytes;
use usg_supplicant::harness::{ServerAction, ServerMessage, ServerPhase, ServerPlan};
use usg_supplicant::supplicant::driver::{FailReason, Identity};

#[test]
fn the_method_key_is_by_author_and_type() {
    assert_eq!(
        method_subkey(EAPHOST_METHODS_KEY),
        "SYSTEM\\CurrentControlSet\\Services\\EapHost\\Methods\\192000\\55"
    );
}

#[test]
fn registration_values_are_exact() {
    let values = registry_values("C:\\eaphost.dll");
    let names: Vec<&str> = values.iter().map(|v| v.name).collect();
    assert_eq!(
        names,
        [
            "PeerDllPath",
            "PeerIdentityPath",
            "PeerConfigUIPath",
            "PeerFriendlyName",
            "PeerInvokeUsernameDialog",
            "PeerInvokePasswordDialog",
            "Properties"
        ]
    );
    assert_eq!(values[0].data, RegistryData::Text("C:\\eaphost.dll".to_string()));
    assert_eq!(values[3].data, RegistryData::Text("usg-TEAP/1.3".to_string()));
    assert_eq!(values[6].data, RegistryData::Number(0x0738_0000));
    assert_eq!(METHOD_PROPERTIES, 0x0738_0000);
}

#[test]
fn wide_text_is_utf16_with_a_terminator() {
    for text in ["", "abc", "\u{e9}\u{20ac}", "\u{1F600}x\u{10FFFF}\u{10000}\u{ffff}"] {
        let expected: Vec<u16> = text.encode_utf16().chain([0]).collect();
        assert_eq!(wide(text), expected);
        let octets: Vec<u8> = expected.iter().flat_map(|u| u.to_le_bytes()).collect();
        assert_eq!(u16_bytes(&expected), octets);
        assert_eq!(data_octets(&RegistryData::Text(text.to_string())), octets);
        let back = String::from_utf16(&wide(text)[..expected.len() - 1]).unwrap();
        assert_eq!(back, text);
    }
    assert_eq!(data_octets(&RegistryData::Number(0x0102_0304)), [4, 3, 2, 1]);
}

#[test]
fn platform_statuses_map_to_results() {
    assert_eq!(win32(0), Ok(()));
    assert_eq!(win32(5), Err(EapHostError::Win32 { code: 5 }));
}

fn args(list: &[&str]) -> Vec<String> {
    list.iter().map(|s| s.to_string()).collect()
}

#[test]
fn commands_are_recognised() {
    assert_eq!(command(&args(&[])), Command::Help);
    assert_eq!(command(&args(&["emit-config", "x"])), Command::EmitConfig);
    assert_eq!(command(&args(&["emit-profile"])), Command::EmitProfile);
    assert_eq!(command(&args(&["register"])), Command::Register);
    assert_eq!(command(&args(&["unregister"])), Command::Unregister);
    assert_eq!(command(&args(&["install-profile"])), Command::InstallProfile);
    for h in ["help", "-h", "--help"] {
        assert_eq!(command(&args(&[h])), Command::Help);
    }
    assert_eq!(command(&args(&["bogus"])), Command::Unknown("bogus".to_string()));
}

#[test]
fn options_are_found() {
    let a = args(&["--root", "a", "--root", "--root", "--root"]);
    assert_eq!(flag(&a, "--root"), Some("a".to_string()));
    // A value is not taken for a further occurrence; a last option has no value.
    assert_eq!(repeated(&a, "--root"), args(&["a", "--root"]));
    assert_eq!(repeated(&args(&["--root"]), "--root"), args(&[]));
    assert_eq!(flag(&args(&["--out"]), "--out"), None);
    assert!(present(&a, "--root"));
    assert!(!present(&a, "--user"));
    assert_eq!(
        required(&args(&["--out", "f"]), "--dll"),
        Err("missing required option --dll".to_string())
    );
    assert_eq!(required(&args(&["--dll", "f"]), "--dll"), Ok("f".to_string()));
}

#[test]
fn numeric_options_have_defaults_and_limits() {
    let numbers = |list: &[&str]| blob_numbers(&args(list));
    assert_eq!(
        numbers(&[]),
        Ok(BlobNumbers { mat_vendor_id: 0x9999, max_fragment: 1400 })
    );
    assert_eq!(
        numbers(&["--mat-vendor-id", "0xFfFF", "--max-fragment", "+12"]),
        Ok(BlobNumbers { mat_vendor_id: 0xffff, max_fragment: 12 })
    );
    assert_eq!(numbers(&["--mat-vendor-id", "0x0x+1"]).unwrap().mat_vendor_id, 1);
    assert_eq!(
        numbers(&["--mat-vendor-id", "100000000"]),
        Err("invalid --mat-vendor-id '100000000' (expected hex)".to_string())
    );
    assert_eq!(
        numbers(&["--mat-vendor-id", "0x"]),
        Err("invalid --mat-vendor-id '0x' (expected hex)".to_string())
    );
    assert_eq!(numbers(&["--max-fragment", "4294967295"]).unwrap().max_fragment, u32::MAX);
    for bad in ["4294967296", "-1", "", "1e3", "+"] {
        assert_eq!(
            numbers(&["--max-fragment", bad]),
            Err(format!("invalid --max-fragment '{bad}'"))
        );
    }
    assert_eq!(
        numbers(&["--machine", "--user"]),
        Err("--machine and --user are mutually exclusive".to_string())
    );
}

#[test]
fn profiles_follow_the_options() {
    let numbers = BlobNumbers { mat_vendor_id: 7, max_fragment: 900 };
    let a = args(&["--server-name", "srv", "--cert-subject", "CN=x", "--user"]);
    let blob = build_blob(&a, numbers, vec![vec![1]]).unwrap();
    assert!(
        blob == SessionConfigBlob {
            machine: false,
            server_name: "srv".to_string(),
            mat_vendor_id: 7,
            max_fragment: 900,
            selector_subject: "CN=x".to_string(),
            roots: vec![vec![1]],
            mat: None,
        }
    );
    assert!(build_blob(&a[..4].to_vec(), numbers, vec![]).unwrap().machine);
    assert_eq!(
        build_blob(&args(&["--cert-subject", "x"]), numbers, vec![]).err(),
        Some("missing required option --server-name".to_string())
    );
    assert_eq!(
        build_blob(&args(&["--server-name", "x"]), numbers, vec![]).err(),
        Some("missing required option --cert-subject".to_string())
    );
}

fn profile(machine: bool, roots: Vec<Vec<u8>>) -> Vec<u8> {
    SessionConfigBlob {
        machine,
        server_name: "srv.example".to_string(),
        mat_vendor_id: 3,
        max_fragment: 1000,
        selector_subject: "CN=me".to_string(),
        roots,
        mat: Some(vec![9]),
    }
    .to_bytes()
}

#[test]
fn a_session_is_planned_from_its_profile() {
    let ck = rcgen::generate_simple_self_signed(["srv.example".to_string()]).unwrap();
    let root = ck.cert.der().to_vec();
    let plan = plan_session(Ok(()), &profile(true, vec![root.clone()])).unwrap();
    assert_eq!(plan.kind, SessionKind::Machine);
    assert_eq!(plan.meta.cert_subject, "CN=me");
    assert_eq!(plan.meta.cert_thumbprint, "");
    assert_eq!(plan.roots.len(), 1);
    assert!(plan.selector.require_client_auth_eku);
    assert_eq!(plan.selector.subject_contains.as_deref(), Some("CN=me"));
    assert_eq!(plan.driver.identity, Identity::Machine);
    assert_eq!(plan.driver.server_name, "srv.example");
    assert_eq!(plan.driver.mat_to_present, Some(vec![9]));
    assert_eq!(plan.driver.max_fragment, 1000);
    let meta = meta_with_thumbprint(plan.meta, "AB".to_string());
    assert_eq!(meta.cert_thumbprint, "AB");
    assert_eq!(meta.server_name, "srv.example");

    let user = plan_session(Ok(()), &profile(false, vec![])).unwrap();
    assert_eq!(user.kind, SessionKind::User);
    assert_eq!(user.driver.identity, Identity::User);

    // The policy, the profile and each root are required.
    let no_policy = Err(EapHostError::OsFipsDisabled);
    assert!(plan_session(no_policy, &profile(true, vec![root])).is_none());
    assert!(plan_session(Ok(()), b"junk").is_none());
    assert!(plan_session(Ok(()), &profile(true, vec![vec![1, 2]])).is_none());
}

fn succeeded() -> AuthResult {
    AuthResult::Success {
        msk: SecretBytes::new(vec![1; 64]),
        issued_mat: None,
    }
}

#[test]
fn the_host_is_told_of_results_and_progress() {
    assert!(serves_type(None));
    assert!(serves_type(Some(EAP_TYPE_TEAP)));
    assert!(!serves_type(Some(13)));
    assert_eq!(conclusion_code(Some(&succeeded())), (true, 0));
    assert_eq!(
        conclusion_code(Some(&AuthResult::Failure(FailReason::ServerFailure))),
        (false, E_FAIL)
    );
    assert_eq!(conclusion_code(None), (false, E_FAIL));
    assert_eq!(progress_state(ProcessAction::Finished, Some(true)), None);
    assert_eq!(
        progress_state(ProcessAction::Respond, Some(true)),
        Some(AuthState::InnerInProgress)
    );
    assert_eq!(
        progress_state(ProcessAction::Respond, None),
        Some(AuthState::Connecting)
    );
    assert_eq!(
        terminal_status(Some(&succeeded())),
        (AuthState::Authenticated, String::new())
    );
    assert_eq!(
        terminal_status(Some(&AuthResult::Failure(FailReason::ServerFailure))),
        (AuthState::Failed, "ServerFailure".to_string())
    );
    assert_eq!(
        terminal_status(Some(&AuthResult::Failure(FailReason::Other("Timeout".to_string())))),
        (AuthState::Failed, "Timeout".to_string())
    );
    assert_eq!(terminal_status(None), (AuthState::Failed, "no result".to_string()));
}

fn meta(identity: Identity, subject: &str) -> StatusMeta {
    StatusMeta {
        identity,
        cert_subject: subject.to_string(),
        cert_thumbprint: format!("{subject}-print"),
        server_name: "srv".to_string(),
    }
}

#[test]
fn snapshots_keep_the_other_identity() {
    let mut board = StatusBoard::new();
    assert!(board.publish(1, None, AuthState::Connecting, "", 10).is_none());
    board.insert(1, meta(Identity::Machine, "M"));
    let first = board.publish(1, None, AuthState::Connecting, "", 10).unwrap();
    assert_eq!(
        first,
        AuthStatus {
            state: AuthState::Connecting,
            identity: Identity::Machine,
            cert_subject: "M".to_string(),
            machine_cert: "M".to_string(),
            user_cert: String::new(),
            machine_thumbprint: "M-print".to_string(),
            user_thumbprint: String::new(),
            server_name: "srv".to_string(),
            detail: String::new(),
            updated_unix: 10,
        }
    );
    board.remove(1);
    assert!(board.publish(1, None, AuthState::Connecting, "", 11).is_none());

    // The user session keeps the machine's certificate, with or without the
    // published snapshot.
    board.insert(2, meta(Identity::User, "U"));
    let second = board.publish(2, None, AuthState::Failed, "why", 12).unwrap();
    assert_eq!(second.machine_cert, "M");
    assert_eq!(second.user_cert, "U");
    assert_eq!(second.detail, "why");

    // Another process published a machine certificate; empty fields wipe nothing.
    let mut published = second.clone();
    published.machine_cert = "M2".to_string();
    published.machine_thumbprint = String::new();
    published.user_cert = "ignored".to_string();
    let third = board
        .publish(2, Some(published), AuthState::Authenticated, "", 13)
        .unwrap();
    assert_eq!(third.machine_cert, "M2");
    assert_eq!(third.machine_thumbprint, "M-print");
    assert_eq!(third.user_cert, "U");
}

#[test]
fn the_test_server_walks_through_its_phases() {
    let mut server = ServerPlan::new(Identity::User);
    let mut seen = Vec::new();
    for handshaking in [true, false, true, false, false, false, false] {
        assert_ne!(server.phase, ServerPhase::Done);
        seen.push(server.advance(handshaking).message);
    }
    assert_eq!(server.phase, ServerPhase::Done);
    assert_eq!(
        seen,
        [
            ServerMessage::OuterFlight,
            ServerMessage::OpenInner,
            ServerMessage::InnerFlight,
            ServerMessage::Commitment,
            ServerMessage::CryptoBinding,
            ServerMessage::FinalResult,
            ServerMessage::Success,
        ]
    );
    // Identifiers wrap around.
    let mut late = ServerPlan {
        phase: ServerPhase::InnerHandshake,
        id: 255,
        inner_id: 255,
        identity: Identity::Machine,
    };
    assert_eq!(
        late.advance(true),
        ServerAction { message: ServerMessage::InnerFlight, id: 0, inner_id: 0 }
    );
}

#[test]
fn nothing_is_written_to_an_unsecured_directory() {
    let mut board = StatusBoard::new();
    board.insert(1, meta(Identity::Machine, "CN=m"));
    let snapshot = board.publish(1, None, AuthState::Connecting, "", 5);
    assert!(snapshot.is_some());
    assert_eq!(publishable(snapshot.clone(), true), snapshot);
    assert_eq!(publishable(snapshot, false), None);
    assert_eq!(publishable(None, true), None);
}
