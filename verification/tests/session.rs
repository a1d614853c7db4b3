//! A host's call sequence on `PeerSession` and on the table of sessions, exercised
//! with a scripted fake driver.
use std::collections::VecDeque;
use usg_supplicant::eaphost::session::{
    AuthResult, PeerSession, ProcessAction, SessionKind, TeapStep,
};
use usg_supplicant::eaphost::session_registry::{ResponseFetch, SessionRegistry};
use usg_supplicant::fips_tls::secret::SecretBytes;
use usg_supplicant::supplicant::driver::{DriverStep, FailReason, Outcome};
use usg_supplicant::supplicant::error::DriverError;

/// A driver that replays a scripted list of steps; once exhausted it errors, so
/// an unexpected extra `step` call would surface as a failure rather than pass.
struct FakeDriver {
    steps: VecDeque<Result<DriverStep, DriverError>>,
    established: bool,
}

impl FakeDriver {
    fn new(steps: Vec<Result<DriverStep, DriverError>>) -> Self {
        Self {
            steps: steps.into(),
            established: false,
        }
    }
}

impl TeapStep for FakeDriver {
    fn step(&mut self, _eap_request: &[u8]) -> Result<DriverStep, DriverError> {
        self.established = true;
        self.steps
            .pop_front()
            .unwrap_or(Err(DriverError::Protocol("fake exhausted")))
    }
    fn tunnel_established(&self) -> bool {
        self.established
    }
}

fn success(msk: Vec<u8>, issued_mat: Option<Vec<u8>>) -> DriverStep {
    DriverStep::Finished {
        send: None,
        outcome: Outcome::Success {
            msk: SecretBytes::new(msk),
            emsk: SecretBytes::new(vec![0u8; 64]),
            issued_mat,
        },
    }
}

fn session(steps: Vec<Result<DriverStep, DriverError>>) -> PeerSession<FakeDriver> {
    PeerSession::new(SessionKind::Machine, FakeDriver::new(steps))
}

#[test]
fn buffers_each_response_then_captures_success_msk() {
    let mat = vec![0xAB; 8];
    let driver = FakeDriver::new(vec![
        Ok(DriverStep::Respond(b"client-hello".to_vec())),
        Ok(DriverStep::Respond(b"flight-2".to_vec())),
        Ok(success(vec![0x11; 64], Some(mat.clone()))),
    ]);
    let mut s = PeerSession::new(SessionKind::Machine, driver);
    assert_eq!(s.kind(), SessionKind::Machine);

    assert_eq!(s.process(b"req"), ProcessAction::Respond);
    assert_eq!(s.take_response().as_deref(), Some(&b"client-hello"[..]));
    // The response is consumed exactly once.
    assert_eq!(s.take_response(), None);
    assert!(!s.is_finished());

    assert_eq!(s.process(b"req"), ProcessAction::Respond);
    assert_eq!(s.take_response().as_deref(), Some(&b"flight-2"[..]));

    assert_eq!(s.process(b"req"), ProcessAction::Finished);
    assert!(s.is_finished());
    match s.result() {
        Some(AuthResult::Success { msk, issued_mat }) => {
            assert_eq!(msk.as_slice().len(), 64);
            assert_eq!(issued_mat.as_deref(), Some(&mat[..]));
        }
        other => panic!("expected Success, got {other:?}"),
    }
}

#[test]
fn driver_error_fails_closed() {
    let driver = FakeDriver::new(vec![Err(DriverError::Protocol("boom"))]);
    let mut s = PeerSession::new(SessionKind::User, driver);

    assert_eq!(s.process(b"req"), ProcessAction::Finished);
    assert!(s.is_finished());
    assert!(matches!(s.result(), Some(AuthResult::Failure(_))));
    // No response packet is queued for a failed step.
    assert_eq!(s.take_response(), None);
}

#[test]
fn server_failure_outcome_maps_to_failure() {
    let driver = FakeDriver::new(vec![Ok(DriverStep::Finished {
        send: None,
        outcome: Outcome::Failure(FailReason::ServerFailure),
    })]);
    let mut s = PeerSession::new(SessionKind::Machine, driver);
    assert_eq!(s.process(b"req"), ProcessAction::Finished);
    assert_eq!(
        s.result(),
        Some(&AuthResult::Failure(FailReason::ServerFailure))
    );
}

#[test]
fn final_flight_on_finish_is_still_sendable() {
    // A terminal step that also carries a last packet to send.
    let driver = FakeDriver::new(vec![Ok(DriverStep::Finished {
        send: Some(b"final".to_vec()),
        outcome: Outcome::Success {
            msk: SecretBytes::new(vec![0x22; 64]),
            emsk: SecretBytes::new(vec![0u8; 64]),
            issued_mat: None,
        },
    })]);
    let mut s = PeerSession::new(SessionKind::Machine, driver);

    assert_eq!(s.process(b"req"), ProcessAction::Finished);
    assert_eq!(s.take_response().as_deref(), Some(&b"final"[..]));
    assert!(matches!(s.result(), Some(AuthResult::Success { .. })));
}

#[test]
fn ignores_packets_after_terminal_and_stops_driving() {
    let driver = FakeDriver::new(vec![Ok(success(vec![0x33; 64], None))]);
    let mut s = PeerSession::new(SessionKind::Machine, driver);

    assert_eq!(s.process(b"req"), ProcessAction::Finished);
    let first = s.result().map(AuthResult::duplicate);

    // Further packets are inert: the terminal short-circuit returns before
    // touching the driver, so the result is unchanged (the fake has no steps
    // left and would error if it were called).
    assert_eq!(s.process(b"late"), ProcessAction::Finished);
    assert_eq!(s.result().map(AuthResult::duplicate), first);
}

#[test]
fn an_error_keeps_the_response_that_waited() {
    let mut s = session(vec![
        Ok(DriverStep::Respond(b"waiting".to_vec())),
        Err(DriverError::Protocol("boom")),
    ]);
    assert_eq!(s.process(b"req"), ProcessAction::Respond);
    assert_eq!(s.process(b"req"), ProcessAction::Finished);
    assert_eq!(s.response_len(), Some(7));
    assert_eq!(s.take_response(), Some(b"waiting".to_vec()));
    assert_eq!(s.response_len(), None);
}

#[test]
fn secrets_are_kept_but_not_shown() {
    let secret = SecretBytes::new(vec![0xAB, 0xCD]);
    assert_eq!(secret.as_slice(), &[0xAB, 0xCD]);
    assert_eq!(secret.duplicate(), secret);
    assert_ne!(SecretBytes::new(vec![]), secret);
    let shown = format!("{secret:?}");
    assert!(!shown.contains("171") && !shown.contains("ab"), "{shown}");
}

#[test]
fn handles_are_unique_nonzero_and_isolated() {
    let mut reg = SessionRegistry::new();
    let a = reg.begin(session(vec![Ok(DriverStep::Respond(b"a1".to_vec()))]));
    let b = reg.begin(session(vec![Ok(DriverStep::Respond(b"b1".to_vec()))]));
    assert_ne!(a, 0);
    assert_ne!(b, 0);
    assert_ne!(a, b);
    assert_eq!(reg.len(), 2);

    // Each handle drives its own session.
    assert_eq!(reg.process(a, b"req"), Some(ProcessAction::Respond));
    assert_eq!(reg.take_response(a).as_deref(), Some(&b"a1"[..]));
    assert_eq!(reg.take_response(b), None); // b not processed yet
    assert_eq!(reg.process(b, b"req"), Some(ProcessAction::Respond));
    assert_eq!(reg.take_response(b).as_deref(), Some(&b"b1"[..]));
}

#[test]
fn unknown_handle_fails_closed() {
    let mut reg: SessionRegistry<FakeDriver> = SessionRegistry::new();
    let bogus = 999;
    assert_eq!(reg.process(bogus, b"req"), None);
    assert_eq!(reg.take_response(bogus), None);
    assert_eq!(reg.result(bogus), None);
    assert!(!reg.end(bogus));
}

#[test]
fn end_drops_the_session_and_is_idempotent() {
    let mut reg = SessionRegistry::new();
    let h = reg.begin(session(vec![Ok(success(vec![0x11; 64], None))]));
    assert_eq!(reg.process(h, b"req"), Some(ProcessAction::Finished));
    assert!(matches!(reg.result(h), Some(AuthResult::Success { .. })));

    assert!(reg.end(h)); // existed
    assert!(!reg.end(h)); // already gone
    assert!(reg.is_empty());
    // After end, the handle is unknown -> fail closed.
    assert_eq!(reg.result(h), None);
}

#[test]
fn a_response_stays_queued_until_it_fits() {
    let mut reg: SessionRegistry<FakeDriver> = SessionRegistry::default();
    let h = reg.begin(session(vec![Ok(DriverStep::Respond(b"12345".to_vec()))]));
    assert_eq!(reg.fetch_response(h, 100), ResponseFetch::Nothing);
    assert_eq!(reg.process(h, b"req"), Some(ProcessAction::Respond));
    // A size probe, then a buffer that is too small.
    assert_eq!(reg.fetch_response(h, 0), ResponseFetch::TooSmall(5));
    assert_eq!(reg.fetch_response(h, 4), ResponseFetch::TooSmall(5));
    assert_eq!(reg.fetch_response(h, 5), ResponseFetch::Taken(b"12345".to_vec()));
    assert_eq!(reg.fetch_response(h, 5), ResponseFetch::Nothing);
    assert_eq!(reg.fetch_response(77, 5), ResponseFetch::Nothing);
}

#[test]
fn the_tunnel_is_established_as_the_driver_says() {
    let mut reg = SessionRegistry::new();
    let h = reg.begin(session(vec![Ok(DriverStep::Respond(b"x".to_vec()))]));
    assert_eq!(reg.tunnel_established(h), Some(false));
    reg.process(h, b"req");
    assert_eq!(reg.tunnel_established(h), Some(true));
    assert_eq!(reg.tunnel_established(h + 1), None);
}

#[test]
fn sessions_are_counted_and_handles_not_reused() {
    let mut reg: SessionRegistry<FakeDriver> = SessionRegistry::new();
    assert_eq!(reg.redacted(), "SessionRegistry { live: 0, .. }");
    let a = reg.begin(session(vec![]));
    let b = reg.begin(session(vec![]));
    assert_eq!(reg.len(), 2);
    assert!(reg.end(a));
    assert_eq!(reg.len(), 1);
    assert!(!reg.end(a));
    assert_eq!(reg.len(), 1);
    let c = reg.begin(session(vec![]));
    assert!(a < b && b < c);
    assert_eq!(reg.redacted(), "SessionRegistry { live: 2, .. }");
}
