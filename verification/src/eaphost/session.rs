//! One peer session: the adapter between a driver and a host's separate calls.
//!
//! A host hands in a request, fetches the reply, and at the end reads the conclusion,
//! each in a call of its own; a driver returns reply and outcome together. The
//! session runs one driver step per request, keeps the reply, and keeps the
//! conclusion. It fails closed: any driver error becomes a failure, and once terminal
//! it ignores further packets.
use crate::bytes::copy_of;
use crate::fips_tls::secret::SecretBytes;
use crate::supplicant::driver::{DriverStep, FailReason, Outcome};
use crate::supplicant::error::DriverError;
use vstd::prelude::*;

verus! {

/// Which identity a session authenticates.
#[derive(Debug, Clone, Copy, PartialEq, Eq, Structural)]
pub enum SessionKind {
    /// Machine session (boot, before logon).
    Machine,
    /// User session (logon, smartcard).
    User,
}

/// What a session needs from a driver.
pub trait TeapStep {
    /// Process one inbound EAP request packet.
    fn step(&mut self, eap_request: &[u8]) -> Result<DriverStep, DriverError>;

    /// Whether the outer tunnel is established: the exchange has moved on to the
    /// inner method.
    fn tunnel_established(&self) -> bool;
}

/// What a host should do after a request was processed.
#[derive(Debug, Clone, Copy, PartialEq, Eq, Structural)]
pub enum ProcessAction {
    /// A response is ready: fetch it and send it; the exchange continues.
    Respond,
    /// The exchange is terminal: read the conclusion. A final response may still be
    /// queued.
    Finished,
}

/// The conclusion that a host reads.
#[derive(Debug, PartialEq, Eq)]
pub enum AuthResult {
    /// Authentication succeeded.
    Success {
        /// The master session key for the port keys; scrubbed on drop.
        msk: SecretBytes,
        /// The ticket issued in this session, if any.
        issued_mat: Option<Vec<u8>>,
    },
    /// Authentication failed; the supplicant must deny.
    Failure(FailReason),
}

/// A failure reason, as mathematical values.
pub enum Reason {
    /// The server refused.
    ServerFailure,
    /// Any other reason, in words.
    Other(Seq<char>),
}

/// A conclusion, as mathematical values.
pub enum Conclusion {
    /// Success with this key and ticket.
    Success(Seq<u8>, Option<Seq<u8>>),
    /// Failure.
    Failure(Reason),
}

impl View for FailReason {
    type V = Reason;

    open spec fn view(&self) -> Reason {
        match *self {
            FailReason::ServerFailure => Reason::ServerFailure,
            FailReason::Other(t) => Reason::Other(t@),
        }
    }
}

impl View for AuthResult {
    type V = Conclusion;

    open spec fn view(&self) -> Conclusion {
        match *self {
            AuthResult::Success { msk, issued_mat } => Conclusion::Success(
                msk@,
                crate::pac::store::ticket_view(issued_mat),
            ),
            AuthResult::Failure(reason) => Conclusion::Failure(reason@),
        }
    }
}

/// The conclusion of an outcome.
pub open spec fn conclusion_of(outcome: Outcome) -> Conclusion {
    match outcome {
        Outcome::Success { msk, emsk, issued_mat } => Conclusion::Success(
            msk@,
            crate::pac::store::ticket_view(issued_mat),
        ),
        Outcome::Failure(reason) => Conclusion::Failure(reason@),
    }
}

impl AuthResult {
    /// A second conclusion with the same contents.
    pub fn duplicate(&self) -> (r: AuthResult)
        ensures
            r@ == self@,
    {
        match self {
            AuthResult::Success { msk, issued_mat } => AuthResult::Success {
                msk: msk.duplicate(),
                issued_mat: match issued_mat {
                    Some(t) => Some(copy_of(t.as_slice())),
                    None => None,
                },
            },
            AuthResult::Failure(FailReason::ServerFailure) => AuthResult::Failure(
                FailReason::ServerFailure,
            ),
            AuthResult::Failure(FailReason::Other(t)) => AuthResult::Failure(
                FailReason::Other(t.clone()),
            ),
        }
    }
}

/// What a session has kept, as mathematical values.
#[verifier::ext_equal]
pub struct Kept {
    /// The response that waits to be fetched.
    pub response: Option<Seq<u8>>,
    /// The conclusion; a session is terminal once it has one.
    pub conclusion: Option<Conclusion>,
}

/// What a driver step does to a session.
pub open spec fn absorbed(k: Kept, step: Result<DriverStep, DriverError>) -> Kept {
    match step {
        Ok(DriverStep::Respond(resp)) => Kept { response: Some(resp@), ..k },
        Ok(DriverStep::Finished { send, outcome }) => Kept {
            response: match send {
                Some(last) => Some(last@),
                None => k.response,
            },
            conclusion: Some(conclusion_of(outcome)),
        },
        Err(_) => Kept { conclusion: Some(Conclusion::Failure(Reason::ServerFailure)), ..k },
    }
}

/// What a host should do after a driver step.
pub open spec fn next_action(step: Result<DriverStep, DriverError>) -> ProcessAction {
    match step {
        Ok(DriverStep::Respond(_)) => ProcessAction::Respond,
        _ => ProcessAction::Finished,
    }
}

/// A peer session over a driver.
pub struct PeerSession<D: TeapStep> {
    kind: SessionKind,
    driver: D,
    pending_response: Option<Vec<u8>>,
    result: Option<AuthResult>,
}

impl<D: TeapStep> PeerSession<D> {
    /// What the session has kept.
    pub closed spec fn kept(self) -> Kept {
        Kept {
            response: crate::pac::store::ticket_view(self.pending_response),
            conclusion: match self.result {
                Some(r) => Some(r@),
                None => None,
            },
        }
    }

    /// Which identity the session authenticates.
    pub closed spec fn session_kind(self) -> SessionKind {
        self.kind
    }

    /// The driver.
    pub closed spec fn session_driver(self) -> D {
        self.driver
    }

    /// Begin a session of `kind` over `driver`.
    pub fn new(kind: SessionKind, driver: D) -> (s: Self)
        ensures
            s.kept() == (Kept { response: None, conclusion: None }),
            s.session_kind() == kind,
            s.session_driver() == driver,
    {
        PeerSession { kind, driver, pending_response: None, result: None }
    }

    /// Which identity this session authenticates.
    pub fn kind(&self) -> (k: SessionKind)
        ensures
            k == self.session_kind(),
    {
        self.kind
    }

    /// Whether the outer tunnel is established, as the driver says.
    pub fn tunnel_established(&self) -> (r: bool)
        ensures
            call_ensures(D::tunnel_established, (&self.session_driver(),), r),
    {
        let r: bool = self.driver.tunnel_established();
        assert(call_ensures(D::tunnel_established, (&self.session_driver(),), r));
        r
    }

    /// Take in what a driver step gave: keep a response, keep a conclusion; an error
    /// fails closed.
    pub fn absorb(&mut self, step: Result<DriverStep, DriverError>) -> (a: ProcessAction)
        ensures
            final(self).session_kind() == old(self).session_kind(),
            final(self).session_driver() == old(self).session_driver(),
            final(self).kept() == absorbed(old(self).kept(), step),
            a == next_action(step),
    {
        match step {
            Ok(DriverStep::Respond(resp)) => {
                self.pending_response = Some(resp);
                ProcessAction::Respond
            },
            Ok(DriverStep::Finished { send, outcome }) => {
                // A final flight may accompany the terminal step.
                if send.is_some() {
                    self.pending_response = send;
                }
                self.finish(outcome);
                ProcessAction::Finished
            },
            Err(_) => {
                self.finish(Outcome::Failure(FailReason::ServerFailure));
                ProcessAction::Finished
            },
        }
    }

    /// Process one inbound EAP request. A terminal session does nothing: it neither
    /// drives its driver nor changes what it kept.
    pub fn process(&mut self, eap_request: &[u8]) -> (a: ProcessAction)
        ensures
            final(self).session_kind() == old(self).session_kind(),
            old(self).kept().conclusion is Some ==> *final(self) == *old(self) && a
                == ProcessAction::Finished,
            old(self).kept().conclusion is None ==> exists|
                d: &mut D,
                step: Result<DriverStep, DriverError>,
            |
                {
                    &&& #[trigger] call_ensures(D::step, (d, eap_request), step)
                    &&& *d == old(self).session_driver()
                    &&& *final(d) == final(self).session_driver()
                    &&& final(self).kept() == absorbed(old(self).kept(), step)
                    &&& a == next_action(step)
                },
    {
        if self.result.is_some() {
            return ProcessAction::Finished;
        }
        let step: Result<DriverStep, DriverError> = self.driver.step(eap_request);
        assert(exists|d: &mut D|
            #[trigger] call_ensures(D::step, (d, eap_request), step) && *d == old(
                self,
            ).session_driver() && *final(d) == self.session_driver());
        assert(self.kept() == old(self).kept());
        self.absorb(step)
    }

    /// Take the response that waits, if any.
    pub fn take_response(&mut self) -> (r: Option<Vec<u8>>)
        ensures
            crate::pac::store::ticket_view(r) == old(self).kept().response,
            final(self).kept() == (Kept { response: None, ..old(self).kept() }),
            final(self).session_kind() == old(self).session_kind(),
            final(self).session_driver() == old(self).session_driver(),
    {
        self.pending_response.take()
    }

    /// The length of the response that waits, without taking it: the answer to a
    /// size probe.
    pub fn response_len(&self) -> (n: Option<usize>)
        ensures
            match n {
                Some(len) => self.kept().response matches Some(v) && v.len() == len,
                None => self.kept().response is None,
            },
    {
        match &self.pending_response {
            Some(v) => Some(v.len()),
            None => None,
        }
    }

    /// The conclusion, once the session has finished.
    pub fn result(&self) -> (r: Option<&AuthResult>)
        ensures
            match r {
                Some(a) => self.kept().conclusion == Some(a@),
                None => self.kept().conclusion is None,
            },
    {
        self.result.as_ref()
    }

    /// Whether the session has reached a conclusion.
    pub fn is_finished(&self) -> (r: bool)
        ensures
            r == (self.kept().conclusion is Some),
    {
        self.result.is_some()
    }

    fn finish(&mut self, outcome: Outcome)
        ensures
            final(self).session_kind() == old(self).session_kind(),
            final(self).session_driver() == old(self).session_driver(),
            final(self).kept() == (Kept {
                conclusion: Some(conclusion_of(outcome)),
                ..old(self).kept()
            }),
    {
        self.result = Some(
            match outcome {
                Outcome::Success { msk, emsk: _, issued_mat } => AuthResult::Success {
                    msk,
                    issued_mat,
                },
                Outcome::Failure(reason) => AuthResult::Failure(reason),
            },
        );
    }
}

/// A driver error never ends in success, and keeps the response that waited.
pub proof fn law_driver_error_fails_closed(k: Kept, e: DriverError)
    ensures
        absorbed(k, Err(e)).conclusion == Some(Conclusion::Failure(Reason::ServerFailure)),
        absorbed(k, Err(e)).response == k.response,
{
}

/// A session succeeds only on a driver step that reports success.
pub proof fn law_success_comes_from_the_driver(k: Kept, step: Result<DriverStep, DriverError>)
    requires
        k.conclusion is None,
        absorbed(k, step).conclusion matches Some(v) && v is Success,
    ensures
        step matches Ok(DriverStep::Finished { outcome, .. }) && outcome is Success,
{
}

/// A driver that finishes with success concludes the session with the master session key
/// and the ticket of that success, whatever they are. The extended key has no part in it,
/// nor has anything that the session kept before.
pub proof fn law_success_is_concluded_with_its_key(
    k: Kept,
    send: Option<Vec<u8>>,
    msk: SecretBytes,
    emsk: SecretBytes,
    issued_mat: Option<Vec<u8>>,
)
    ensures
        ({
            let step = Ok::<DriverStep, DriverError>(
                DriverStep::Finished { send, outcome: Outcome::Success { msk, emsk, issued_mat } },
            );
            absorbed(k, step).conclusion matches Some(Conclusion::Success(key, ticket)) && key == msk@
                && (ticket is Some <==> issued_mat is Some) && (issued_mat matches Some(t)
                ==> ticket == Some(t@))
        }),
{
}

/// What the host reads of a success is the driver's own: its master session key and its
/// ticket, in the conclusion itself.
pub proof fn law_host_reads_the_key_and_the_ticket<D: TeapStep>(
    s: &mut PeerSession<D>,
    send: Option<Vec<u8>>,
    msk: SecretBytes,
    emsk: SecretBytes,
    issued_mat: Option<Vec<u8>>,
    a: ProcessAction,
    r: Option<&AuthResult>,
)
    requires
        call_ensures(
            PeerSession::<D>::absorb,
            (
                s,
                Ok::<DriverStep, DriverError>(
                    DriverStep::Finished {
                        send,
                        outcome: Outcome::Success { msk, emsk, issued_mat },
                    },
                ),
            ),
            a,
        ),
        call_ensures(PeerSession::<D>::result, (&*final(s),), r),
    ensures
        a == ProcessAction::Finished,
        r matches Some(AuthResult::Success { msk: key, issued_mat: ticket }) && key@ == msk@ && (
        issued_mat is None ==> ticket is None) && (issued_mat matches Some(t) ==> (
        ticket matches Some(u) && u@ == t@)),
{
}

/// A driver that finishes with a failure concludes the session with that failure, for the
/// reason that it gave.
pub proof fn law_failure_is_concluded_with_its_reason<D: TeapStep>(
    s: &mut PeerSession<D>,
    send: Option<Vec<u8>>,
    reason: FailReason,
    a: ProcessAction,
    r: Option<&AuthResult>,
)
    requires
        call_ensures(
            PeerSession::<D>::absorb,
            (
                s,
                Ok::<DriverStep, DriverError>(
                    DriverStep::Finished { send, outcome: Outcome::Failure(reason) },
                ),
            ),
            a,
        ),
        call_ensures(PeerSession::<D>::result, (&*final(s),), r),
    ensures
        a == ProcessAction::Finished,
        reason is ServerFailure ==> (r matches Some(AuthResult::Failure(FailReason::ServerFailure))),
        reason matches FailReason::Other(t) ==> (r matches Some(
            AuthResult::Failure(FailReason::Other(u)),
        ) && u@ == t@),
{
}

/// A driver error concludes the session with the server's refusal, whatever the error is.
pub proof fn law_error_is_concluded_as_failure<D: TeapStep>(
    s: &mut PeerSession<D>,
    e: DriverError,
    a: ProcessAction,
    r: Option<&AuthResult>,
)
    requires
        call_ensures(
            PeerSession::<D>::absorb,
            (s, Err::<DriverStep, DriverError>(e)),
            a,
        ),
        call_ensures(PeerSession::<D>::result, (&*final(s),), r),
    ensures
        a == ProcessAction::Finished,
        r matches Some(AuthResult::Failure(FailReason::ServerFailure)),
        final(s).kept().response == old(s).kept().response,
{
}

/// A response goes on with the exchange and waits to be fetched in place of any other; it
/// concludes nothing. A final response waits as well; where there is none, the response
/// that waited stays.
pub proof fn law_last_response_waits<D: TeapStep>(
    s: &mut PeerSession<D>,
    step: Result<DriverStep, DriverError>,
    a: ProcessAction,
)
    requires
        call_ensures(PeerSession::<D>::absorb, (s, step), a),
    ensures
        step matches Ok(DriverStep::Respond(resp)) ==> {
            &&& a == ProcessAction::Respond
            &&& final(s).kept().response == Some(resp@)
            &&& final(s).kept().conclusion == old(s).kept().conclusion
        },
        !(step matches Ok(DriverStep::Respond(_))) ==> {
            &&& a == ProcessAction::Finished
            &&& final(s).kept().conclusion is Some
        },
        step matches Ok(DriverStep::Finished { send: Some(last), .. }) ==> final(s).kept().response
            == Some(last@),
        step matches Ok(DriverStep::Finished { send: None, .. }) ==> final(s).kept().response == old(
            s,
        ).kept().response,
        final(s).session_kind() == old(s).session_kind(),
        final(s).session_driver() == old(s).session_driver(),
{
}

/// One request is one step of the driver: where the driver can only give `step`, the
/// session takes in exactly that, and where it has concluded already, nothing.
pub proof fn law_request_is_one_driver_step<D: TeapStep>(
    s: &mut PeerSession<D>,
    eap_request: &[u8],
    step: Result<DriverStep, DriverError>,
    a: ProcessAction,
)
    requires
        call_ensures(PeerSession::<D>::process, (s, eap_request), a),
        forall|d: &mut D, given: Result<DriverStep, DriverError>| #[trigger]
            call_ensures(D::step, (d, eap_request), given) && *d == old(s).session_driver()
                ==> given == step,
    ensures
        old(s).kept().conclusion is Some ==> *final(s) == *old(s) && a == ProcessAction::Finished,
        old(s).kept().conclusion is None ==> {
            &&& step matches Ok(DriverStep::Respond(resp)) ==> {
                &&& a == ProcessAction::Respond
                &&& final(s).kept().response == Some(resp@)
                &&& final(s).kept().conclusion is None
            }
            &&& step matches Ok(
                DriverStep::Finished { outcome: Outcome::Success { msk, issued_mat, .. }, .. },
            ) ==> {
                &&& a == ProcessAction::Finished
                &&& final(s).kept().conclusion matches Some(Conclusion::Success(key, ticket))
                    && key == msk@ && ticket == match issued_mat {
                    Some(t) => Some(t@),
                    None => None,
                }
            }
            &&& step matches Ok(DriverStep::Finished { outcome: Outcome::Failure(reason), .. })
                ==> a == ProcessAction::Finished && final(s).kept().conclusion == Some(
                Conclusion::Failure(reason@),
            )
            &&& step is Err ==> a == ProcessAction::Finished && final(s).kept().conclusion == Some(
                Conclusion::Failure(Reason::ServerFailure),
            )
        },
        final(s).session_kind() == old(s).session_kind(),
{
}

/// A response is fetched once: what waits comes out as it is, and then nothing waits. The
/// length told before is the length of what comes out.
pub proof fn law_response_is_fetched_once<D: TeapStep>(
    s: &mut PeerSession<D>,
    len: Option<usize>,
    r: Option<Vec<u8>>,
    again: &mut PeerSession<D>,
    q: Option<Vec<u8>>,
)
    requires
        call_ensures(PeerSession::<D>::response_len, (&*old(s),), len),
        call_ensures(PeerSession::<D>::take_response, (s,), r),
        *old(again) == *final(s),
        call_ensures(PeerSession::<D>::take_response, (again,), q),
    ensures
        old(s).kept().response is Some <==> r is Some,
        r matches Some(v) ==> old(s).kept().response == Some(v@) && len == Some(v@.len() as usize),
        r is None ==> len is None,
        q is None,
        final(again).kept().conclusion == old(s).kept().conclusion,
        final(s).session_kind() == old(s).session_kind(),
        final(s).session_driver() == old(s).session_driver(),
{
}

/// A session has concluded exactly if there is a result to read. A new one has neither a
/// result nor a response, and authenticates the identity that it was begun for.
pub proof fn law_new_session_has_not_concluded<D: TeapStep>(
    kind: SessionKind,
    driver: D,
    s: PeerSession<D>,
    of: SessionKind,
    t: PeerSession<D>,
    r: Option<&AuthResult>,
    finished: bool,
)
    requires
        call_ensures(PeerSession::<D>::new, (kind, driver), s),
        call_ensures(PeerSession::<D>::kind, (&s,), of),
        call_ensures(PeerSession::<D>::result, (&t,), r),
        call_ensures(PeerSession::<D>::is_finished, (&t,), finished),
    ensures
        of == kind,
        s.session_driver() == driver,
        s.kept().response is None,
        s.kept().conclusion is None,
        finished <==> r is Some,
        t.kept() == s.kept() ==> !finished,
{
}

/// Whether the tunnel is established is the driver's own answer.
pub proof fn law_driver_says_whether_established<D: TeapStep>(s: PeerSession<D>, says: bool, r: bool)
    requires
        call_ensures(PeerSession::<D>::tunnel_established, (&s,), r),
        forall|b: bool| #[trigger]
            call_ensures(D::tunnel_established, (&s.session_driver(),), b) ==> b == says,
    ensures
        r == says,
{
}

/// A second conclusion holds the same key and ticket, or the same reason.
pub proof fn law_duplicate_holds_the_same(a: AuthResult, b: AuthResult)
    requires
        call_ensures(AuthResult::duplicate, (&a,), b),
    ensures
        a matches AuthResult::Success { msk, issued_mat } ==> (b matches AuthResult::Success {
            msk: key,
            issued_mat: ticket,
        } && key@ == msk@ && (issued_mat is None ==> ticket is None) && (issued_mat matches Some(t)
            ==> (ticket matches Some(u) && u@ == t@))),
        a matches AuthResult::Failure(FailReason::ServerFailure) ==> (
        b matches AuthResult::Failure(FailReason::ServerFailure)),
        a matches AuthResult::Failure(FailReason::Other(t)) ==> (b matches AuthResult::Failure(
            FailReason::Other(u),
        ) && u@ == t@),
{
}

} // verus!
