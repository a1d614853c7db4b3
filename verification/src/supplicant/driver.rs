//! The outer TEAP driver: it takes decoded EAP requests and says what to answer.
//!
//! 1. TEAP Start begins the TLS 1.3 handshake.
//! 2. The handshake feeds reassembled TLS messages to the tunnel and emits each
//!    flight; on completion the parameter guard is enforced and the key-schedule
//!    seed is derived.
//! 3. Phase 2 decrypts inbound TLVs, hands them to the session, and encrypts its
//!    replies, until the session reports a result, which EAP-Success confirms.
//!
//! The outer tunnel is server-authenticated only; the certificate authentication
//! happens in the inner method.
use crate::fips_tls::backend::{
    client_config, ClientAuth, TeapTlsClient, TLS_BUFFER_LIMIT,
};
use crate::fips_tls::error::FipsTlsError;
use crate::fips_tls::mac::AwsLcMac;
use crate::fips_tls::secret::SecretBytes;
use crate::supplicant::error::DriverError;
use crate::supplicant::framing::{EapCode, EapPacket, TeapOuter, TEAP_EAP_TYPE, TEAP_VERSION};
use crate::text::joined;
use rustls::{ClientConnection, RootCertStore};
use std::collections::VecDeque;
use vstd::prelude::*;
use vstd::string::StringExecFns;

verus! {

/// Largest reassembled TLS message that is accepted.
pub const MAX_TLS_MESSAGE: usize = 262144;

/// Cap on handshake messages, against a server that never completes.
pub const MAX_HANDSHAKE_ROUNDS: usize = 64;

/// Which identity a session authenticates.
#[derive(Debug, Clone, Copy, PartialEq, Eq, Structural)]
pub enum Identity {
    /// The machine certificate.
    Machine,
    /// The user certificate.
    User,
}

impl Identity {
    /// The identity's name.
    pub open spec fn name(self) -> Seq<char> {
        match self {
            Identity::Machine => "Machine"@,
            Identity::User => "User"@,
        }
    }
}

/// Why an authentication failed.
#[derive(Debug, Clone, PartialEq, Eq)]
pub enum FailReason {
    /// The server, or the network, refused.
    ServerFailure,
    /// Any other reason that the session reported, in its own words.
    Other(String),
}

/// The result of an authentication.
#[derive(Debug, PartialEq, Eq)]
pub enum Outcome {
    /// It succeeded.
    Success {
        /// The master session key for the port keys; scrubbed on drop.
        msk: SecretBytes,
        /// The extended master session key; scrubbed on drop.
        emsk: SecretBytes,
        /// The ticket that the server issued, if any.
        issued_mat: Option<Vec<u8>>,
    },
    /// It failed.
    Failure(FailReason),
}

/// Static driver configuration.
#[derive(Debug, Clone)]
pub struct DriverConfig {
    /// Which identity this session authenticates.
    pub identity: Identity,
    /// Expected EAP-server name (validated against its certificate).
    pub server_name: String,
    /// SMI Private Enterprise Number for the ticket's Vendor-Specific TLV.
    pub mat_vendor_id: u32,
    /// For a user session: the stored ticket to present in the tunnel.
    pub mat_to_present: Option<Vec<u8>>,
    /// Largest TLS-fragment payload per TEAP message.
    pub max_fragment: usize,
}

/// One step of a driver, as a host sees it.
#[derive(Debug)]
pub enum DriverStep {
    /// Send these EAP response bytes; the exchange continues.
    Respond(Vec<u8>),
    /// Terminal: send a final EAP response, if any, then act on the outcome.
    Finished {
        /// Final EAP bytes.
        send: Option<Vec<u8>>,
        /// The result.
        outcome: Outcome,
    },
}

/// Where an exchange stands.
#[derive(Debug, Clone, Copy, PartialEq, Eq, Structural)]
pub enum Phase {
    /// The server's Start is awaited.
    ExpectStart,
    /// The TLS handshake.
    Handshake,
    /// The protected TLV exchange.
    Phase2,
    /// A result was reported, or the server ended the exchange.
    Terminated,
}

impl Phase {
    /// The phase's name.
    pub open spec fn name(self) -> Seq<char> {
        match self {
            Phase::ExpectStart => "ExpectStart"@,
            Phase::Handshake => "Handshake"@,
            Phase::Phase2 => "Phase2"@,
            Phase::Terminated => "Terminated"@,
        }
    }
}

/// What to do next.
pub enum DriverAction {
    /// Parse the packet's type data as a TEAP message; report with
    /// [`TeapDriver::on_outer`].
    ParseOuter,
    /// Push that message to the reassembler (of at most [`MAX_TLS_MESSAGE`]
    /// octets); report with [`TeapDriver::on_message`].
    Reassemble,
    /// Split these octets into TEAP messages within the fragment budget; report
    /// with [`TeapDriver::send_fragments`].
    Fragment {
        /// The octets.
        message: Vec<u8>,
    },
    /// Send this message in an EAP response.
    Respond {
        /// The response's identifier.
        id: u8,
        /// The message.
        outer: TeapOuter,
    },
    /// Send a bare acknowledgement in an EAP response.
    Acknowledge {
        /// The response's identifier.
        id: u8,
        /// The version in the acknowledgement.
        version: u8,
    },
    /// Open the Phase-2 session with the inner method; report with
    /// [`TeapDriver::on_session_opened`].
    OpenSession {
        /// The seed of the key schedule.
        seed: SecretBytes,
        /// The MAC of the negotiated suite.
        mac: AwsLcMac,
    },
    /// Decode these octets as TLVs and step the session with them; report with
    /// [`TeapDriver::on_session_step`].
    Exchange {
        /// The decrypted octets.
        plaintext: Vec<u8>,
    },
    /// The exchange is over.
    Finished {
        /// The result.
        outcome: Outcome,
    },
}

/// What a step of the Phase-2 session gave.
pub enum SessionReply {
    /// Send these encoded TLVs and go on.
    Continue(Vec<u8>),
    /// Send these encoded TLVs; the session is over.
    Done {
        /// The encoded TLVs.
        send: Vec<u8>,
        /// The result, pending the server's confirmation.
        outcome: Outcome,
    },
}

/// Where a driver stands, as mathematical values.
#[verifier::ext_equal]
pub struct DriverState {
    /// The phase.
    pub phase: Phase,
    /// The TEAP messages that wait for an acknowledgement to be sent.
    pub queue: Seq<TeapOuter>,
    /// The final handshake flight, kept while the session is being opened.
    pub opening: Option<Seq<u8>>,
    /// The result that waits for the server's confirmation.
    pub pending: Option<Outcome>,
    /// The identifier of the last request.
    pub last_id: u8,
    /// How many handshake messages came in.
    pub rounds: usize,
    /// The inner method was not handed out yet.
    pub inner_unused: bool,
}

/// Where a driver stands in the beginning.
pub open spec fn first_state() -> DriverState {
    DriverState {
        phase: Phase::ExpectStart,
        queue: Seq::empty(),
        opening: None,
        pending: None,
        last_id: 0,
        rounds: 0,
        inner_unused: true,
    }
}

/// What a driver answers to a decoded packet, as mathematical values.
pub enum PacketAnswer {
    /// Parse the type data.
    ParseOuter,
    /// The exchange is over.
    Finished(Outcome),
    /// The packet is refused.
    Refused(Seq<char>),
}

/// What a decoded packet does to a driver. EAP-Failure is authoritative and
/// discards a pending success; EAP-Success only confirms a pending result.
pub open spec fn packet_next(s: DriverState, code: EapCode, id: u8, type_: Option<u8>) -> (
    DriverState,
    PacketAnswer,
) {
    match code {
        EapCode::Failure => (
            DriverState { phase: Phase::Terminated, pending: None, opening: None, ..s },
            PacketAnswer::Finished(Outcome::Failure(FailReason::ServerFailure)),
        ),
        EapCode::Success => (
            DriverState { phase: Phase::Terminated, pending: None, opening: None, ..s },
            match s.pending {
                Some(outcome) => PacketAnswer::Finished(outcome),
                None => PacketAnswer::Refused("EAP-Success before a result"@),
            },
        ),
        EapCode::Request => if type_ == Some(TEAP_EAP_TYPE) {
            (DriverState { last_id: id, ..s }, PacketAnswer::ParseOuter)
        } else {
            (s, PacketAnswer::Refused("inner EAP type is not TEAP"@))
        },
        _ => (s, PacketAnswer::Refused("unexpected EAP code from server"@)),
    }
}

/// `r` is the answer.
pub open spec fn answers(r: Result<DriverAction, DriverError>, answer: PacketAnswer) -> bool {
    match answer {
        PacketAnswer::ParseOuter => r matches Ok(DriverAction::ParseOuter),
        PacketAnswer::Finished(o) => r matches Ok(DriverAction::Finished { outcome }) && outcome
            == o,
        PacketAnswer::Refused(m) => refused(r, m),
    }
}

/// `r` is a protocol violation with this message.
pub open spec fn refused(r: Result<DriverAction, DriverError>, m: Seq<char>) -> bool {
    r matches Err(DriverError::Protocol(t)) && t@ == m
}

/// `r` asks to fragment these octets.
pub open spec fn fragments(r: Result<DriverAction, DriverError>, octets: Seq<u8>) -> bool {
    r matches Ok(DriverAction::Fragment { message }) && message@ == octets
}

/// The count of handshake messages after one more.
pub open spec fn next_round(rounds: usize) -> usize {
    if rounds < usize::MAX {
        (rounds + 1) as usize
    } else {
        rounds
    }
}

/// What comes of a handshake whose tunnel stands as `before` stands: the next flight
/// while it is in progress; on completion the allow-list is enforced, the seed is
/// derived, and the session is asked for, once. The tunnel gives out its flight and
/// keeps all else; the guard passes exactly where the parameters are allowed.
pub open spec fn advanced(
    before: TeapTlsClient,
    after: TeapTlsClient,
    s: DriverState,
    t: DriverState,
    r: Result<DriverAction, DriverError>,
) -> bool {
    let conn = before.connection();
    let flight = crate::fips_tls::backend::outgoing(conn);
    let negotiated = crate::fips_tls::backend::negotiated(conn);
    let seed = crate::fips_tls::backend::exported(
        conn,
        crate::fips_tls::backend::seed_label(),
        crate::fips_tls::backend::SESSION_KEY_SEED_LEN as nat,
    );
    let completed = !crate::fips_tls::backend::handshaking(conn)
        && crate::fips_tls::backend::allowed(negotiated);
    &&& crate::fips_tls::backend::flushed(conn, after.connection())
    &&& after.guard_passed() == (before.guard_passed() || completed)
    &&& if crate::fips_tls::backend::handshaking(conn) {
        t == s && fragments(r, flight)
    } else if !crate::fips_tls::backend::allowed(negotiated) {
        t == s && (r matches Err(DriverError::Tls(e)) && crate::fips_tls::backend::refusal(
            negotiated,
            e,
        ))
    } else if seed is None {
        t == s && (r matches Err(DriverError::Tls(e)) && e is Rustls)
    } else if !s.inner_unused {
        t == s && refused(r, "inner method already used"@)
    } else {
        &&& t == (DriverState { opening: Some(flight), inner_unused: false, ..s })
        &&& r matches Ok(DriverAction::OpenSession { seed: out, mac }) && Some(out@) == seed
            && mac.hash == crate::fips_tls::mac::MacHash::Sha384
    }
}

/// What comes of a handshake message: the tunnel refuses it, or takes it in, and the
/// handshake is gone on with from where the tunnel then stands. An empty message is
/// not refused.
pub open spec fn handshake_step(
    before: TeapTlsClient,
    after: TeapTlsClient,
    message: Seq<u8>,
    s: DriverState,
    t: DriverState,
    r: Result<DriverAction, DriverError>,
) -> bool {
    if message.len() == 0 {
        advanced(before, after, s, t, r)
    } else {
        ||| {
            &&& t == s
            &&& r matches Err(DriverError::Tls(e)) && crate::fips_tls::backend::feed_error(
                crate::fips_tls::backend::fatal_error(before.connection()),
                crate::fips_tls::backend::fatal_error(after.connection()),
                e,
            )
            &&& crate::fips_tls::backend::grew(before.connection(), after.connection())
            &&& after.guard_passed() == before.guard_passed()
        }
        ||| exists|taken: TeapTlsClient|
            {
                &&& #[trigger] crate::fips_tls::backend::fed(
                    before.connection(),
                    message,
                    taken.connection(),
                )
                &&& taken.guard_passed() == before.guard_passed()
                &&& advanced(taken, after, s, t, r)
            }
    }
}

/// What comes of a message in Phase 2: the tunnel refuses it, or all that is then
/// decrypted goes to the session. An empty message is not refused.
pub open spec fn exchange_step(
    before: ClientConnection,
    after: ClientConnection,
    message: Seq<u8>,
    r: Result<DriverAction, DriverError>,
) -> bool {
    match r {
        Ok(DriverAction::Exchange { plaintext }) => if message.len() == 0 {
            &&& plaintext@ == crate::fips_tls::backend::received(before)
            &&& crate::fips_tls::backend::drained(before, after)
        } else {
            exists|c: ClientConnection|
                {
                    &&& #[trigger] crate::fips_tls::backend::fed(before, message, c)
                    &&& plaintext@ == crate::fips_tls::backend::received(c)
                    &&& crate::fips_tls::backend::drained(c, after)
                }
        },
        Ok(_) => false,
        Err(e) => message.len() > 0 && (e matches DriverError::Tls(x)
            && crate::fips_tls::backend::feed_error(
            crate::fips_tls::backend::fatal_error(before),
            crate::fips_tls::backend::fatal_error(after),
            x,
        ) && crate::fips_tls::backend::grew(before, after)),
    }
}

/// A queue after an acknowledgement: its first message goes out.
pub open spec fn acknowledged(queue: Seq<TeapOuter>) -> (Seq<TeapOuter>, TeapOuter) {
    (queue.skip(1), queue[0])
}

/// A queue after `n` acknowledgements.
pub open spec fn after_acknowledgements(queue: Seq<TeapOuter>, n: nat) -> Seq<TeapOuter>
    decreases n,
{
    if n == 0 {
        queue
    } else {
        acknowledged(after_acknowledgements(queue, (n - 1) as nat)).0
    }
}

/// The driver.
pub struct TeapDriver {
    cfg: DriverConfig,
    tunnel: TeapTlsClient,
    phase: Phase,
    out_queue: VecDeque<TeapOuter>,
    opening: Option<Vec<u8>>,
    pending: Option<Outcome>,
    last_id: u8,
    rounds: usize,
    inner_unused: bool,
}

impl TeapDriver {
    /// Where the driver stands.
    pub closed spec fn state(self) -> DriverState {
        DriverState {
            phase: self.phase,
            queue: self.out_queue@,
            opening: match self.opening {
                Some(f) => Some(f@),
                None => None,
            },
            pending: self.pending,
            last_id: self.last_id,
            rounds: self.rounds,
            inner_unused: self.inner_unused,
        }
    }

    /// The tunnel.
    pub closed spec fn outer_tunnel(self) -> TeapTlsClient {
        self.tunnel
    }

    /// On what terms the tunnel was made, and for which server.
    pub open spec fn terms(self) -> (crate::fips_tls::backend::ClientTerms, Seq<char>) {
        crate::fips_tls::backend::connection_terms(self.outer_tunnel().connection())
    }

    /// The configuration.
    pub closed spec fn configuration(self) -> DriverConfig {
        self.cfg
    }

    /// What always holds: the protected exchange, and any result of it, stand
    /// behind the parameter guard; the tunnel's buffers are capped, and its stream
    /// has not broken off.
    pub open spec fn wf(self) -> bool {
        let s = self.state();
        let conn = self.outer_tunnel().connection();
        &&& crate::fips_tls::backend::buffer_limit(conn) == Some(TLS_BUFFER_LIMIT)
        &&& !crate::fips_tls::backend::broken_off(conn)
        &&& s.phase == Phase::Phase2 ==> self.outer_tunnel().guard_passed()
        &&& s.pending is Some ==> s.phase == Phase::Terminated && self.outer_tunnel().guard_passed()
        &&& s.opening is Some ==> s.phase == Phase::Handshake && self.outer_tunnel().guard_passed()
            && !s.inner_unused
    }

    /// Build a driver. `roots` are the trust anchors for the EAP server.
    pub fn new(cfg: DriverConfig, roots: RootCertStore) -> (r: Result<Self, DriverError>)
        ensures
            match r {
                Ok(d) => {
                    &&& d.wf()
                    &&& d.configuration() == cfg
                    &&& d.state() == first_state()
                    &&& !d.outer_tunnel().guard_passed()
                    &&& crate::fips_tls::backend::is_new(d.outer_tunnel().connection())
                    &&& d.terms() == (
                        crate::fips_tls::backend::pinned(
                            crate::fips_tls::backend::store_anchors(roots),
                            ClientAuth::Anonymous,
                        ),
                        cfg.server_name@,
                    )
                },
                Err(e) => e matches DriverError::Tls(t) && if crate::fips_tls::backend::is_server_name(
                    cfg.server_name@,
                ) {
                    t is Rustls
                } else {
                    t == FipsTlsError::BadServerName
                },
            },
            !crate::fips_tls::backend::is_server_name(cfg.server_name@) ==> r is Err,
    {
        let config = match client_config(roots, ClientAuth::Anonymous) {
            Ok(c) => c,
            Err(e) => {
                return Err(DriverError::Tls(e));
            },
        };
        let tunnel: TeapTlsClient = match TeapTlsClient::connect(config, cfg.server_name.as_str()) {
            Ok(t) => t,
            Err(e) => {
                return Err(DriverError::Tls(e));
            },
        };
        let d: TeapDriver = TeapDriver {
            cfg,
            tunnel,
            phase: Phase::ExpectStart,
            out_queue: VecDeque::new(),
            opening: None,
            pending: None,
            last_id: 0,
            rounds: 0,
            inner_unused: true,
        };
        assert(d.state().queue =~= Seq::empty());
        Ok(d)
    }

    /// What may be shown of the driver: its identity and its phase, nothing of the
    /// tunnel or of a result.
    pub open spec fn redacted_text(self) -> Seq<char> {
        "TeapDriver { identity: "@ + self.configuration().identity.name() + ", phase: "@
            + self.state().phase.name() + ", .. }"@
    }

    /// What may be shown of the driver.
    pub fn redacted(&self) -> (t: String)
        ensures
            t@ == self.redacted_text(),
    {
        let identity: &'static str = match self.cfg.identity {
            Identity::Machine => "Machine",
            Identity::User => "User",
        };
        let phase: &'static str = match self.phase {
            Phase::ExpectStart => "ExpectStart",
            Phase::Handshake => "Handshake",
            Phase::Phase2 => "Phase2",
            Phase::Terminated => "Terminated",
        };
        let mut t: String = joined("TeapDriver { identity: ", identity, ", phase: ");
        t.append(phase);
        t.append(", .. }");
        t
    }

    /// The configuration.
    pub fn config(&self) -> (c: &DriverConfig)
        ensures
            *c == self.configuration(),
    {
        &self.cfg
    }

    /// Whether the tunnel is established (Phase 2 reached or terminated).
    pub fn is_established(&self) -> (r: bool)
        ensures
            r == (self.state().phase == Phase::Phase2 || self.state().phase == Phase::Terminated),
    {
        self.phase == Phase::Phase2 || self.phase == Phase::Terminated
    }

    /// Process one decoded EAP packet.
    pub fn step(&mut self, pkt: &EapPacket) -> (r: Result<DriverAction, DriverError>)
        requires
            old(self).wf(),
        ensures
            final(self).wf(),
            final(self).outer_tunnel() == old(self).outer_tunnel(),
            final(self).configuration() == old(self).configuration(),
            final(self).state() == packet_next(old(self).state(), pkt.code, pkt.id, pkt.type_).0,
            answers(r, packet_next(old(self).state(), pkt.code, pkt.id, pkt.type_).1),
    {
        match pkt.code {
            EapCode::Failure => {
                // Authoritative: the network denied us. A pending success (a late
                // refusal after our TLVs completed) is discarded.
                self.phase = Phase::Terminated;
                self.pending = None;
                self.opening = None;
                Ok(
                    DriverAction::Finished {
                        outcome: Outcome::Failure(FailReason::ServerFailure),
                    },
                )
            },
            EapCode::Success => {
                self.phase = Phase::Terminated;
                self.opening = None;
                match self.pending.take() {
                    Some(outcome) => Ok(DriverAction::Finished { outcome }),
                    None => Err(DriverError::Protocol("EAP-Success before a result")),
                }
            },
            EapCode::Request => self.on_request(pkt),
            EapCode::Response => Err(DriverError::Protocol("unexpected EAP code from server")),
            EapCode::Unknown(_) => Err(DriverError::Protocol("unexpected EAP code from server")),
        }
    }

    fn on_request(&mut self, pkt: &EapPacket) -> (r: Result<DriverAction, DriverError>)
        requires
            old(self).wf(),
            pkt.code == EapCode::Request,
        ensures
            final(self).wf(),
            final(self).outer_tunnel() == old(self).outer_tunnel(),
            final(self).configuration() == old(self).configuration(),
            final(self).state() == packet_next(old(self).state(), pkt.code, pkt.id, pkt.type_).0,
            answers(r, packet_next(old(self).state(), pkt.code, pkt.id, pkt.type_).1),
    {
        let is_teap: bool = match pkt.type_ {
            Some(t) => t == TEAP_EAP_TYPE,
            None => false,
        };
        if !is_teap {
            return Err(DriverError::Protocol("inner EAP type is not TEAP"));
        }
        self.last_id = pkt.id;
        Ok(DriverAction::ParseOuter)
    }

    /// Process the TEAP message of a request: whether it opens the exchange, and
    /// whether it is a bare acknowledgement.
    pub fn on_outer(&mut self, start: bool, is_ack: bool) -> (r: Result<DriverAction, DriverError>)
        requires
            old(self).wf(),
        ensures
            final(self).wf(),
            final(self).configuration() == old(self).configuration(),
            final(self).outer_tunnel().guard_passed() == old(self).outer_tunnel().guard_passed(),
            final(self).terms() == old(self).terms(),
            ({
                let s = old(self).state();
                let t = final(self).state();
                let same_tunnel = final(self).outer_tunnel() == old(self).outer_tunnel();
                if is_ack && s.queue.len() > 0 {
                    // An acknowledgement drives the outbound queue.
                    &&& same_tunnel
                    &&& t == (DriverState { queue: acknowledged(s.queue).0, ..s })
                    &&& r matches Ok(DriverAction::Respond { id, outer }) && id == s.last_id
                        && outer == acknowledged(s.queue).1
                } else {
                    match s.phase {
                        Phase::ExpectStart => if start {
                            &&& t == (DriverState { phase: Phase::Handshake, ..s })
                            &&& crate::fips_tls::backend::flushed(
                                old(self).outer_tunnel().connection(),
                                final(self).outer_tunnel().connection(),
                            )
                            &&& fragments(
                                r,
                                crate::fips_tls::backend::outgoing(
                                    old(self).outer_tunnel().connection(),
                                ),
                            )
                        } else {
                            &&& same_tunnel
                            &&& t == s
                            &&& refused(r, "expected TEAP Start"@)
                        },
                        Phase::Handshake => {
                            &&& same_tunnel
                            &&& t == (DriverState { rounds: next_round(s.rounds), ..s })
                            &&& if next_round(s.rounds) > MAX_HANDSHAKE_ROUNDS {
                                refused(r, "handshake exceeded round limit"@)
                            } else {
                                r matches Ok(DriverAction::Reassemble)
                            }
                        },
                        Phase::Phase2 => same_tunnel && t == s && r matches Ok(
                            DriverAction::Reassemble,
                        ),
                        Phase::Terminated => same_tunnel && t == s && refused(
                            r,
                            "packet after terminal state"@,
                        ),
                    }
                }
            }),
    {
        if is_ack {
            if let Some(outer) = self.out_queue.pop_front() {
                assert(self.out_queue@ =~= old(self).out_queue@.skip(1));
                return Ok(DriverAction::Respond { id: self.last_id, outer });
            }
        }
        match self.phase {
            Phase::ExpectStart => {
                if !start {
                    return Err(DriverError::Protocol("expected TEAP Start"));
                }
                self.phase = Phase::Handshake;
                match self.tunnel.take_outgoing() {
                    Ok(client_hello) => Ok(DriverAction::Fragment { message: client_hello }),
                    Err(e) => Err(DriverError::Tls(e)),
                }
            },
            Phase::Handshake => {
                self.rounds = self.rounds.saturating_add(1);
                if self.rounds > MAX_HANDSHAKE_ROUNDS {
                    return Err(DriverError::Protocol("handshake exceeded round limit"));
                }
                Ok(DriverAction::Reassemble)
            },
            Phase::Phase2 => Ok(DriverAction::Reassemble),
            Phase::Terminated => Err(DriverError::Protocol("packet after terminal state")),
        }
    }

    /// Process what the reassembler gave: a whole TLS message, or `None` while
    /// fragments are missing. A message is fed to the tunnel, which may refuse it;
    /// a handshake is then gone on with from where the tunnel stands, and in Phase
    /// 2 all that was decrypted goes to the session.
    pub fn on_message(&mut self, message: Option<Vec<u8>>) -> (r: Result<DriverAction, DriverError>)
        requires
            old(self).wf(),
        ensures
            final(self).wf(),
            final(self).configuration() == old(self).configuration(),
            final(self).terms() == old(self).terms(),
            ({
                let s = old(self).state();
                let t = final(self).state();
                let before = old(self).outer_tunnel();
                let after = final(self).outer_tunnel();
                match s.phase {
                    Phase::ExpectStart => *final(self) == *old(self) && refused(
                        r,
                        "expected TEAP Start"@,
                    ),
                    Phase::Terminated => *final(self) == *old(self) && refused(
                        r,
                        "packet after terminal state"@,
                    ),
                    Phase::Handshake => match message {
                        None => *final(self) == *old(self) && (r matches Ok(
                            DriverAction::Acknowledge { id, version },
                        ) && id == s.last_id && version == TEAP_VERSION),
                        Some(m) => handshake_step(before, after, m@, s, t, r),
                    },
                    Phase::Phase2 => match message {
                        None => *final(self) == *old(self) && (r matches Ok(
                            DriverAction::Acknowledge { id, version },
                        ) && id == s.last_id && version == TEAP_VERSION),
                        Some(m) => t == s && after.guard_passed() && exchange_step(
                            before.connection(),
                            after.connection(),
                            m@,
                            r,
                        ),
                    },
                }
            }),
    {
        match self.phase {
            Phase::ExpectStart => {
                return Err(DriverError::Protocol("expected TEAP Start"));
            },
            Phase::Terminated => {
                return Err(DriverError::Protocol("packet after terminal state"));
            },
            _ => {},
        }
        let octets: Vec<u8> = match message {
            Some(m) => m,
            None => {
                // More fragments are needed.
                return Ok(DriverAction::Acknowledge { id: self.last_id, version: TEAP_VERSION });
            },
        };
        if self.phase == Phase::Handshake {
            match self.tunnel.feed_incoming(octets.as_slice()) {
                Err(e) => Err(DriverError::Tls(e)),
                Ok(()) => {
                    let ghost taken = self.tunnel;
                    assert(crate::fips_tls::backend::fed(
                        old(self).outer_tunnel().connection(),
                        octets@,
                        taken.connection(),
                    ));
                    self.advance_handshake()
                },
            }
        } else {
            match self.tunnel.unprotect(octets.as_slice()) {
                Err(e) => Err(DriverError::Tls(e)),
                Ok(plaintext) => Ok(DriverAction::Exchange { plaintext }),
            }
        }
    }

    /// Go on with a handshake from where the tunnel stands: emit the next flight
    /// while it is in progress; on completion keep the final flight, enforce the
    /// parameter guard, derive the seed, and ask for the session. The inner method
    /// is handed out once.
    pub fn advance_handshake(&mut self) -> (r: Result<DriverAction, DriverError>)
        requires
            old(self).wf(),
            old(self).state().phase == Phase::Handshake,
        ensures
            final(self).wf(),
            final(self).configuration() == old(self).configuration(),
            final(self).terms() == old(self).terms(),
            advanced(
                old(self).outer_tunnel(),
                final(self).outer_tunnel(),
                old(self).state(),
                final(self).state(),
                r,
            ),
    {
        let handshaking: bool = self.tunnel.is_handshaking();
        let flight: Vec<u8> = match self.tunnel.take_outgoing() {
            Ok(f) => f,
            Err(e) => {
                return Err(DriverError::Tls(e));
            },
        };
        if handshaking {
            return Ok(DriverAction::Fragment { message: flight });
        }
        match self.tunnel.finish_handshake() {
            Err(e) => {
                return Err(DriverError::Tls(e));
            },
            Ok(()) => {},
        }
        self.start_phase2(flight)
    }

    /// Derive the seed and the MAC, and hand out the inner method.
    fn start_phase2(&mut self, flight: Vec<u8>) -> (r: Result<DriverAction, DriverError>)
        requires
            old(self).wf(),
            old(self).state().phase == Phase::Handshake,
            old(self).outer_tunnel().guard_passed(),
            crate::fips_tls::backend::allowed(
                crate::fips_tls::backend::negotiated(old(self).outer_tunnel().connection()),
            ),
        ensures
            final(self).wf(),
            final(self).configuration() == old(self).configuration(),
            final(self).outer_tunnel() == old(self).outer_tunnel(),
            ({
                let s = old(self).state();
                let t = final(self).state();
                let seed = crate::fips_tls::backend::exported(
                    old(self).outer_tunnel().connection(),
                    crate::fips_tls::backend::seed_label(),
                    crate::fips_tls::backend::SESSION_KEY_SEED_LEN as nat,
                );
                if seed is None {
                    t == s && (r matches Err(DriverError::Tls(e)) && e is Rustls)
                } else if !s.inner_unused {
                    t == s && refused(r, "inner method already used"@)
                } else {
                    &&& t == (DriverState { opening: Some(flight@), inner_unused: false, ..s })
                    &&& r matches Ok(DriverAction::OpenSession { seed: out, mac }) && Some(out@)
                        == seed && mac.hash == crate::fips_tls::mac::MacHash::Sha384
                }
            }),
    {
        let seed: SecretBytes = match self.tunnel.session_key_seed() {
            Ok(s) => s,
            Err(e) => {
                return Err(DriverError::Tls(e));
            },
        };
        let mac: AwsLcMac = match self.tunnel.negotiated_mac() {
            Ok(m) => m,
            Err(e) => {
                return Err(DriverError::Tls(e));
            },
        };
        if !self.inner_unused {
            return Err(DriverError::Protocol("inner method already used"));
        }
        self.inner_unused = false;
        self.opening = Some(flight);
        Ok(DriverAction::OpenSession { seed, mac })
    }

    /// Process whether the session took the seed: Phase 2 begins with the final
    /// handshake flight, or the exchange stops.
    pub fn on_session_opened(&mut self, accepted: bool) -> (r: Result<DriverAction, DriverError>)
        requires
            old(self).wf(),
        ensures
            final(self).wf(),
            final(self).configuration() == old(self).configuration(),
            final(self).outer_tunnel() == old(self).outer_tunnel(),
            ({
                let s = old(self).state();
                let t = final(self).state();
                match s.opening {
                    None => t == s && refused(r, "no session"@),
                    Some(flight) => if accepted {
                        t == (DriverState { opening: None, phase: Phase::Phase2, ..s })
                            && fragments(r, flight)
                    } else {
                        t == (DriverState { opening: None, ..s }) && refused(
                            r,
                            "session key seed rejected"@,
                        )
                    },
                }
            }),
    {
        match self.opening.take() {
            None => Err(DriverError::Protocol("no session")),
            Some(flight) => {
                if !accepted {
                    return Err(DriverError::Protocol("session key seed rejected"));
                }
                self.phase = Phase::Phase2;
                Ok(DriverAction::Fragment { message: flight })
            },
        }
    }

    /// Process what the session gave: encrypt its TLVs, which succeeds in Phase 2 if
    /// the tunnel takes them all; a result waits for the server's confirmation.
    pub fn on_session_step(&mut self, reply: SessionReply) -> (r: Result<DriverAction, DriverError>)
        requires
            old(self).wf(),
        ensures
            final(self).wf(),
            final(self).terms() == old(self).terms(),
            final(self).configuration() == old(self).configuration(),
            ({
                let s = old(self).state();
                let t = final(self).state();
                let tlvs = match reply {
                    SessionReply::Continue(send) => send@,
                    SessionReply::Done { send, .. } => send@,
                };
                let before = old(self).outer_tunnel();
                let after = final(self).outer_tunnel();
                if s.phase != Phase::Phase2 {
                    *final(self) == *old(self) && refused(r, "no session"@)
                } else {
                    &&& after.guard_passed()
                    &&& crate::fips_tls::backend::unread(before.connection(), after.connection())
                    &&& r is Ok <==> crate::fips_tls::backend::write_accepted(
                        before.connection(),
                        tlvs,
                    )
                    &&& match r {
                        Err(e) => t == s && (e matches DriverError::Tls(x) && x
                            == crate::fips_tls::backend::byte_error(
                            crate::fips_tls::backend::fatal_error(before.connection()),
                        )),
                        Ok(_) => {
                            &&& crate::fips_tls::backend::sent(
                                before.connection(),
                                tlvs,
                                after.connection(),
                            )
                            &&& fragments(
                                r,
                                crate::fips_tls::backend::outgoing_after_write(
                                    old(self).outer_tunnel().connection(),
                                    tlvs,
                                ),
                            )
                            &&& match reply {
                                SessionReply::Continue(_) => t == s,
                                SessionReply::Done { outcome, .. } => t == (DriverState {
                                    phase: Phase::Terminated,
                                    pending: Some(outcome),
                                    ..s
                                }),
                            }
                        },
                    }
                }
            }),
    {
        if self.phase != Phase::Phase2 {
            return Err(DriverError::Protocol("no session"));
        }
        match reply {
            SessionReply::Continue(send) => self.protect_tlvs(send.as_slice()),
            SessionReply::Done { send, outcome } => {
                let r: Result<DriverAction, DriverError> = self.protect_tlvs(send.as_slice());
                if r.is_ok() {
                    self.phase = Phase::Terminated;
                    self.pending = Some(outcome);
                }
                r
            },
        }
    }

    /// Encrypt encoded TLVs and ask for their fragments.
    fn protect_tlvs(&mut self, tlvs: &[u8]) -> (r: Result<DriverAction, DriverError>)
        requires
            old(self).wf(),
            old(self).state().phase == Phase::Phase2,
        ensures
            final(self).wf(),
            final(self).configuration() == old(self).configuration(),
            final(self).state() == old(self).state(),
            final(self).outer_tunnel().guard_passed(),
            crate::fips_tls::backend::unread(
                old(self).outer_tunnel().connection(),
                final(self).outer_tunnel().connection(),
            ),
            r is Ok <==> crate::fips_tls::backend::write_accepted(
                old(self).outer_tunnel().connection(),
                tlvs@,
            ),
            match r {
                Err(e) => e matches DriverError::Tls(x) && x == crate::fips_tls::backend::byte_error(
                    crate::fips_tls::backend::fatal_error(
                        old(self).outer_tunnel().connection(),
                    ),
                ),
                Ok(_) => crate::fips_tls::backend::sent(
                    old(self).outer_tunnel().connection(),
                    tlvs@,
                    final(self).outer_tunnel().connection(),
                ) && fragments(
                    r,
                    crate::fips_tls::backend::outgoing_after_write(
                        old(self).outer_tunnel().connection(),
                        tlvs@,
                    ),
                ),
            },
    {
        match self.tunnel.protect(tlvs) {
            Err(e) => Err(DriverError::Tls(e)),
            Ok(ciphertext) => Ok(DriverAction::Fragment { message: ciphertext }),
        }
    }

    /// Send a fragmented message: its first piece now, the others one by one as
    /// they are acknowledged. A message without pieces is a bare acknowledgement.
    pub fn send_fragments(&mut self, pieces: Vec<TeapOuter>) -> (r: DriverAction)
        requires
            old(self).wf(),
        ensures
            final(self).wf(),
            final(self).configuration() == old(self).configuration(),
            final(self).outer_tunnel() == old(self).outer_tunnel(),
            ({
                let s = old(self).state();
                let t = final(self).state();
                if pieces@.len() == 0 {
                    &&& t == (DriverState { queue: Seq::empty(), ..s })
                    &&& r matches DriverAction::Acknowledge { id, version } && id == s.last_id
                        && version == TEAP_VERSION
                } else {
                    &&& t == (DriverState { queue: pieces@.skip(1), ..s })
                    &&& r matches DriverAction::Respond { id, outer } && id == s.last_id
                        && outer == pieces@[0]
                }
            }),
    {
        let mut queue: VecDeque<TeapOuter> = queue_of(pieces);
        let first: Option<TeapOuter> = queue.pop_front();
        self.out_queue = queue;
        match first {
            Some(outer) => {
                assert(self.out_queue@ =~= pieces@.skip(1));
                DriverAction::Respond { id: self.last_id, outer }
            },
            None => {
                assert(self.out_queue@ =~= Seq::empty());
                DriverAction::Acknowledge { id: self.last_id, version: TEAP_VERSION }
            },
        }
    }
}

/// The messages in a queue, in order.
pub(crate) fn queue_of(pieces: Vec<TeapOuter>) -> (q: VecDeque<TeapOuter>)
    ensures
        q@ == pieces@,
{
    let mut rest: Vec<TeapOuter> = pieces;
    let mut q: VecDeque<TeapOuter> = VecDeque::new();
    assert(rest@ + q@ =~= pieces@);
    while rest.len() > 0
        invariant
            rest@ + q@ == pieces@,
        decreases rest@.len(),
    {
        let ghost before = rest@ + q@;
        let last: Option<TeapOuter> = rest.pop();
        if let Some(message) = last {
            q.push_front(message);
        }
        assert(rest@ + q@ =~= before);
    }
    assert(rest@ + q@ =~= q@);
    q
}

/// The pieces of a message go out in order: the first at once, and each
/// acknowledgement sends the next, until none is left.
pub proof fn law_pieces_go_out_in_order(pieces: Seq<TeapOuter>, n: nat)
    requires
        n < pieces.len(),
    ensures
        after_acknowledgements(pieces.skip(1), n) == pieces.skip(n as int + 1),
        n + 1 < pieces.len() ==> acknowledged(after_acknowledgements(pieces.skip(1), n)).1
            == pieces[n as int + 1],
        n + 1 == pieces.len() ==> after_acknowledgements(pieces.skip(1), n).len() == 0,
    decreases n,
{
    if n > 0 {
        law_pieces_go_out_in_order(pieces, (n - 1) as nat);
        assert(pieces.skip(n as int).skip(1) =~= pieces.skip(n as int + 1));
    }
}

/// After EAP-Failure no success can be reported any more: a following EAP-Success
/// is refused, whatever was pending before.
pub proof fn law_failure_discards_success(s: DriverState, id: u8, type_: Option<u8>, id2: u8, type2: Option<u8>)
    ensures
        ({
            let t = packet_next(s, EapCode::Failure, id, type_).0;
            packet_next(t, EapCode::Success, id2, type2).1 == PacketAnswer::Refused(
                "EAP-Success before a result"@,
            )
        }),
        packet_next(s, EapCode::Failure, id, type_).1 == PacketAnswer::Finished(
            Outcome::Failure(FailReason::ServerFailure),
        ),
{
}

/// Success is only ever reported on EAP-Success, as the result that the session had
/// reached, and behind the parameter guard.
pub proof fn law_success_stands_behind_the_guard(
    d: TeapDriver,
    code: EapCode,
    id: u8,
    type_: Option<u8>,
)
    requires
        d.wf(),
        packet_next(d.state(), code, id, type_).1 matches PacketAnswer::Finished(o) && o is Success,
    ensures
        code == EapCode::Success,
        d.state().pending matches Some(p) && packet_next(d.state(), code, id, type_).1
            == PacketAnswer::Finished(p),
        d.outer_tunnel().guard_passed(),
{
}

/// A result is confirmed once: a second EAP-Success is refused.
pub proof fn law_result_is_reported_once(s: DriverState, id: u8, type_: Option<u8>, id2: u8, type2: Option<u8>)
    ensures
        ({
            let t = packet_next(s, EapCode::Success, id, type_).0;
            packet_next(t, EapCode::Success, id2, type2).1 == PacketAnswer::Refused(
                "EAP-Success before a result"@,
            )
        }),
{
}

/// A pending result, whatever it is, is what EAP-Success reports: a success with or
/// without a ticket, and a failure, come out as the session gave them.
pub proof fn law_pending_result_is_reported(s: DriverState, o: Outcome, id: u8, type_: Option<u8>)
    requires
        s.pending == Some(o),
    ensures
        packet_next(s, EapCode::Success, id, type_).1 == PacketAnswer::Finished(o),
        packet_next(s, EapCode::Success, id, type_).0.pending is None,
        packet_next(s, EapCode::Success, id, type_).0.phase == Phase::Terminated,
{
}

/// A driver with a pending result answers EAP-Success with that result, and is done.
pub proof fn law_driver_reports_its_result(
    d: &mut TeapDriver,
    o: Outcome,
    pkt: &EapPacket,
    r: Result<DriverAction, DriverError>,
)
    requires
        call_ensures(TeapDriver::step, (d, pkt), r),
        old(d).state().pending == Some(o),
        pkt.code == EapCode::Success,
    ensures
        r matches Ok(DriverAction::Finished { outcome }) && outcome == o,
        final(d).state().pending is None,
        final(d).state().phase == Phase::Terminated,
{
}

/// Without a pending result EAP-Success is refused, and ends the exchange.
pub proof fn law_unearned_success_is_refused(
    d: &mut TeapDriver,
    pkt: &EapPacket,
    r: Result<DriverAction, DriverError>,
)
    requires
        call_ensures(TeapDriver::step, (d, pkt), r),
        old(d).state().pending is None,
        pkt.code == EapCode::Success,
    ensures
        r matches Err(DriverError::Protocol(m)) && m@ == "EAP-Success before a result"@,
        final(d).state().phase == Phase::Terminated,
        final(d).state().pending is None,
{
}

/// EAP-Failure is authoritative: whatever the driver was doing, the exchange is over
/// with the server's refusal, and nothing is pending any more.
pub proof fn law_failure_is_authoritative(
    d: &mut TeapDriver,
    pkt: &EapPacket,
    r: Result<DriverAction, DriverError>,
)
    requires
        call_ensures(TeapDriver::step, (d, pkt), r),
        pkt.code == EapCode::Failure,
    ensures
        r matches Ok(DriverAction::Finished { outcome }) && outcome == Outcome::Failure(
            FailReason::ServerFailure,
        ),
        final(d).state().phase == Phase::Terminated,
        final(d).state().pending is None,
        final(d).state().opening is None,
{
}

/// Every request of TEAP, whose EAP type is 55, is taken and its identifier kept for the
/// response. A request of another type, a response and an unknown code are refused. None
/// of them touches the phase, the queue, the count of rounds or a pending result.
pub proof fn law_requests_of_teap_are_taken(
    d: &mut TeapDriver,
    pkt: &EapPacket,
    r: Result<DriverAction, DriverError>,
)
    requires
        call_ensures(TeapDriver::step, (d, pkt), r),
        pkt.code != EapCode::Success,
        pkt.code != EapCode::Failure,
    ensures
        pkt.code == EapCode::Request && pkt.type_ == Some(55u8) ==> (r matches Ok(
            DriverAction::ParseOuter,
        )) && final(d).state().last_id == pkt.id,
        pkt.code == EapCode::Request && pkt.type_ != Some(55u8) ==> (r matches Err(
            DriverError::Protocol(m),
        ) && m@ == "inner EAP type is not TEAP"@) && final(d).state().last_id == old(
            d,
        ).state().last_id,
        pkt.code != EapCode::Request ==> (r matches Err(DriverError::Protocol(m)) && m@
            == "unexpected EAP code from server"@) && final(d).state().last_id == old(
            d,
        ).state().last_id,
        final(d).state().phase == old(d).state().phase,
        final(d).state().queue == old(d).state().queue,
        final(d).state().opening == old(d).state().opening,
        final(d).state().pending == old(d).state().pending,
        final(d).state().rounds == old(d).state().rounds,
        final(d).state().inner_unused == old(d).state().inner_unused,
{
}

/// A packet never moves the tunnel, the guard or the configuration: only TEAP messages do.
/// Only a request moves the identifier, and only EAP-Success and EAP-Failure end what was
/// being opened.
pub proof fn law_packets_leave_the_tunnel(
    d: &mut TeapDriver,
    pkt: &EapPacket,
    r: Result<DriverAction, DriverError>,
)
    requires
        call_ensures(TeapDriver::step, (d, pkt), r),
    ensures
        final(d).outer_tunnel() == old(d).outer_tunnel(),
        final(d).configuration() == old(d).configuration(),
        final(d).state().queue == old(d).state().queue,
        final(d).state().rounds == old(d).state().rounds,
        final(d).state().inner_unused == old(d).state().inner_unused,
        pkt.code != EapCode::Request ==> final(d).state().last_id == old(d).state().last_id,
        pkt.code == EapCode::Success || pkt.code == EapCode::Failure
            ==> final(d).state().opening is None,
{
}

/// The pieces of a message go out whole and in order: the first at once, and the n-th
/// acknowledgement after it is answered with exactly the n-th following piece, under the
/// identifier of the request that brought it, until none is left. Nothing else of where
/// the driver stands moves by it. Acknowledgement `i` is a request that the driver takes
/// as `requested[i]`, and a bare acknowledgement in it that it takes as `acked[i]`.
pub proof fn law_acknowledgements_bring_the_pieces(
    d: &mut TeapDriver,
    pieces: Vec<TeapOuter>,
    first: DriverAction,
    requested: Seq<&mut TeapDriver>,
    pkts: Seq<&EapPacket>,
    qs: Seq<Result<DriverAction, DriverError>>,
    acked: Seq<&mut TeapDriver>,
    starts: Seq<bool>,
    rs: Seq<Result<DriverAction, DriverError>>,
    n: int,
)
    requires
        call_ensures(TeapDriver::send_fragments, (d, pieces), first),
        requested.len() == rs.len(),
        acked.len() == rs.len(),
        forall|i: int|
            0 <= i < rs.len() ==> {
                &&& call_ensures(TeapDriver::step, (#[trigger] requested[i], pkts[i]), qs[i])
                &&& pkts[i].code == EapCode::Request
                &&& pkts[i].type_ == Some(55u8)
                &&& *requested[i] == if i == 0 {
                    *final(d)
                } else {
                    *final(acked[i - 1])
                }
                &&& *acked[i] == *final(requested[i])
                &&& call_ensures(TeapDriver::on_outer, (acked[i], starts[i], true), rs[i])
            },
        0 < n <= rs.len(),
        n < pieces@.len(),
    ensures
        first matches DriverAction::Respond { id, outer } && id == old(d).state().last_id && outer
            == pieces@[0],
        rs[n - 1] matches Ok(DriverAction::Respond { id, outer }) && id == pkts[n - 1].id && outer
            == pieces@[n],
        final(acked[n - 1]).state().queue == pieces@.skip(n + 1),
        final(acked[n - 1]).state().phase == old(d).state().phase,
        final(acked[n - 1]).state().pending == old(d).state().pending,
        final(acked[n - 1]).state().rounds == old(d).state().rounds,
        final(acked[n - 1]).outer_tunnel() == old(d).outer_tunnel(),
    decreases n,
{
    if n > 1 {
        law_acknowledgements_bring_the_pieces(
            d,
            pieces,
            first,
            requested,
            pkts,
            qs,
            acked,
            starts,
            rs,
            n - 1,
        );
    }
    assert(call_ensures(TeapDriver::step, (requested[n - 1], pkts[n - 1]), qs[n - 1]));
    assert(pieces@.skip(n).skip(1) =~= pieces@.skip(n + 1));
}

/// The first piece of a message goes out at once, under the last request's identifier, and
/// all others wait in place of any that waited before; nothing else moves.
pub proof fn law_first_piece_goes_out(d: &mut TeapDriver, pieces: Vec<TeapOuter>, r: DriverAction)
    requires
        call_ensures(TeapDriver::send_fragments, (d, pieces), r),
        pieces@.len() > 0,
    ensures
        r matches DriverAction::Respond { id, outer } && id == old(d).state().last_id && outer
            == pieces@[0],
        final(d).state() == (DriverState { queue: pieces@.skip(1), ..old(d).state() }),
        final(d).outer_tunnel() == old(d).outer_tunnel(),
        final(d).configuration() == old(d).configuration(),
{
}

/// A message without pieces is answered by a bare acknowledgement of TEAP version 1, and
/// leaves nothing waiting.
pub proof fn law_nothing_to_send_is_acknowledged(
    d: &mut TeapDriver,
    pieces: Vec<TeapOuter>,
    r: DriverAction,
)
    requires
        call_ensures(TeapDriver::send_fragments, (d, pieces), r),
        pieces@.len() == 0,
    ensures
        r matches DriverAction::Acknowledge { id, version } && id == old(d).state().last_id
            && version == 1,
        final(d).state() == (DriverState { queue: Seq::empty(), ..old(d).state() }),
{
}

/// The exchange opens with Start and with nothing else: before it, only a Start is
/// answered, with all that waits in the new tunnel, and moves the driver to the handshake.
pub proof fn law_start_opens_the_handshake(
    d: &mut TeapDriver,
    start: bool,
    is_ack: bool,
    r: Result<DriverAction, DriverError>,
)
    requires
        call_ensures(TeapDriver::on_outer, (d, start, is_ack), r),
        old(d).state().phase == Phase::ExpectStart,
        !is_ack || old(d).state().queue.len() == 0,
    ensures
        r is Ok <==> start,
        start ==> {
            &&& r matches Ok(DriverAction::Fragment { message }) && message@
                == crate::fips_tls::backend::outgoing(old(d).outer_tunnel().connection())
            &&& final(d).state() == (DriverState { phase: Phase::Handshake, ..old(d).state() })
            &&& crate::fips_tls::backend::outgoing(final(d).outer_tunnel().connection()).len() == 0
        },
        !start ==> final(d).state() == old(d).state() && final(d).outer_tunnel() == old(
            d,
        ).outer_tunnel() && (r matches Err(DriverError::Protocol(m)) && m@
            == "expected TEAP Start"@),
        final(d).state().rounds == old(d).state().rounds,
        final(d).state().pending == old(d).state().pending,
        final(d).state().inner_unused == old(d).state().inner_unused,
        final(d).outer_tunnel().guard_passed() == old(d).outer_tunnel().guard_passed(),
{
}

/// A handshake message is taken as long as fewer than 64 came before it, and each one
/// counts; the tunnel does not see it until it is reassembled.
pub proof fn law_handshake_messages_are_counted(
    d: &mut TeapDriver,
    start: bool,
    is_ack: bool,
    r: Result<DriverAction, DriverError>,
)
    requires
        call_ensures(TeapDriver::on_outer, (d, start, is_ack), r),
        old(d).state().phase == Phase::Handshake,
        !is_ack || old(d).state().queue.len() == 0,
    ensures
        old(d).state().rounds < 64 <==> r is Ok,
        r is Err ==> (r matches Err(DriverError::Protocol(m)) && m@
            == "handshake exceeded round limit"@),
        r is Ok ==> r matches Ok(DriverAction::Reassemble),
        old(d).state().rounds < 64 ==> final(d).state().rounds == old(d).state().rounds + 1,
        final(d).state().rounds >= old(d).state().rounds,
        final(d).state().last_id == old(d).state().last_id,
        final(d).state().phase == Phase::Handshake,
        final(d).state().queue == old(d).state().queue,
        final(d).state().opening == old(d).state().opening,
        final(d).state().pending == old(d).state().pending,
        final(d).state().inner_unused == old(d).state().inner_unused,
        final(d).outer_tunnel() == old(d).outer_tunnel(),
{
}

/// A server that never completes the handshake is cut off: of the messages of one
/// handshake the first 64 are taken, and no other. The driver takes message `i` as
/// `ds[i]`.
pub proof fn law_handshake_is_cut_off(
    ds: Seq<&mut TeapDriver>,
    starts: Seq<bool>,
    rs: Seq<Result<DriverAction, DriverError>>,
    n: int,
)
    requires
        ds.len() == rs.len(),
        ds[0].state().phase == Phase::Handshake,
        ds[0].state().rounds == 0,
        forall|i: int|
            0 <= i < rs.len() ==> {
                &&& call_ensures(TeapDriver::on_outer, (#[trigger] ds[i], starts[i], false), rs[i])
                &&& i > 0 ==> *ds[i] == *final(ds[i - 1])
            },
        0 <= n < rs.len(),
    ensures
        rs[n] is Ok <==> n < 64,
        ds[n].state().phase == Phase::Handshake,
        n <= 64 ==> ds[n].state().rounds == n,
        n > 64 ==> ds[n].state().rounds >= 64,
    decreases n,
{
    if n > 0 {
        law_handshake_is_cut_off(ds, starts, rs, n - 1);
        assert(call_ensures(TeapDriver::on_outer, (ds[n - 1], starts[n - 1], false), rs[n - 1]));
    }
    assert(call_ensures(TeapDriver::on_outer, (ds[n], starts[n], false), rs[n]));
}

/// In the protected exchange every message is reassembled, without limit, and a message
/// after the end is refused; neither moves the driver.
pub proof fn law_messages_after_the_handshake(
    d: &mut TeapDriver,
    start: bool,
    is_ack: bool,
    r: Result<DriverAction, DriverError>,
)
    requires
        call_ensures(TeapDriver::on_outer, (d, start, is_ack), r),
        old(d).state().phase == Phase::Phase2 || old(d).state().phase == Phase::Terminated,
        !is_ack || old(d).state().queue.len() == 0,
    ensures
        old(d).state().phase == Phase::Phase2 ==> r matches Ok(DriverAction::Reassemble),
        old(d).state().phase == Phase::Terminated ==> (r matches Err(DriverError::Protocol(m)) && m@
            == "packet after terminal state"@),
        final(d).state() == old(d).state(),
        final(d).outer_tunnel() == old(d).outer_tunnel(),
{
}

/// A message that is not complete yet is acknowledged, in the handshake and in the
/// protected exchange alike, under the request's identifier and TEAP version 1. Before
/// Start and after the end, every message is refused. The driver does not move.
pub proof fn law_missing_fragments_are_acknowledged(
    d: &mut TeapDriver,
    r: Result<DriverAction, DriverError>,
    message: Option<Vec<u8>>,
)
    requires
        call_ensures(TeapDriver::on_message, (d, message), r),
    ensures
        ({
            let s = old(d).state();
            let open = s.phase == Phase::Handshake || s.phase == Phase::Phase2;
            &&& open && message is None ==> *final(d) == *old(d) && (r matches Ok(
                DriverAction::Acknowledge { id, version },
            ) && id == s.last_id && version == 1)
            &&& !open ==> *final(d) == *old(d) && (r matches Err(DriverError::Protocol(m)) && m@ == if s.phase
                == Phase::ExpectStart {
                "expected TEAP Start"@
            } else {
                "packet after terminal state"@
            })
            &&& r matches Ok(DriverAction::Acknowledge { .. }) ==> open && message is None
        }),
{
}

/// What a message may lead to: in the handshake a flight or the opening of the session,
/// in the protected exchange decrypted octets for the session, and an error in both. So
/// no message reports a result, and none makes a result pending.
pub proof fn law_messages_report_no_result(
    d: &mut TeapDriver,
    message: Option<Vec<u8>>,
    r: Result<DriverAction, DriverError>,
)
    requires
        call_ensures(TeapDriver::on_message, (d, message), r),
    ensures
        !(r matches Ok(DriverAction::Finished { .. })),
        !(r matches Ok(DriverAction::Respond { .. })),
        r matches Ok(DriverAction::Exchange { .. }) ==> old(d).state().phase == Phase::Phase2,
        r matches Ok(DriverAction::Fragment { .. }) ==> old(d).state().phase == Phase::Handshake,
        r matches Ok(DriverAction::OpenSession { .. }) ==> old(d).state().phase == Phase::Handshake
            && old(d).state().inner_unused && !final(d).state().inner_unused,
        final(d).state().phase == old(d).state().phase,
        final(d).state().queue == old(d).state().queue,
        final(d).state().pending == old(d).state().pending,
        final(d).state().last_id == old(d).state().last_id,
        final(d).state().rounds == old(d).state().rounds,
        final(d).state().inner_unused ==> old(d).state().inner_unused,
        final(d).configuration() == old(d).configuration(),
        final(d).terms() == old(d).terms(),
{
}

/// While the handshake is in progress, going on with it gives exactly what waits to be
/// sent, and does not move the driver or the guard.
pub proof fn law_handshake_sends_its_flight(
    d: &mut TeapDriver,
    r: Result<DriverAction, DriverError>,
)
    requires
        call_ensures(TeapDriver::advance_handshake, (d,), r),
        crate::fips_tls::backend::handshaking(old(d).outer_tunnel().connection()),
    ensures
        r matches Ok(DriverAction::Fragment { message }) && message@
            == crate::fips_tls::backend::outgoing(old(d).outer_tunnel().connection()),
        crate::fips_tls::backend::outgoing(final(d).outer_tunnel().connection()).len() == 0,
        final(d).state() == old(d).state(),
        final(d).outer_tunnel().guard_passed() == old(d).outer_tunnel().guard_passed(),
{
}

/// A handshake that is complete opens the session exactly if TLS 1.3,
/// AES-256-GCM-SHA384 and ML-KEM-1024 were negotiated, the seed could be exported, and
/// the inner method was not handed out before. The session gets 40 octets of keying
/// material and HMAC-SHA-384, and the final flight is kept for it; otherwise the driver
/// stays where it stands, with an error.
pub proof fn law_session_opens_on_approved_parameters(
    d: &mut TeapDriver,
    r: Result<DriverAction, DriverError>,
)
    requires
        call_ensures(TeapDriver::advance_handshake, (d,), r),
        !crate::fips_tls::backend::handshaking(old(d).outer_tunnel().connection()),
    ensures
        ({
            let conn = old(d).outer_tunnel().connection();
            let seed = crate::fips_tls::backend::exported(
                conn,
                crate::fips_tls::backend::seed_label(),
                40,
            );
            let approved = crate::fips_tls::backend::negotiated(conn) == (
                Some(0x0304u16),
                Some(0x1302u16),
                Some(0x0202u16),
            );
            &&& r is Ok <==> approved && seed is Some && old(d).state().inner_unused
            &&& r is Ok ==> {
                &&& r matches Ok(DriverAction::OpenSession { seed: given, mac }) && Some(given@)
                    == seed && mac.hash == crate::fips_tls::mac::MacHash::Sha384
                &&& final(d).state() == (DriverState {
                    opening: Some(crate::fips_tls::backend::outgoing(conn)),
                    inner_unused: false,
                    ..old(d).state()
                })
                &&& final(d).outer_tunnel().guard_passed()
            }
            &&& r is Err ==> final(d).state() == old(d).state()
            &&& approved ==> final(d).outer_tunnel().guard_passed()
            &&& !approved ==> (r matches Err(DriverError::Tls(_)))
                && final(d).outer_tunnel().guard_passed() == old(d).outer_tunnel().guard_passed()
            &&& final(d).state().phase == old(d).state().phase
            &&& final(d).state().pending == old(d).state().pending
        }),
{
}

/// The protected exchange begins exactly if a session was being opened and it took the
/// seed; the flight that was kept is then sent. Either way nothing is kept any longer.
pub proof fn law_accepted_session_begins_the_exchange(
    d: &mut TeapDriver,
    accepted: bool,
    r: Result<DriverAction, DriverError>,
)
    requires
        call_ensures(TeapDriver::on_session_opened, (d, accepted), r),
    ensures
        r is Ok <==> accepted && old(d).state().opening is Some,
        r is Ok ==> final(d).state().phase == Phase::Phase2 && (r matches Ok(
            DriverAction::Fragment { message },
        ) && old(d).state().opening == Some(message@)),
        r is Err ==> final(d).state().phase == old(d).state().phase && (r matches Err(
            DriverError::Protocol(m),
        ) && m@ == if old(d).state().opening is None {
            "no session"@
        } else {
            "session key seed rejected"@
        }),
        final(d).state() == (DriverState {
            opening: None,
            phase: final(d).state().phase,
            ..old(d).state()
        }),
        final(d).outer_tunnel() == old(d).outer_tunnel(),
{
}

/// A result of the session becomes pending exactly as the session gave it, and only when
/// its TLVs could be encrypted; a reply that goes on leaves the driver where it stands.
/// Outside the protected exchange there is no session, and nothing happens.
pub proof fn law_session_result_waits(
    d: &mut TeapDriver,
    reply: SessionReply,
    r: Result<DriverAction, DriverError>,
)
    requires
        old(d).wf(),
        call_ensures(TeapDriver::on_session_step, (d, reply), r),
    ensures
        r is Err ==> final(d).state() == old(d).state(),
        r is Ok ==> old(d).state().phase == Phase::Phase2 && r matches Ok(
            DriverAction::Fragment { .. },
        ),
        old(d).state().phase != Phase::Phase2 ==> *final(d) == *old(d) && (r matches Err(
            DriverError::Protocol(m),
        ) && m@ == "no session"@),
        reply matches SessionReply::Continue(_) ==> final(d).state() == old(d).state(),
        reply matches SessionReply::Done { outcome, .. } ==> (r is Ok ==> final(d).state() == (
        DriverState { pending: Some(outcome), phase: Phase::Terminated, ..old(d).state() })),
        final(d).state().queue == old(d).state().queue,
        final(d).state().last_id == old(d).state().last_id,
        final(d).outer_tunnel().guard_passed() == old(d).outer_tunnel().guard_passed(),
{
}

/// Both kinds of reply are encrypted alike: what goes out, and whether it can, is a
/// matter of the TLVs and the tunnel alone.
pub proof fn law_replies_are_encrypted_alike(
    d: &mut TeapDriver,
    e: &mut TeapDriver,
    on: Vec<u8>,
    last: Vec<u8>,
    outcome: Outcome,
    r: Result<DriverAction, DriverError>,
    q: Result<DriverAction, DriverError>,
)
    requires
        old(d).state().phase == Phase::Phase2,
        *old(d) == *old(e),
        on@ == last@,
        call_ensures(TeapDriver::on_session_step, (d, SessionReply::Continue(on)), r),
        call_ensures(
            TeapDriver::on_session_step,
            (e, (SessionReply::Done { send: last, outcome })),
            q,
        ),
    ensures
        r is Ok <==> q is Ok,
        r matches Ok(DriverAction::Fragment { message }) ==> (q matches Ok(
            DriverAction::Fragment { message: other },
        ) && message@ == other@),
        crate::fips_tls::backend::write_accepted(old(d).outer_tunnel().connection(), on@) ==> (
        r matches Ok(DriverAction::Fragment { message }) && message@
            == crate::fips_tls::backend::outgoing_after_write(
            old(d).outer_tunnel().connection(),
            on@,
        )),
{
}

/// From the session to the host: a result that the session reached is what the next
/// EAP-Success reports, and what the next EAP-Failure discards.
pub proof fn law_session_result_is_confirmed(
    d: &mut TeapDriver,
    send: Vec<u8>,
    o: Outcome,
    r: Result<DriverAction, DriverError>,
    e: &mut TeapDriver,
    pkt: &EapPacket,
    q: Result<DriverAction, DriverError>,
)
    requires
        call_ensures(
            TeapDriver::on_session_step,
            (d, (SessionReply::Done { send, outcome: o })),
            r,
        ),
        r is Ok,
        *old(e) == *final(d),
        call_ensures(TeapDriver::step, (e, pkt), q),
    ensures
        pkt.code == EapCode::Success ==> (q matches Ok(DriverAction::Finished { outcome })
            && outcome == o),
        pkt.code == EapCode::Failure ==> (q matches Ok(DriverAction::Finished { outcome })
            && outcome == Outcome::Failure(FailReason::ServerFailure)),
        pkt.code != EapCode::Success && pkt.code != EapCode::Failure ==> final(e).state().pending
            == Some(o),
{
}

/// The tunnel counts as established from the protected exchange on.
pub proof fn law_established_from_the_exchange_on(d: TeapDriver, r: bool)
    requires
        call_ensures(TeapDriver::is_established, (&d,), r),
    ensures
        d.state().phase == Phase::ExpectStart || d.state().phase == Phase::Handshake ==> !r,
        d.state().phase == Phase::Phase2 || d.state().phase == Phase::Terminated ==> r,
{
}

/// A new driver awaits Start: nothing is queued, kept or pending, no message was counted,
/// the inner method is unused and the guard is closed. It offers TLS 1.3 alone, presents no
/// certificate, and checks the configured name against the given anchors.
pub proof fn law_new_driver_awaits_start(
    cfg: DriverConfig,
    roots: RootCertStore,
    r: Result<TeapDriver, DriverError>,
)
    requires
        call_ensures(TeapDriver::new, (cfg, roots), r),
    ensures
        r matches Ok(d) ==> {
            &&& d.state().phase == Phase::ExpectStart
            &&& d.state().queue.len() == 0
            &&& d.state().opening is None
            &&& d.state().pending is None
            &&& d.state().rounds == 0
            &&& d.state().inner_unused
            &&& !d.outer_tunnel().guard_passed()
            &&& d.configuration() == cfg
            &&& d.terms().0.0 == seq![0x0304u16]
            &&& d.terms().0.1 == seq![0x1302u16, 0x1301u16]
            &&& d.terms().0.2 == seq![0x0202u16]
            &&& d.terms().0.3 == crate::fips_tls::backend::store_anchors(roots)
            &&& d.terms().0.4.len() == 0
            &&& d.terms().0.5 is None
            &&& d.terms().0.6 is None
            &&& d.terms().1 == cfg.server_name@
            &&& crate::fips_tls::backend::is_server_name(cfg.server_name@)
        },
        !crate::fips_tls::backend::is_server_name(cfg.server_name@) ==> r
            == Err::<TeapDriver, DriverError>(DriverError::Tls(FipsTlsError::BadServerName)),
{
}

/// What is shown of a driver is a matter of its identity and its phase alone, and tells
/// identities and phases apart.
pub proof fn law_shown_driver_tells_its_phase(d: TeapDriver, e: TeapDriver, t: String, u: String)
    requires
        call_ensures(TeapDriver::redacted, (&d,), t),
        call_ensures(TeapDriver::redacted, (&e,), u),
        d.configuration().identity == e.configuration().identity || d.state().phase
            == e.state().phase,
    ensures
        t@ == u@ <==> d.configuration().identity == e.configuration().identity && d.state().phase
            == e.state().phase,
{
    reveal_strlit("Machine");
    reveal_strlit("User");
    reveal_strlit("ExpectStart");
    reveal_strlit("Handshake");
    reveal_strlit("Phase2");
    reveal_strlit("Terminated");
    let around = "TeapDriver { identity: "@.len() + ", phase: "@.len() + ", .. }"@.len();
    assert(t@.len() == around + d.configuration().identity.name().len() + d.state().phase.name().len());
    assert(u@.len() == around + e.configuration().identity.name().len() + e.state().phase.name().len());
}

/// A handshake message that the tunnel takes is gone on with from where the tunnel then
/// stands: `c` is the connection with the message fed to it. While its handshake goes on,
/// what waits to be sent goes out; once it is complete with the approved parameters, the
/// seed can be exported and the inner method is unused, the session is opened. Otherwise,
/// and where the tunnel refuses the message, there is an error and the driver stays. An
/// empty message is never refused.
pub proof fn law_handshake_message_is_gone_on_with(
    d: &mut TeapDriver,
    m: Vec<u8>,
    r: Result<DriverAction, DriverError>,
)
    requires
        old(d).state().phase == Phase::Handshake,
        call_ensures(TeapDriver::on_message, (d, Some(m)), r),
    ensures
        r is Err ==> final(d).state() == old(d).state(),
        (r matches Err(DriverError::Tls(e)) && m@.len() > 0 && crate::fips_tls::backend::feed_error(
            crate::fips_tls::backend::fatal_error(old(d).outer_tunnel().connection()),
            crate::fips_tls::backend::fatal_error(final(d).outer_tunnel().connection()),
            e,
        )) || exists|c: ClientConnection|
            {
                let seed = crate::fips_tls::backend::exported(
                    c,
                    crate::fips_tls::backend::seed_label(),
                    40,
                );
                let approved = crate::fips_tls::backend::negotiated(c) == (
                    Some(0x0304u16),
                    Some(0x1302u16),
                    Some(0x0202u16),
                );
                &&& m@.len() == 0 ==> c == old(d).outer_tunnel().connection()
                &&& m@.len() > 0 ==> crate::fips_tls::backend::fed(
                    old(d).outer_tunnel().connection(),
                    m@,
                    c,
                )
                &&& #[trigger] crate::fips_tls::backend::handshaking(c) ==> (r matches Ok(
                    DriverAction::Fragment { message },
                ) && message@ == crate::fips_tls::backend::outgoing(c))
                &&& !crate::fips_tls::backend::handshaking(c) ==> {
                    &&& r is Ok <==> approved && seed is Some && old(d).state().inner_unused
                    &&& r is Ok ==> (r matches Ok(DriverAction::OpenSession { seed: given, mac })
                        && Some(given@) == seed && mac.hash
                        == crate::fips_tls::mac::MacHash::Sha384) && final(d).state().opening == Some(
                        crate::fips_tls::backend::outgoing(c),
                    )
                    &&& approved && seed is Some && !old(d).state().inner_unused ==> (r matches Err(
                        DriverError::Protocol(w),
                    ) && w@ == "inner method already used"@)
                    &&& !approved || seed is None ==> (r matches Err(DriverError::Tls(_)))
                }
            },
{
    let before = old(d).outer_tunnel();
    let after = final(d).outer_tunnel();
    let s = old(d).state();
    let t = final(d).state();
    if m@.len() == 0 {
        let c = before.connection();
        assert(crate::fips_tls::backend::handshaking(c) || !crate::fips_tls::backend::handshaking(c));
    } else if !(r matches Err(DriverError::Tls(e)) && crate::fips_tls::backend::feed_error(
        crate::fips_tls::backend::fatal_error(before.connection()),
        crate::fips_tls::backend::fatal_error(after.connection()),
        e,
    )) {
        let taken = choose|taken: TeapTlsClient|
            {
                &&& #[trigger] crate::fips_tls::backend::fed(
                    before.connection(),
                    m@,
                    taken.connection(),
                )
                &&& taken.guard_passed() == before.guard_passed()
                &&& advanced(taken, after, s, t, r)
            };
        let c = taken.connection();
        assert(crate::fips_tls::backend::handshaking(c) || !crate::fips_tls::backend::handshaking(c));
    }
}

/// In the protected exchange all that is decrypted goes to the session, what waited in
/// front, and nothing waits then; without records that is what waited. An error is the
/// tunnel's, and comes only with records. The driver does not move.
pub proof fn law_exchange_hands_over_the_decrypted(
    d: &mut TeapDriver,
    m: Vec<u8>,
    r: Result<DriverAction, DriverError>,
)
    requires
        old(d).state().phase == Phase::Phase2,
        call_ensures(TeapDriver::on_message, (d, Some(m)), r),
    ensures
        r is Ok ==> (r matches Ok(DriverAction::Exchange { plaintext }) && {
            let waiting = crate::fips_tls::backend::received(old(d).outer_tunnel().connection());
            &&& plaintext@.len() >= waiting.len()
            &&& plaintext@.take(waiting.len() as int) == waiting
            &&& m@.len() == 0 ==> plaintext@ == waiting
            &&& crate::fips_tls::backend::received(final(d).outer_tunnel().connection()).len() == 0
        }),
        r is Err ==> m@.len() > 0 && (r matches Err(DriverError::Tls(e)) && e is Rustls),
        final(d).state() == old(d).state(),
{
    if let Ok(DriverAction::Exchange { plaintext }) = r {
        let waiting = crate::fips_tls::backend::received(old(d).outer_tunnel().connection());
        assert(plaintext@.take(waiting.len() as int) =~= waiting);
    }
}

/// A driver gives out the configuration that it was made with.
pub proof fn law_configuration_is_given_out(d: TeapDriver, c: &DriverConfig)
    requires
        call_ensures(TeapDriver::config, (&d,), c),
    ensures
        *c == d.configuration(),
{
}

} // verus!
