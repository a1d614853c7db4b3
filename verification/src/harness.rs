//! The server half of an authentication, for end-to-end tests: the outer TLS tunnel,
//! the inner EAP-TLS that requires a client certificate, and what the server sends
//! next. The framing, the TLVs and the crypto-binding are the test's.
use crate::bytes::copy_of;
use crate::fips_tls::backend::{
    general_error, seed_label_octets, trust_anchors, SESSION_KEY_SEED_LEN,
};
use crate::fips_tls::error::FipsTlsError;
use crate::fips_tls::mac::AwsLcMac;
use crate::fips_tls::secret::SecretBytes;
use crate::fips_tls::server::{pkcs8_key, ServerTerms, TlsServer};
use crate::supplicant::driver::Identity;
use crate::supplicant::framing::{TeapOuter, TEAP_VERSION};
use crate::supplicant::inner_tls::{key_label_octets, EAP_TLS_KEY_LEN};
use rustls::pki_types::PrivateKeyDer;
use rustls::{RootCertStore, ServerConnection};
use vstd::prelude::*;

verus! {

/// The server name that the harness certificate is issued for.
pub const SERVER_NAME: &'static str = "teap.test.local";

/// Where the server stands.
#[derive(Debug, Clone, Copy, PartialEq, Eq, Structural)]
pub enum ServerPhase {
    /// The outer handshake.
    OuterHandshake,
    /// The inner handshake.
    InnerHandshake,
    /// The commitment was sent.
    AfterCommit,
    /// The client's crypto-binding is awaited.
    AwaitClientBinding,
    /// The client's result is awaited.
    AwaitClientResult,
    /// EAP-Success was sent.
    Done,
}

/// What the server sends.
#[derive(Debug, Clone, Copy, PartialEq, Eq, Structural)]
pub enum ServerMessage {
    /// The next outer handshake flight.
    OuterFlight,
    /// The identity type and the inner Start.
    OpenInner,
    /// The next inner handshake flight.
    InnerFlight,
    /// The inner commitment.
    Commitment,
    /// The intermediate result with the crypto-binding.
    CryptoBinding,
    /// The final result.
    FinalResult,
    /// EAP-Success.
    Success,
}

/// One server message with the identifiers it carries.
#[derive(Debug, Clone, Copy, PartialEq, Eq, Structural)]
pub struct ServerAction {
    /// The message.
    pub message: ServerMessage,
    /// The identifier of the EAP packet.
    pub id: u8,
    /// The identifier of the inner EAP packet, where the message carries one.
    pub inner_id: u8,
}

/// What the server sends at a client's response, and where it stands then: a
/// handshake is gone on with while it is in progress.
pub open spec fn server_next(phase: ServerPhase, handshaking: bool) -> (ServerPhase, ServerMessage) {
    match phase {
        ServerPhase::OuterHandshake => if handshaking {
            (ServerPhase::OuterHandshake, ServerMessage::OuterFlight)
        } else {
            (ServerPhase::InnerHandshake, ServerMessage::OpenInner)
        },
        ServerPhase::InnerHandshake => if handshaking {
            (ServerPhase::InnerHandshake, ServerMessage::InnerFlight)
        } else {
            (ServerPhase::AfterCommit, ServerMessage::Commitment)
        },
        ServerPhase::AfterCommit => (ServerPhase::AwaitClientBinding, ServerMessage::CryptoBinding),
        ServerPhase::AwaitClientBinding => (
            ServerPhase::AwaitClientResult,
            ServerMessage::FinalResult,
        ),
        _ => (ServerPhase::Done, ServerMessage::Success),
    }
}

/// The message carries an inner EAP packet.
pub open spec fn carries_inner(m: ServerMessage) -> bool {
    m == ServerMessage::OpenInner || m == ServerMessage::InnerFlight || m
        == ServerMessage::Commitment
}

/// The next identifier; identifiers wrap around.
pub open spec fn next_identifier(id: u8) -> u8 {
    if id == 255 {
        0
    } else {
        (id + 1) as u8
    }
}

/// What a server sends next and with which identifiers.
#[derive(Debug, Clone, Copy, PartialEq, Eq, Structural)]
pub struct ServerPlan {
    /// Where the server stands.
    pub phase: ServerPhase,
    /// The identifier of its last EAP packet.
    pub id: u8,
    /// The identifier of its last inner EAP packet.
    pub inner_id: u8,
    /// The identity it asks for.
    pub identity: Identity,
}

/// The plan after a client's response, and what is sent.
pub open spec fn planned(p: ServerPlan, handshaking: bool) -> (ServerPlan, ServerAction) {
    let (phase, message) = server_next(p.phase, handshaking);
    let id = next_identifier(p.id);
    let inner_id = if carries_inner(message) {
        next_identifier(p.inner_id)
    } else {
        p.inner_id
    };
    (
        ServerPlan { phase, id, inner_id, identity: p.identity },
        ServerAction { message, id, inner_id },
    )
}

impl ServerPlan {
    /// The plan of a server that asks for `identity`.
    pub fn new(identity: Identity) -> (p: Self)
        ensures
            p == (ServerPlan { phase: ServerPhase::OuterHandshake, id: 1, inner_id: 1, identity }),
    {
        ServerPlan { phase: ServerPhase::OuterHandshake, id: 1, inner_id: 1, identity }
    }

    /// What to send at a client's response; `handshaking` is whether the handshake
    /// of the current phase is still in progress after the response was fed to it.
    pub fn advance(&mut self, handshaking: bool) -> (a: ServerAction)
        requires
            old(self).phase != ServerPhase::Done,
        ensures
            (*final(self), a) == planned(*old(self), handshaking),
    {
        let message: ServerMessage = match self.phase {
            ServerPhase::OuterHandshake => {
                if handshaking {
                    ServerMessage::OuterFlight
                } else {
                    self.phase = ServerPhase::InnerHandshake;
                    self.inner_id = self.inner_id.wrapping_add(1);
                    ServerMessage::OpenInner
                }
            },
            ServerPhase::InnerHandshake => {
                self.inner_id = self.inner_id.wrapping_add(1);
                if handshaking {
                    ServerMessage::InnerFlight
                } else {
                    self.phase = ServerPhase::AfterCommit;
                    ServerMessage::Commitment
                }
            },
            ServerPhase::AfterCommit => {
                self.phase = ServerPhase::AwaitClientBinding;
                ServerMessage::CryptoBinding
            },
            ServerPhase::AwaitClientBinding => {
                self.phase = ServerPhase::AwaitClientResult;
                ServerMessage::FinalResult
            },
            _ => {
                self.phase = ServerPhase::Done;
                ServerMessage::Success
            },
        };
        self.id = self.id.wrapping_add(1);
        ServerAction { message, id: self.id, inner_id: self.inner_id }
    }
}

/// A certificate (DER) and its key (PKCS#8).
pub struct Id {
    /// The certificate.
    pub cert: Vec<u8>,
    /// The key.
    pub pkcs8: Vec<u8>,
}

impl Id {
    /// The certificate as a chain of its own.
    pub open spec fn chain(self) -> Seq<Seq<u8>> {
        seq![self.cert@]
    }

    /// The key.
    pub open spec fn key(self) -> PrivateKeyDer<'static> {
        crate::fips_tls::server::pkcs8_key_of(self.pkcs8@)
    }

    /// The certificate and the key fit together.
    pub open spec fn usable(self) -> bool {
        crate::fips_tls::backend::is_credential(self.chain(), self.key())
    }

    /// Why they do not, where they do not.
    pub open spec fn refusal(self) -> FipsTlsError {
        FipsTlsError::Rustls(
            crate::fips_tls::backend::credential_refusal(self.chain(), self.key()),
        )
    }

    /// A server end that presents this identity.
    fn server(&self, clients: Option<RootCertStore>) -> (r: Result<TlsServer, FipsTlsError>)
        ensures
            r is Ok <==> self.usable() && (clients matches Some(s)
                ==> crate::fips_tls::backend::store_anchors(s).len() > 0),
            match r {
                Ok(t) => t.is_fresh(
                    server_end(
                        *self,
                        match clients {
                            Some(s) => Some(crate::fips_tls::backend::store_anchors(s)),
                            None => None,
                        },
                    ),
                ),
                Err(e) => {
                    &&& e is Rustls
                    &&& (clients matches Some(s) ==> crate::fips_tls::backend::store_anchors(s).len()
                        > 0) ==> e == self.refusal()
                },
            },
    {
        let mut chain: Vec<Vec<u8>> = Vec::new();
        chain.push(copy_of(self.cert.as_slice()));
        assert(crate::bytes::octets_of(chain@) =~= self.chain());
        TlsServer::accept(clients, chain, pkcs8_key(copy_of(self.pkcs8.as_slice())))
    }
}

/// The terms of a server end on the restricted provider that presents `id` and, with
/// `clients`, requires a client certificate chaining to one of these.
pub open spec fn server_end(id: Id, clients: Option<Seq<Seq<u8>>>) -> ServerTerms {
    (
        crate::fips_tls::provider::offered_versions(),
        crate::fips_tls::provider::offered_suites(),
        crate::fips_tls::provider::offered_groups(),
        id.chain(),
        id.key(),
        clients,
    )
}

/// What a server sends, with the record octets of it that are ready: a handshake
/// flight, or the inner commitment.
#[derive(Debug, PartialEq, Eq)]
pub struct ServerReply {
    /// What is sent.
    pub action: ServerAction,
    /// The record octets; empty where the message is made of TLVs alone.
    pub flight: Vec<u8>,
}

/// The server: TLS 1.3 outside, and inside an EAP-TLS that requires a client
/// certificate. The framing is the caller's: it hands over the records of each
/// client response with [`TeapServer::receive`] and
/// [`TeapServer::receive_inner`], and asks [`TeapServer::handle`] what to send.
pub struct TeapServer {
    outer: TlsServer,
    inner: TlsServer,
    plan: ServerPlan,
    mac: AwsLcMac,
}

impl TeapServer {
    /// The outer connection.
    pub closed spec fn outer_connection(self) -> ServerConnection {
        self.outer.connection()
    }

    /// The inner connection.
    pub closed spec fn inner_connection(self) -> ServerConnection {
        self.inner.connection()
    }

    /// Where the server stands.
    pub closed spec fn standing(self) -> ServerPlan {
        self.plan
    }

    /// The MAC of the key schedule.
    pub closed spec fn binding_mac(self) -> AwsLcMac {
        self.mac
    }

    /// The handshake of the current phase is in progress.
    pub open spec fn in_handshake(self) -> bool {
        match self.standing().phase {
            ServerPhase::OuterHandshake => crate::fips_tls::server::server_handshaking(
                self.outer_connection(),
            ),
            ServerPhase::InnerHandshake => crate::fips_tls::server::server_handshaking(
                self.inner_connection(),
            ),
            _ => false,
        }
    }

    /// A server that presents `server_id`, requires the client to present a
    /// certificate chaining to `client_cert`, and asks for `identity`. It fails if
    /// the identity cannot be used or the certificate cannot be chained to.
    pub fn new(server_id: &Id, client_cert: &[u8], identity: Identity) -> (r: Result<
        Self,
        FipsTlsError,
    >)
        ensures
            r is Ok <==> server_id.usable() && crate::fips_tls::backend::is_anchor(client_cert@),
            match r {
                Ok(s) => {
                    &&& s.standing() == (ServerPlan {
                        phase: ServerPhase::OuterHandshake,
                        id: 1,
                        inner_id: 1,
                        identity,
                    })
                    &&& s.binding_mac().hash == crate::fips_tls::mac::MacHash::Sha384
                    &&& crate::fips_tls::server::server_terms(s.outer_connection()) == server_end(
                        *server_id,
                        None,
                    )
                    &&& crate::fips_tls::server::server_terms(s.inner_connection()) == server_end(
                        *server_id,
                        Some(seq![client_cert@]),
                    )
                    &&& crate::fips_tls::server::server_is_new(s.outer_connection())
                    &&& crate::fips_tls::server::server_is_new(s.inner_connection())
                },
                Err(e) => if crate::fips_tls::backend::is_anchor(client_cert@) {
                    e == server_id.refusal()
                } else {
                    e == FipsTlsError::Rustls(
                        crate::fips_tls::backend::general_error_of(
                            "the client certificate is no trust anchor"@,
                        ),
                    )
                },
            },
    {
        let mut clients: Vec<Vec<u8>> = Vec::new();
        clients.push(copy_of(client_cert));
        assert(crate::bytes::octets_of(clients@) =~= seq![client_cert@]);
        assert(clients@[0]@ == client_cert@);
        let anchors: RootCertStore = match trust_anchors(clients) {
            Some(s) => s,
            None => {
                return Err(
                    FipsTlsError::Rustls(general_error("the client certificate is no trust anchor")),
                );
            },
        };
        let outer: TlsServer = match server_id.server(None) {
            Ok(t) => t,
            Err(e) => {
                return Err(e);
            },
        };
        let inner: TlsServer = match server_id.server(Some(anchors)) {
            Ok(t) => t,
            Err(e) => {
                return Err(e);
            },
        };
        Ok(TeapServer { outer, inner, plan: ServerPlan::new(identity), mac: AwsLcMac::sha384() })
    }

    /// Where the server stands.
    pub fn plan(&self) -> (p: ServerPlan)
        ensures
            p == self.standing(),
    {
        self.plan
    }

    /// The MAC of the key schedule.
    pub fn mac(&self) -> (m: AwsLcMac)
        ensures
            m == self.binding_mac(),
    {
        self.mac
    }

    /// Whether EAP-Success was sent.
    pub fn is_done(&self) -> (r: bool)
        ensures
            r == (self.standing().phase == ServerPhase::Done),
    {
        self.plan.phase == ServerPhase::Done
    }

    /// The opening request: its identifier, and the TEAP Start.
    pub fn start(&self) -> (r: (u8, TeapOuter))
        ensures
            r.0 == self.standing().id,
            !r.1.more_fragments,
            r.1.start,
            r.1.version == TEAP_VERSION,
            r.1.tls_message_length is None,
            r.1.data@ == Seq::<u8>::empty(),
    {
        (
            self.plan.id,
            TeapOuter {
                more_fragments: false,
                start: true,
                version: TEAP_VERSION,
                tls_message_length: None,
                data: Vec::new(),
            },
        )
    }

    /// Take in the records of a client response. Once the outer handshake is over,
    /// all that is then decrypted comes out, as TLVs; before, nothing is read.
    pub fn receive(&mut self, records: &[u8]) -> (r: Result<Option<Vec<u8>>, FipsTlsError>)
        ensures
            final(self).standing() == old(self).standing(),
            final(self).binding_mac() == old(self).binding_mac(),
            final(self).inner_connection() == old(self).inner_connection(),
            records@.len() == 0 ==> match r {
                Ok(None) => *final(self) == *old(self),
                Ok(Some(plain)) => {
                    &&& plain@ == crate::fips_tls::server::server_received(
                        old(self).outer_connection(),
                    )
                    &&& crate::fips_tls::server::server_drained(
                        old(self).outer_connection(),
                        final(self).outer_connection(),
                    )
                },
                Err(_) => false,
            },
            ({
                let before = old(self).outer_connection();
                let after = final(self).outer_connection();
                let reads = old(self).standing().phase != ServerPhase::OuterHandshake;
                match r {
                    Ok(None) => !reads && crate::fips_tls::server::server_fed(before, records@, after),
                    Ok(Some(plain)) => reads && crate::fips_tls::queue::handed_on(
                        crate::fips_tls::server::server_decrypted(before),
                        crate::fips_tls::server::server_received(before),
                        crate::fips_tls::server::server_decrypted(after),
                        crate::fips_tls::server::server_received(after),
                        plain@,
                    ) && exists|c: ServerConnection|
                        {
                            &&& #[trigger] crate::fips_tls::server::server_fed(before, records@, c)
                            &&& plain@ == crate::fips_tls::server::server_received(c)
                            &&& crate::fips_tls::server::server_drained(c, after)
                        },
                    Err(e) => {
                        &&& crate::fips_tls::backend::feed_error(
                            crate::fips_tls::server::server_fatal_error(before),
                            crate::fips_tls::server::server_fatal_error(after),
                            e,
                        )
                        &&& crate::fips_tls::server::server_grew(before, after)
                    },
                }
            }),
    {
        match self.outer.feed_incoming(records) {
            Err(e) => {
                return Err(e);
            },
            Ok(()) => {},
        }
        if self.plan.phase == ServerPhase::OuterHandshake {
            return Ok(None);
        }
        assert(crate::fips_tls::server::server_fed(
            old(self).outer_connection(),
            records@,
            self.outer.connection(),
        ));
        proof {
            let before = old(self).outer_connection();
            let now = self.outer.connection();
            crate::fips_tls::queue::lemma_grown_then_emptied(
                crate::fips_tls::server::server_decrypted(before),
                crate::fips_tls::server::server_received(before),
                crate::fips_tls::server::server_decrypted(now),
                crate::fips_tls::server::server_received(now),
            );
        }
        Ok(Some(self.outer.drain_received()))
    }

    /// Take in the records of the inner message that a client response carries.
    pub fn receive_inner(&mut self, records: &[u8]) -> (r: Result<(), FipsTlsError>)
        ensures
            final(self).standing() == old(self).standing(),
            final(self).binding_mac() == old(self).binding_mac(),
            final(self).outer_connection() == old(self).outer_connection(),
            records@.len() == 0 ==> r is Ok && *final(self) == *old(self),
            match r {
                Ok(_) => crate::fips_tls::server::server_fed(
                    old(self).inner_connection(),
                    records@,
                    final(self).inner_connection(),
                ),
                Err(e) => {
                    &&& crate::fips_tls::backend::feed_error(
                        crate::fips_tls::server::server_fatal_error(old(self).inner_connection()),
                        crate::fips_tls::server::server_fatal_error(final(self).inner_connection()),
                        e,
                    )
                    &&& crate::fips_tls::server::server_grew(
                        old(self).inner_connection(),
                        final(self).inner_connection(),
                    )
                },
            },
    {
        self.inner.feed_incoming(records)
    }

    /// What to send, once the records of a client response were taken in: a handshake
    /// goes on with its next flight while it is in progress; the inner one ends with a
    /// protected commitment of one zero octet. It fails only if the inner connection
    /// does not take the commitment.
    pub fn handle(&mut self) -> (r: Result<ServerReply, FipsTlsError>)
        requires
            old(self).standing().phase != ServerPhase::Done,
        ensures
            final(self).binding_mac() == old(self).binding_mac(),
            ({
                let (plan, action) = planned(old(self).standing(), old(self).in_handshake());
                let outer = old(self).outer_connection();
                let inner = old(self).inner_connection();
                let commits = action.message == ServerMessage::Commitment;
                let same_outer = final(self).outer_connection() == outer;
                let same_inner = final(self).inner_connection() == inner;
                &&& r is Ok <==> !commits || crate::fips_tls::server::server_write_accepted(
                    inner,
                    seq![0u8],
                )
                &&& match r {
                    Ok(reply) => {
                        &&& final(self).standing() == plan
                        &&& reply.action == action
                        &&& match action.message {
                            ServerMessage::OuterFlight => {
                                &&& reply.flight@ == crate::fips_tls::server::server_outgoing(outer)
                                &&& crate::fips_tls::server::server_flushed(
                                    outer,
                                    final(self).outer_connection(),
                                )
                                &&& same_inner
                            },
                            ServerMessage::InnerFlight => {
                                &&& reply.flight@ == crate::fips_tls::server::server_outgoing(inner)
                                &&& crate::fips_tls::server::server_flushed(
                                    inner,
                                    final(self).inner_connection(),
                                )
                                &&& same_outer
                            },
                            ServerMessage::Commitment => {
                                &&& reply.flight@
                                    == crate::fips_tls::server::server_outgoing_after_write(
                                    inner,
                                    seq![0u8],
                                )
                                &&& crate::fips_tls::server::server_sent(
                                    inner,
                                    seq![0u8],
                                    final(self).inner_connection(),
                                )
                                &&& same_outer
                            },
                            _ => reply.flight@ == Seq::<u8>::empty() && same_outer && same_inner,
                        }
                    },
                    Err(e) => {
                        &&& final(self).standing() == old(self).standing()
                        &&& same_outer
                        &&& e == crate::fips_tls::backend::byte_error(
                            crate::fips_tls::server::server_fatal_error(inner),
                        )
                    },
                }
            }),
    {
        let handshaking: bool = match self.plan.phase {
            ServerPhase::OuterHandshake => self.outer.is_handshaking(),
            ServerPhase::InnerHandshake => self.inner.is_handshaking(),
            _ => false,
        };
        let mut plan: ServerPlan = self.plan;
        let action: ServerAction = plan.advance(handshaking);
        let flight: Vec<u8> = match action.message {
            ServerMessage::OuterFlight => self.outer.take_outgoing(),
            ServerMessage::InnerFlight => self.inner.take_outgoing(),
            ServerMessage::Commitment => {
                let commitment: [u8; 1] = [0];
                assert(commitment@ =~= seq![0u8]);
                match self.inner.protect(commitment.as_slice()) {
                    Ok(v) => v,
                    Err(e) => {
                        return Err(e);
                    },
                }
            },
            _ => Vec::new(),
        };
        self.plan = plan;
        Ok(ServerReply { action, flight })
    }

    /// The records of these encoded TLVs in the outer tunnel, behind those that wait.
    pub fn protect_tlvs(&mut self, tlvs: &[u8]) -> (r: Result<Vec<u8>, FipsTlsError>)
        ensures
            final(self).standing() == old(self).standing(),
            final(self).binding_mac() == old(self).binding_mac(),
            final(self).inner_connection() == old(self).inner_connection(),
            r is Ok <==> crate::fips_tls::server::server_write_accepted(
                old(self).outer_connection(),
                tlvs@,
            ),
            match r {
                Ok(v) => {
                    &&& v@ == crate::fips_tls::server::server_outgoing_after_write(
                        old(self).outer_connection(),
                        tlvs@,
                    )
                    &&& crate::fips_tls::server::server_sent(
                        old(self).outer_connection(),
                        tlvs@,
                        final(self).outer_connection(),
                    )
                },
                Err(e) => e == crate::fips_tls::backend::byte_error(
                    crate::fips_tls::server::server_fatal_error(old(self).outer_connection()),
                ),
            },
    {
        self.outer.protect(tlvs)
    }

    /// What the crypto-binding is made of: the seed of the key schedule, from the
    /// outer exporter, and the inner key material, from the inner one.
    pub fn binding_keys(&self) -> (r: Result<(SecretBytes, SecretBytes), FipsTlsError>)
        ensures
            ({
                let seed = crate::fips_tls::server::server_exported(
                    self.outer_connection(),
                    crate::fips_tls::backend::seed_label(),
                    SESSION_KEY_SEED_LEN as nat,
                );
                let key = crate::fips_tls::server::server_exported(
                    self.inner_connection(),
                    crate::supplicant::inner_tls::key_label(),
                    EAP_TLS_KEY_LEN as nat,
                );
                match r {
                    Ok((s, k)) => Some(s@) == seed && Some(k@) == key,
                    Err(e) => (seed is None || key is None) && e is Rustls,
                }
            }),
    {
        let seed: SecretBytes = match self.outer.export_keying_material(
            seed_label_octets().as_slice(),
            SESSION_KEY_SEED_LEN,
        ) {
            Ok(s) => s,
            Err(e) => {
                return Err(e);
            },
        };
        match self.inner.export_keying_material(key_label_octets().as_slice(), EAP_TLS_KEY_LEN) {
            Ok(k) => Ok((seed, k)),
            Err(e) => Err(e),
        }
    }
}

/// How far a phase is along.
pub open spec fn progress(phase: ServerPhase) -> int {
    match phase {
        ServerPhase::OuterHandshake => 0,
        ServerPhase::InnerHandshake => 1,
        ServerPhase::AfterCommit => 2,
        ServerPhase::AwaitClientBinding => 3,
        ServerPhase::AwaitClientResult => 4,
        ServerPhase::Done => 5,
    }
}

/// The server never goes back, and moves on by one phase with each response once
/// its handshake is over: the authentication completes.
pub proof fn law_server_moves_on(phase: ServerPhase, handshaking: bool)
    requires
        phase != ServerPhase::Done,
    ensures
        progress(server_next(phase, handshaking).0) >= progress(phase),
        !handshaking ==> progress(server_next(phase, handshaking).0) == progress(phase) + 1,
        server_next(phase, handshaking).1 == ServerMessage::Success <==> server_next(
            phase,
            handshaking,
        ).0 == ServerPhase::Done,
{
}

/// A server begins with the outer handshake and sends, response by response, the outer
/// flights while that handshake goes on, the opening of the inner method, its flights while
/// that one goes on, the commitment, the crypto-binding, the final result and EAP-Success:
/// each message has its phase, and leads to the next.
pub proof fn law_server_keeps_its_order(p: &mut ServerPlan, handshaking: bool, a: ServerAction)
    requires
        call_ensures(ServerPlan::advance, (p, handshaking), a),
        old(p).phase != ServerPhase::Done,
    ensures
        old(p).phase == ServerPhase::OuterHandshake && handshaking <==> a.message
            == ServerMessage::OuterFlight,
        old(p).phase == ServerPhase::OuterHandshake && !handshaking <==> a.message
            == ServerMessage::OpenInner,
        old(p).phase == ServerPhase::InnerHandshake && handshaking <==> a.message
            == ServerMessage::InnerFlight,
        old(p).phase == ServerPhase::InnerHandshake && !handshaking <==> a.message
            == ServerMessage::Commitment,
        old(p).phase == ServerPhase::AfterCommit <==> a.message == ServerMessage::CryptoBinding,
        old(p).phase == ServerPhase::AwaitClientBinding <==> a.message == ServerMessage::FinalResult,
        old(p).phase == ServerPhase::AwaitClientResult <==> a.message == ServerMessage::Success,
        a.message == ServerMessage::OuterFlight ==> final(p).phase == ServerPhase::OuterHandshake,
        a.message == ServerMessage::OpenInner || a.message == ServerMessage::InnerFlight
            ==> final(p).phase == ServerPhase::InnerHandshake,
        a.message == ServerMessage::Commitment ==> final(p).phase == ServerPhase::AfterCommit,
        a.message == ServerMessage::CryptoBinding ==> final(p).phase
            == ServerPhase::AwaitClientBinding,
        a.message == ServerMessage::FinalResult ==> final(p).phase == ServerPhase::AwaitClientResult,
        a.message == ServerMessage::Success ==> final(p).phase == ServerPhase::Done,
        final(p).identity == old(p).identity,
{
}

/// Identifiers count up by one, modulo 256: the outer one with each message, the inner one
/// with each message that carries an inner packet. A message bears the identifiers that the
/// plan then has.
pub proof fn law_identifiers_count_up(p: &mut ServerPlan, handshaking: bool, a: ServerAction)
    requires
        call_ensures(ServerPlan::advance, (p, handshaking), a),
    ensures
        (a.id - old(p).id) % 256 == 1,
        a.message == ServerMessage::OpenInner || a.message == ServerMessage::InnerFlight || a.message
            == ServerMessage::Commitment ==> (a.inner_id - old(p).inner_id) % 256 == 1,
        a.message == ServerMessage::OuterFlight || a.message == ServerMessage::CryptoBinding
            || a.message == ServerMessage::FinalResult || a.message == ServerMessage::Success
            ==> a.inner_id == old(p).inner_id,
        final(p).id == a.id,
        final(p).inner_id == a.inner_id,
{
}

/// Five responses whose handshakes are over bring a new plan to its end, with EAP-Success
/// as the last message. The plan takes response `i` as `ps[i]`.
pub proof fn law_authentication_completes(
    fresh: ServerPlan,
    identity: Identity,
    ps: Seq<&mut ServerPlan>,
    actions: Seq<ServerAction>,
)
    requires
        call_ensures(ServerPlan::new, (identity,), fresh),
        ps.len() == 5,
        actions.len() == 5,
        *ps[0] == fresh,
        forall|i: int|
            0 <= i < 5 ==> {
                &&& call_ensures(ServerPlan::advance, (#[trigger] ps[i], false), actions[i])
                &&& i > 0 ==> *ps[i] == *final(ps[i - 1])
            },
    ensures
        actions[0].message == ServerMessage::OpenInner,
        actions[1].message == ServerMessage::Commitment,
        actions[2].message == ServerMessage::CryptoBinding,
        actions[3].message == ServerMessage::FinalResult,
        actions[4].message == ServerMessage::Success,
        final(ps[4]).phase == ServerPhase::Done,
        final(ps[4]).identity == identity,
        fresh.phase == ServerPhase::OuterHandshake,
        fresh.id == 1,
        fresh.inner_id == 1,
        actions[4].id == 6,
        actions[4].inner_id == 3,
{
    assert(call_ensures(ServerPlan::advance, (ps[0], false), actions[0]));
    assert(call_ensures(ServerPlan::advance, (ps[1], false), actions[1]));
    assert(call_ensures(ServerPlan::advance, (ps[2], false), actions[2]));
    assert(call_ensures(ServerPlan::advance, (ps[3], false), actions[3]));
    assert(call_ensures(ServerPlan::advance, (ps[4], false), actions[4]));
}

/// A server presents its identity in both tunnels, asks the inner client for a certificate
/// that chains to the given one and the outer client for none, and stands at the beginning.
/// It is refused exactly if the identity cannot be used or the certificate is no anchor.
pub proof fn law_server_is_made_as_asked(
    server_id: Id,
    client_cert: &[u8],
    identity: Identity,
    r: Result<TeapServer, FipsTlsError>,
)
    requires
        call_ensures(TeapServer::new, (&server_id, client_cert, identity), r),
    ensures
        r is Ok <==> crate::fips_tls::backend::is_credential(
            seq![server_id.cert@],
            crate::fips_tls::server::pkcs8_key_of(server_id.pkcs8@),
        ) && crate::fips_tls::backend::is_anchor(client_cert@),
        r matches Ok(s) ==> {
            let outer = crate::fips_tls::server::server_terms(s.outer_connection());
            let inner = crate::fips_tls::server::server_terms(s.inner_connection());
            &&& outer.0 == seq![0x0304u16] && inner.0 == seq![0x0304u16]
            &&& outer.2 == seq![0x0202u16] && inner.2 == seq![0x0202u16]
            &&& outer.3 == seq![server_id.cert@] && inner.3 == seq![server_id.cert@]
            &&& outer.4 == crate::fips_tls::server::pkcs8_key_of(server_id.pkcs8@)
            &&& inner.4 == crate::fips_tls::server::pkcs8_key_of(server_id.pkcs8@)
            &&& outer.5 is None
            &&& inner.5 == Some(seq![client_cert@])
            &&& s.standing().phase == ServerPhase::OuterHandshake
            &&& s.standing().id == 1
            &&& s.standing().inner_id == 1
            &&& s.standing().identity == identity
            &&& s.binding_mac().hash == crate::fips_tls::mac::MacHash::Sha384
        },
        r matches Err(e) ==> e is Rustls,
{
}

/// The opening request is a bare Start of TEAP version 1 under the plan's identifier.
pub proof fn law_opening_is_a_bare_start(s: TeapServer, r: (u8, TeapOuter), p: ServerPlan, done: bool)
    requires
        call_ensures(TeapServer::start, (&s,), r),
        call_ensures(TeapServer::plan, (&s,), p),
        call_ensures(TeapServer::is_done, (&s,), done),
    ensures
        r.0 == p.id,
        r.1.start,
        !r.1.more_fragments,
        r.1.version == 1,
        r.1.tls_message_length is None,
        r.1.data@.len() == 0,
        done <==> p.phase == ServerPhase::Done,
        p == s.standing(),
{
}

/// What a client sent in the outer handshake is not read; afterwards all that is decrypted
/// comes out, and nothing is left. The plan and the inner tunnel do not move by it.
pub proof fn law_server_reads_behind_the_handshake(
    s: &mut TeapServer,
    records: &[u8],
    r: Result<Option<Vec<u8>>, FipsTlsError>,
)
    requires
        call_ensures(TeapServer::receive, (s, records), r),
    ensures
        r matches Ok(None) ==> old(s).standing().phase == ServerPhase::OuterHandshake,
        r matches Ok(Some(plain)) ==> old(s).standing().phase != ServerPhase::OuterHandshake
            && crate::fips_tls::server::server_received(final(s).outer_connection()).len() == 0
            && plain@.len() >= crate::fips_tls::server::server_received(
            old(s).outer_connection(),
        ).len(),
        records@.len() == 0 ==> r is Ok,
        records@.len() == 0 && old(s).standing().phase != ServerPhase::OuterHandshake ==> (
        r matches Ok(Some(plain)) && plain@ == crate::fips_tls::server::server_received(
            old(s).outer_connection(),
        )),
        final(s).standing() == old(s).standing(),
        final(s).inner_connection() == old(s).inner_connection(),
{
    if let Ok(Some(plain)) = r {
        let waiting = crate::fips_tls::server::server_received(old(s).outer_connection());
        assert((plain@ + crate::fips_tls::server::server_received(final(s).outer_connection())).len()
            >= waiting.len());
    }
}

/// The inner records go to the inner tunnel alone.
pub proof fn law_inner_records_go_inside(
    s: &mut TeapServer,
    records: &[u8],
    r: Result<(), FipsTlsError>,
)
    requires
        call_ensures(TeapServer::receive_inner, (s, records), r),
    ensures
        final(s).standing() == old(s).standing(),
        final(s).outer_connection() == old(s).outer_connection(),
        records@.len() == 0 ==> r is Ok && *final(s) == *old(s),
        crate::fips_tls::server::server_terms(final(s).inner_connection())
            == crate::fips_tls::server::server_terms(old(s).inner_connection()) || r is Err,
{
}

/// What a server sends follows its handshakes: a flight of the outer tunnel while that
/// handshake goes on, one of the inner tunnel while that one does, the encrypted commitment
/// of one zero octet behind it, and no records with any other message. It fails only where
/// the commitment is not taken, and then the plan stays.
pub proof fn law_server_sends_what_is_due(s: &mut TeapServer, r: Result<ServerReply, FipsTlsError>)
    requires
        call_ensures(TeapServer::handle, (s,), r),
        old(s).standing().phase != ServerPhase::Done,
    ensures
        ({
            let phase = old(s).standing().phase;
            let outer = old(s).outer_connection();
            let inner = old(s).inner_connection();
            let outer_goes_on = crate::fips_tls::server::server_handshaking(outer);
            let inner_goes_on = crate::fips_tls::server::server_handshaking(inner);
            let commits = phase == ServerPhase::InnerHandshake && !inner_goes_on;
            &&& r is Err ==> commits && final(s).standing() == old(s).standing()
            &&& commits && crate::fips_tls::server::server_write_accepted(inner, seq![0u8]) ==> (
            r matches Ok(reply) && reply.flight@
                == crate::fips_tls::server::server_outgoing_after_write(inner, seq![0u8])
                && reply.action.message == ServerMessage::Commitment)
            &&& phase == ServerPhase::OuterHandshake && outer_goes_on ==> (r matches Ok(reply)
                && reply.flight@ == crate::fips_tls::server::server_outgoing(outer)
                && reply.action.message == ServerMessage::OuterFlight)
            &&& phase == ServerPhase::InnerHandshake && inner_goes_on ==> (r matches Ok(reply)
                && reply.flight@ == crate::fips_tls::server::server_outgoing(inner)
                && reply.action.message == ServerMessage::InnerFlight)
            &&& phase == ServerPhase::OuterHandshake && !outer_goes_on ==> (r matches Ok(reply)
                && reply.flight@.len() == 0 && reply.action.message == ServerMessage::OpenInner)
            &&& phase == ServerPhase::AfterCommit ==> (r matches Ok(reply) && reply.flight@.len() == 0
                && reply.action.message == ServerMessage::CryptoBinding)
            &&& phase == ServerPhase::AwaitClientBinding ==> (r matches Ok(reply)
                && reply.flight@.len() == 0 && reply.action.message == ServerMessage::FinalResult)
            &&& phase == ServerPhase::AwaitClientResult ==> (r matches Ok(reply)
                && reply.flight@.len() == 0 && reply.action.message == ServerMessage::Success
                && final(s).standing().phase == ServerPhase::Done)
            &&& r matches Ok(reply) ==> reply.action.id == final(s).standing().id && (
            reply.action.id - old(s).standing().id) % 256 == 1
        }),
{
}

/// TLVs go out in the outer tunnel, and the keys of the crypto-binding are 40 octets of the
/// outer exporter and 64 of the inner one, each under its label.
pub proof fn law_binding_keys_are_both_exporters(
    s: TeapServer,
    r: Result<(SecretBytes, SecretBytes), FipsTlsError>,
    t: &mut TeapServer,
    tlvs: &[u8],
    v: Result<Vec<u8>, FipsTlsError>,
)
    requires
        call_ensures(TeapServer::binding_keys, (&s,), r),
        call_ensures(TeapServer::protect_tlvs, (t, tlvs), v),
    ensures
        ({
            let seed = crate::fips_tls::server::server_exported(
                s.outer_connection(),
                crate::fips_tls::backend::seed_label(),
                40,
            );
            let key = crate::fips_tls::server::server_exported(
                s.inner_connection(),
                crate::supplicant::inner_tls::key_label(),
                64,
            );
            &&& r is Ok <==> seed is Some && key is Some
            &&& r matches Ok((a, b)) ==> Some(a@) == seed && Some(b@) == key
        }),
        v is Ok <==> crate::fips_tls::server::server_write_accepted(old(t).outer_connection(), tlvs@),
        v matches Ok(out) ==> out@ == crate::fips_tls::server::server_outgoing_after_write(
            old(t).outer_connection(),
            tlvs@,
        ),
        final(t).standing() == old(t).standing(),
        final(t).inner_connection() == old(t).inner_connection(),
{
}

/// The key schedule of a server is HMAC-SHA-384, from its beginning on.
pub proof fn law_server_binds_with_sha384(
    server_id: Id,
    client_cert: &[u8],
    identity: Identity,
    s: TeapServer,
    m: AwsLcMac,
)
    requires
        call_ensures(
            TeapServer::new,
            (&server_id, client_cert, identity),
            Ok::<TeapServer, FipsTlsError>(s),
        ),
        call_ensures(TeapServer::mac, (&s,), m),
    ensures
        m.hash == crate::fips_tls::mac::MacHash::Sha384,
{
}

} // verus!
