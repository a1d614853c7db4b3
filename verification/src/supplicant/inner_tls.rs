//! The inner EAP-TLS method: the certificate authentication of the machine or the
//! user, inside the tunnel.
//!
//! It drives a second TLS 1.3 handshake in which the client presents its
//! certificate. After the client's last flight the server sends a protected
//! commitment message; receiving it completes the method and yields the inner key.
use crate::fips_tls::backend::{TeapTlsClient, TLS_BUFFER_LIMIT};
use crate::supplicant::driver::queue_of;
use crate::supplicant::framing::{EapCode, EapPacket, TeapOuter};
use crate::text::joined;
use rustls::ClientConfig;
use std::collections::VecDeque;
use std::sync::Arc;
use vstd::prelude::*;

verus! {

/// The EAP type of EAP-TLS.
pub const EAP_TLS_TYPE: u8 = 13;

/// The low bits of an EAP-TLS message, where TEAP has its version, are zero.
pub const EAP_TLS_VERSION: u8 = 0;

/// Octets that are exported; the inner key is their beginning.
pub const EAP_TLS_KEY_LEN: usize = 64;

/// The exporter label of the EAP-TLS 1.3 key material:
/// `EXPORTER_EAP_TLS_Key_Material`.
pub open spec fn key_label() -> Seq<u8> {
    seq![
        0x45u8, 0x58u8, 0x50u8, 0x4fu8, 0x52u8, 0x54u8, 0x45u8, 0x52u8, 0x5fu8, 0x45u8, 0x41u8, 0x50u8,
        0x5fu8, 0x54u8, 0x4cu8, 0x53u8, 0x5fu8, 0x4bu8, 0x65u8, 0x79u8, 0x5fu8, 0x4du8, 0x61u8, 0x74u8,
        0x65u8, 0x72u8, 0x69u8, 0x61u8, 0x6cu8,
    ]
}

/// The exporter label of the key material.
pub(crate) fn key_label_octets() -> (label: [u8; 29])
    ensures
        label@ == key_label(),
{
    let label: [u8; 29] = [
        0x45, 0x58, 0x50, 0x4f, 0x52, 0x54, 0x45, 0x52, 0x5f, 0x45, 0x41, 0x50, 0x5f, 0x54, 0x4c,
        0x53, 0x5f, 0x4b, 0x65, 0x79, 0x5f, 0x4d, 0x61, 0x74, 0x65, 0x72, 0x69, 0x61, 0x6c,
    ];
    assert(label@ =~= key_label());
    label
}

/// Why the inner method stopped.
#[derive(Debug, Clone, Copy, PartialEq, Eq, Structural)]
pub enum InnerTlsError {
    /// The inner TLS connection could not be created.
    Connect,
    /// A framing, TLS or sequencing failure during the inner handshake.
    Protocol,
}

/// Where the inner method stands.
#[derive(Debug, Clone, Copy, PartialEq, Eq, Structural)]
pub enum State {
    /// The handshake is in progress.
    Handshake,
    /// The handshake is complete; the commitment is awaited.
    AwaitCommitment,
    /// The method has completed.
    Done,
    /// The method has failed.
    Failed,
}

impl State {
    /// The state's name.
    pub open spec fn name(self) -> Seq<char> {
        match self {
            State::Handshake => "Handshake"@,
            State::AwaitCommitment => "AwaitCommitment"@,
            State::Done => "Done"@,
            State::Failed => "Failed"@,
        }
    }
}

/// What to do next.
pub enum InnerAction {
    /// Parse the packet's type data; report with [`EapTlsInner::on_outer`].
    ParseOuter,
    /// Push that message to the reassembler; report with
    /// [`EapTlsInner::on_records`].
    Reassemble,
    /// Split these octets into messages within the fragment budget; report with
    /// [`EapTlsInner::send_fragments`].
    Fragment {
        /// The octets.
        message: Vec<u8>,
    },
    /// Send this message in an EAP response.
    Respond {
        /// The response's identifier.
        id: u8,
        /// The message.
        outer: TeapOuter,
    },
    /// Send a bare acknowledgement in an EAP response.
    Acknowledge {
        /// The response's identifier.
        id: u8,
        /// The version in the acknowledgement.
        version: u8,
    },
    /// The method has completed with this inner key.
    Done {
        /// The inner key.
        imsk: Vec<u8>,
    },
    /// The method has failed.
    Failed,
}

/// Where the inner method stands, as mathematical values.
#[verifier::ext_equal]
pub struct InnerState {
    /// The state.
    pub state: State,
    /// The opening message was received.
    pub started: bool,
    /// The messages that wait for an acknowledgement to be sent.
    pub queue: Seq<TeapOuter>,
    /// The identifier of the last request.
    pub last_id: u8,
}

/// Where the method stands in the beginning.
pub open spec fn first_standing() -> InnerState {
    InnerState { state: State::Handshake, started: false, queue: Seq::empty(), last_id: 0 }
}

/// The state after a failure: nothing goes on from there.
pub open spec fn failed(s: InnerState) -> InnerState {
    InnerState { state: State::Failed, ..s }
}

/// The method can still go on.
pub open spec fn live(s: InnerState) -> bool {
    s.state == State::Handshake || s.state == State::AwaitCommitment
}

/// What a decoded packet does to the method: only a request of EAP-TLS is taken,
/// and only while the method can still go on.
pub open spec fn after_packet(s: InnerState, code: EapCode, id: u8, type_: Option<u8>) -> InnerState {
    if live(s) && code == EapCode::Request && type_ == Some(EAP_TLS_TYPE) {
        InnerState { last_id: id, ..s }
    } else {
        failed(s)
    }
}

/// What comes of a handshake whose tunnel stands as `before` stands: the next flight
/// while it is in progress; on completion the final flight, and the commitment is
/// awaited, if the negotiated parameters are allowed. The tunnel gives out its
/// flight and keeps all else; the guard passes exactly where they are allowed.
pub open spec fn inner_advanced(
    before: TeapTlsClient,
    after: TeapTlsClient,
    s: InnerState,
    t: InnerState,
    r: InnerAction,
) -> bool {
    let conn = before.connection();
    let flight = crate::fips_tls::backend::outgoing(conn);
    let handshaking = crate::fips_tls::backend::handshaking(conn);
    let allowed = crate::fips_tls::backend::allowed(crate::fips_tls::backend::negotiated(conn));
    &&& crate::fips_tls::backend::flushed(conn, after.connection())
    &&& after.guard_passed() == (before.guard_passed() || (!handshaking && allowed))
    &&& if handshaking {
        &&& t == s
        &&& r matches InnerAction::Fragment { message } && message@ == flight
    } else if allowed {
        &&& t == (InnerState { state: State::AwaitCommitment, ..s })
        &&& r matches InnerAction::Fragment { message } && message@ == flight
    } else {
        r is Failed && t == failed(s)
    }
}

/// What comes of a handshake message: the tunnel refuses it, or takes it in, and the
/// handshake is gone on with from where the tunnel then stands. An empty message is
/// not refused.
pub open spec fn inner_handshake_step(
    before: TeapTlsClient,
    after: TeapTlsClient,
    records: Seq<u8>,
    s: InnerState,
    t: InnerState,
    r: InnerAction,
) -> bool {
    if records.len() == 0 {
        inner_advanced(before, after, s, t, r)
    } else {
        ||| {
            &&& r is Failed
            &&& t == failed(s)
            &&& crate::fips_tls::backend::grew(before.connection(), after.connection())
            &&& after.guard_passed() == before.guard_passed()
        }
        ||| exists|taken: TeapTlsClient|
            {
                &&& #[trigger] crate::fips_tls::backend::fed(
                    before.connection(),
                    records,
                    taken.connection(),
                )
                &&& taken.guard_passed() == before.guard_passed()
                &&& inner_advanced(taken, after, s, t, r)
            }
    }
}

/// What comes of a commitment message: the inner key from the exporter, or a
/// failure if the message is empty, the export fails, or the key would be longer
/// than what is exported.
pub open spec fn commitment_result(
    m: EapTlsInner,
    records: Seq<u8>,
    imsk_len: nat,
    t: InnerState,
    r: InnerAction,
) -> bool {
    let s = m.standing();
    let key = crate::fips_tls::backend::exported(
        m.inner_tunnel().connection(),
        key_label(),
        EAP_TLS_KEY_LEN as nat,
    );
    if records.len() == 0 || key is None || imsk_len > EAP_TLS_KEY_LEN {
        r is Failed && t == failed(s)
    } else {
        &&& t == (InnerState { state: State::Done, ..s })
        &&& r matches InnerAction::Done { imsk } && imsk@ == key->0.take(imsk_len as int)
            && imsk@.len() == imsk_len && key->0.len() == EAP_TLS_KEY_LEN
    }
}

/// What one call of [`EapTlsInner::on_packet`] does.
pub open spec fn packet_step(
    m: EapTlsInner,
    code: EapCode,
    id: u8,
    type_: Option<u8>,
    n: EapTlsInner,
    r: InnerAction,
) -> bool {
    &&& n.inner_tunnel() == m.inner_tunnel()
    &&& n.standing() == after_packet(m.standing(), code, id, type_)
    &&& if live(n.standing()) {
        r is ParseOuter
    } else {
        r is Failed
    }
}

/// What one call of [`EapTlsInner::on_outer`] does.
pub open spec fn outer_step(
    m: EapTlsInner,
    start: bool,
    is_ack: bool,
    n: EapTlsInner,
    r: InnerAction,
) -> bool {
    let s = m.standing();
    let t = n.standing();
    let same_tunnel = n.inner_tunnel() == m.inner_tunnel();
    if !live(s) {
        r is Failed && t == failed(s) && same_tunnel
    } else if is_ack && s.queue.len() > 0 {
        let sent = crate::supplicant::driver::acknowledged(s.queue);
        &&& same_tunnel
        &&& t == (InnerState { queue: sent.0, ..s })
        &&& r matches InnerAction::Respond { id, outer } && id == s.last_id && outer == sent.1
    } else if s.state == State::AwaitCommitment || s.started {
        r is Reassemble && t == s && same_tunnel
    } else if start {
        &&& t == (InnerState { started: true, ..s })
        &&& n.inner_tunnel().guard_passed() == m.inner_tunnel().guard_passed()
        &&& crate::fips_tls::backend::flushed(
            m.inner_tunnel().connection(),
            n.inner_tunnel().connection(),
        )
        &&& r matches InnerAction::Fragment { message } && message@
            == crate::fips_tls::backend::outgoing(m.inner_tunnel().connection())
    } else {
        r is Failed && t == failed(s) && same_tunnel
    }
}

/// What one call of [`EapTlsInner::on_records`] does.
pub open spec fn records_step(
    m: EapTlsInner,
    records: Option<Seq<u8>>,
    imsk_len: nat,
    n: EapTlsInner,
    r: InnerAction,
) -> bool {
    let s = m.standing();
    let t = n.standing();
    let same_tunnel = n.inner_tunnel() == m.inner_tunnel();
    if !live(s) || (s.state == State::Handshake && !s.started) {
        r is Failed && t == failed(s) && same_tunnel
    } else if records is None {
        &&& same_tunnel
        &&& t == s
        &&& r matches InnerAction::Acknowledge { id, version } && id == s.last_id && version
            == EAP_TLS_VERSION
    } else if s.state == State::Handshake {
        inner_handshake_step(m.inner_tunnel(), n.inner_tunnel(), records->0, s, t, r)
    } else {
        same_tunnel && commitment_result(m, records->0, imsk_len, t, r)
    }
}

/// The method was stopped.
pub open spec fn stopped(m: EapTlsInner, n: EapTlsInner, r: InnerAction) -> bool {
    r is Failed && n.standing() == failed(m.standing()) && n.inner_tunnel() == m.inner_tunnel()
}

/// What one call of [`EapTlsInner::process`] does from the parsed message on: `given`
/// is what reassembly gave, where it was asked for.
pub open spec fn message_step(
    m: EapTlsInner,
    outer: Option<(bool, bool)>,
    given: Option<Option<Seq<u8>>>,
    imsk_len: nat,
    n: EapTlsInner,
    r: InnerAction,
) -> bool {
    match outer {
        None => stopped(m, n, r),
        Some((start, is_ack)) => exists|k: EapTlsInner, a: InnerAction|
            {
                &&& #[trigger] outer_step(m, start, is_ack, k, a)
                &&& if a is Reassemble {
                    match given {
                        None => stopped(k, n, r),
                        Some(records) => records_step(k, records, imsk_len, n, r),
                    }
                } else {
                    n == k && r == a
                }
            },
    }
}

/// What one call of [`EapTlsInner::process`] does.
pub open spec fn process_step(
    m: EapTlsInner,
    pkt: Option<EapPacket>,
    outer: Option<(bool, bool)>,
    given: Option<Option<Seq<u8>>>,
    imsk_len: nat,
    n: EapTlsInner,
    r: InnerAction,
) -> bool {
    match pkt {
        None => stopped(m, n, r),
        Some(p) => exists|k: EapTlsInner, a: InnerAction|
            {
                &&& #[trigger] packet_step(m, p.code, p.id, p.type_, k, a)
                &&& k.wf()
                &&& if a is ParseOuter {
                    message_step(k, outer, given, imsk_len, n, r)
                } else {
                    n == k && r == a
                }
            },
    }
}

/// Whether a packet brings a message that is to be reassembled.
pub open spec fn reassembles(
    s: InnerState,
    pkt: Option<EapPacket>,
    outer: Option<(bool, bool)>,
) -> bool {
    &&& live(s)
    &&& pkt matches Some(p) && p.code == EapCode::Request && p.type_ == Some(EAP_TLS_TYPE)
    &&& outer matches Some((start, is_ack)) && !(is_ack && s.queue.len() > 0)
    &&& s.state == State::AwaitCommitment || s.started
}

/// What reassembly gave, as mathematical values.
pub open spec fn given_view(given: Option<Option<Vec<u8>>>) -> Option<Option<Seq<u8>>> {
    match given {
        None => None,
        Some(None) => Some(None),
        Some(Some(v)) => Some(Some(v@)),
    }
}

/// One call that hands the method something of the server's, with what it gives.
/// The calls that only pass on pieces of our own messages are not among them.
pub open spec fn called(m: EapTlsInner, n: EapTlsInner, r: InnerAction) -> bool {
    ||| stopped(m, n, r)
    ||| exists|
        pkt: Option<EapPacket>,
        outer: Option<(bool, bool)>,
        given: Option<Option<Seq<u8>>>,
        imsk_len: nat,
    | #[trigger]
        process_step(m, pkt, outer, given, imsk_len, n, r)
    ||| exists|code: EapCode, id: u8, type_: Option<u8>| #[trigger]
        packet_step(m, code, id, type_, n, r)
    ||| exists|start: bool, is_ack: bool| #[trigger] outer_step(m, start, is_ack, n, r)
    ||| exists|records: Option<Seq<u8>>, imsk_len: nat| #[trigger]
        records_step(m, records, imsk_len, n, r)
}

/// The inner EAP-TLS method.
pub struct EapTlsInner {
    tunnel: TeapTlsClient,
    out_queue: VecDeque<TeapOuter>,
    state: State,
    started: bool,
    max_fragment: usize,
    last_id: u8,
}

impl EapTlsInner {
    /// Where the method stands.
    pub closed spec fn standing(self) -> InnerState {
        InnerState {
            state: self.state,
            started: self.started,
            queue: self.out_queue@,
            last_id: self.last_id,
        }
    }

    /// The inner tunnel.
    pub closed spec fn inner_tunnel(self) -> TeapTlsClient {
        self.tunnel
    }

    /// On what terms the tunnel was made, and for which server.
    pub open spec fn terms(self) -> (crate::fips_tls::backend::ClientTerms, Seq<char>) {
        crate::fips_tls::backend::connection_terms(self.inner_tunnel().connection())
    }

    /// The fragment budget.
    pub closed spec fn budget(self) -> usize {
        self.max_fragment
    }

    /// What always holds: the commitment is awaited, and the method completed,
    /// only behind the parameter guard; the tunnel's buffers are capped, and its
    /// stream has not broken off.
    pub open spec fn wf(self) -> bool {
        let conn = self.inner_tunnel().connection();
        &&& crate::fips_tls::backend::buffer_limit(conn) == Some(TLS_BUFFER_LIMIT)
        &&& !crate::fips_tls::backend::broken_off(conn)
        &&& self.standing().state == State::AwaitCommitment || self.standing().state == State::Done
            ==> self.inner_tunnel().guard_passed()
    }

    /// Build the method from a client configuration (which carries the client's
    /// certificate) and the server name.
    pub fn new(config: Arc<ClientConfig>, server_name: &str, max_fragment: usize) -> (r: Result<
        Self,
        InnerTlsError,
    >)
        ensures
            match r {
                Ok(m) => {
                    &&& m.wf()
                    &&& m.standing() == first_standing()
                    &&& m.budget() == max_fragment
                    &&& !m.inner_tunnel().guard_passed()
                    &&& crate::fips_tls::backend::is_new(m.inner_tunnel().connection())
                    &&& m.terms() == (crate::fips_tls::backend::config_terms(*config), server_name@)
                },
                Err(e) => e == InnerTlsError::Connect,
            },
            !crate::fips_tls::backend::is_server_name(server_name@) ==> r is Err,
    {
        match TeapTlsClient::connect(config, server_name) {
            Err(_) => Err(InnerTlsError::Connect),
            Ok(tunnel) => {
                let m: EapTlsInner = EapTlsInner {
                    tunnel,
                    out_queue: VecDeque::new(),
                    state: State::Handshake,
                    started: false,
                    max_fragment,
                    last_id: 0,
                };
                assert(m.standing().queue =~= Seq::empty());
                Ok(m)
            },
        }
    }

    /// What may be shown of the method: its state alone.
    pub open spec fn redacted_text(self) -> Seq<char> {
        "EapTlsInner { state: "@ + self.standing().state.name() + ", .. }"@
    }

    /// What may be shown of the method.
    pub fn redacted(&self) -> (t: String)
        ensures
            t@ == self.redacted_text(),
    {
        let state: &'static str = match self.state {
            State::Handshake => "Handshake",
            State::AwaitCommitment => "AwaitCommitment",
            State::Done => "Done",
            State::Failed => "Failed",
        };
        joined("EapTlsInner { state: ", state, ", .. }")
    }

    /// The fragment budget.
    pub fn max_fragment(&self) -> (n: usize)
        ensures
            n == self.budget(),
    {
        self.max_fragment
    }

    /// Stop: the framing layer could not decode or encode.
    pub fn fail(&mut self) -> (r: InnerAction)
        requires
            old(self).wf(),
        ensures
            final(self).wf(),
            final(self).inner_tunnel() == old(self).inner_tunnel(),
            final(self).budget() == old(self).budget(),
            final(self).standing() == failed(old(self).standing()),
            r is Failed,
    {
        self.state = State::Failed;
        InnerAction::Failed
    }

    /// Process one inner EAP packet: `pkt` is the packet, if it could be decoded,
    /// `outer` whether its message opens the method and whether it is a bare
    /// acknowledgement, if it could be parsed. `reassemble` is called where the message
    /// is to be pushed to the reassembler: it gives a whole TLS message, `Some(None)`
    /// while fragments are missing, or `None` if the message does not fit. The first
    /// `imsk_len` exported octets make the inner key.
    pub fn process<F: FnOnce() -> Option<Option<Vec<u8>>>>(
        &mut self,
        pkt: Option<EapPacket>,
        outer: Option<(bool, bool)>,
        reassemble: F,
        imsk_len: usize,
    ) -> (r: InnerAction)
        requires
            old(self).wf(),
            call_requires(reassemble, ()),
        ensures
            final(self).wf(),
            final(self).budget() == old(self).budget(),
            final(self).terms() == old(self).terms(),
            exists|given: Option<Option<Vec<u8>>>|
                {
                    &&& reassembles(old(self).standing(), pkt, outer) ==> call_ensures(
                        reassemble,
                        (),
                        given,
                    )
                    &&& #[trigger] process_step(
                        *old(self),
                        pkt,
                        outer,
                        given_view(given),
                        imsk_len as nat,
                        *final(self),
                        r,
                    )
                },
    {
        let ghost unasked: Option<Option<Vec<u8>>> = None;
        let ghost start_of = *self;
        let p: EapPacket = match pkt {
            Some(p) => p,
            None => {
                let r: InnerAction = self.fail();
                assert(process_step(start_of, pkt, outer, given_view(unasked), imsk_len as nat, *self, r));
                return r;
            },
        };
        let a: InnerAction = self.on_packet(&p);
        let ghost k = *self;
        assert(packet_step(start_of, p.code, p.id, p.type_, k, a));
        if !matches!(a, InnerAction::ParseOuter) {
            assert(process_step(start_of, pkt, outer, given_view(unasked), imsk_len as nat, *self, a));
            return a;
        }
        let (start, is_ack): (bool, bool) = match outer {
            Some(flags) => flags,
            None => {
                let r: InnerAction = self.fail();
                assert(message_step(k, outer, given_view(unasked), imsk_len as nat, *self, r));
                assert(process_step(start_of, pkt, outer, given_view(unasked), imsk_len as nat, *self, r));
                return r;
            },
        };
        let b: InnerAction = self.on_outer(start, is_ack);
        let ghost j = *self;
        assert(outer_step(k, start, is_ack, j, b));
        if !matches!(b, InnerAction::Reassemble) {
            assert(message_step(k, outer, given_view(unasked), imsk_len as nat, *self, b));
            assert(process_step(start_of, pkt, outer, given_view(unasked), imsk_len as nat, *self, b));
            return b;
        }
        let given: Option<Option<Vec<u8>>> = reassemble();
        let ghost got = given;
        let r: InnerAction = match given {
            None => self.fail(),
            Some(records) => self.on_records(records, imsk_len),
        };
        assert(message_step(k, outer, given_view(got), imsk_len as nat, *self, r));
        assert(process_step(start_of, pkt, outer, given_view(got), imsk_len as nat, *self, r));
        r
    }

    /// Process one decoded inner EAP packet: only a request of EAP-TLS, while the
    /// method can still go on.
    pub fn on_packet(&mut self, pkt: &EapPacket) -> (r: InnerAction)
        requires
            old(self).wf(),
        ensures
            final(self).wf(),
            final(self).budget() == old(self).budget(),
            packet_step(*old(self), pkt.code, pkt.id, pkt.type_, *final(self), r),
    {
        if self.state == State::Done || self.state == State::Failed {
            return self.fail();
        }
        let is_eap_tls: bool = match pkt.type_ {
            Some(t) => t == EAP_TLS_TYPE,
            None => false,
        };
        if pkt.code != EapCode::Request || !is_eap_tls {
            return self.fail();
        }
        self.last_id = pkt.id;
        InnerAction::ParseOuter
    }

    /// Process the message of a request: whether it opens the method, and whether
    /// it is a bare acknowledgement.
    pub fn on_outer(&mut self, start: bool, is_ack: bool) -> (r: InnerAction)
        requires
            old(self).wf(),
        ensures
            final(self).wf(),
            final(self).budget() == old(self).budget(),
            final(self).terms() == old(self).terms(),
            outer_step(*old(self), start, is_ack, *final(self), r),
    {
        if self.state == State::Done || self.state == State::Failed {
            return self.fail();
        }
        if is_ack {
            if let Some(outer) = self.out_queue.pop_front() {
                assert(self.out_queue@ =~= old(self).out_queue@.skip(1));
                return InnerAction::Respond { id: self.last_id, outer };
            }
        }
        if self.state == State::AwaitCommitment || self.started {
            return InnerAction::Reassemble;
        }
        // The inner server opens with EAP-TLS Start.

        if !start {
            return self.fail();
        }
        self.started = true;
        match self.tunnel.take_outgoing() {
            Ok(client_hello) => InnerAction::Fragment { message: client_hello },
            Err(_) => self.fail(),
        }
    }

    /// Process what the reassembler gave: a whole TLS message, or `None` while
    /// fragments are missing. `imsk_len` is how many of the exported octets make
    /// the inner key. A handshake message is fed to the tunnel, which may refuse
    /// it; the handshake is then gone on with from where the tunnel stands.
    pub fn on_records(&mut self, records: Option<Vec<u8>>, imsk_len: usize) -> (r: InnerAction)
        requires
            old(self).wf(),
        ensures
            final(self).wf(),
            final(self).budget() == old(self).budget(),
            final(self).terms() == old(self).terms(),
            records is None && live(old(self).standing()) && !(r is Failed) ==> *final(self) == *old(
                self,
            ),
            records_step(
                *old(self),
                match records {
                    Some(v) => Some(v@),
                    None => None,
                },
                imsk_len as nat,
                *final(self),
                r,
            ),
    {
        if self.state == State::Done || self.state == State::Failed {
            return self.fail();
        }
        if self.state == State::Handshake && !self.started {
            return self.fail();
        }
        let octets: Vec<u8> = match records {
            Some(v) => v,
            None => {
                return InnerAction::Acknowledge { id: self.last_id, version: EAP_TLS_VERSION };
            },
        };
        if self.state == State::Handshake {
            match self.tunnel.feed_incoming(octets.as_slice()) {
                Err(_) => self.fail(),
                Ok(()) => {
                    let ghost taken = self.tunnel;
                    assert(crate::fips_tls::backend::fed(
                        old(self).inner_tunnel().connection(),
                        octets@,
                        taken.connection(),
                    ));
                    self.on_handshake()
                },
            }
        } else {
            self.on_commitment(octets.as_slice(), imsk_len)
        }
    }

    /// Go on with the handshake from where the tunnel stands: emit the next flight
    /// while it is in progress; on completion emit the final flight and await the
    /// commitment, if the negotiated parameters are allowed.
    pub fn on_handshake(&mut self) -> (r: InnerAction)
        requires
            old(self).wf(),
            old(self).standing().state == State::Handshake,
        ensures
            final(self).wf(),
            final(self).budget() == old(self).budget(),
            final(self).terms() == old(self).terms(),
            inner_advanced(
                old(self).inner_tunnel(),
                final(self).inner_tunnel(),
                old(self).standing(),
                final(self).standing(),
                r,
            ),
    {
        let handshaking: bool = self.tunnel.is_handshaking();
        let flight: Vec<u8> = match self.tunnel.take_outgoing() {
            Ok(f) => f,
            Err(_) => {
                return self.fail();
            },
        };
        if handshaking {
            return InnerAction::Fragment { message: flight };
        }
        match self.tunnel.finish_handshake() {
            Err(_) => self.fail(),
            Ok(()) => {
                self.state = State::AwaitCommitment;
                InnerAction::Fragment { message: flight }
            },
        }
    }

    /// Process the commitment: an actual record is required, so that completion
    /// cannot be forced by an empty frame. The inner key is the beginning of the
    /// exported material; the commitment need not be decrypted, as the key is a
    /// function of the completed handshake alone.
    pub fn on_commitment(&mut self, records: &[u8], imsk_len: usize) -> (r: InnerAction)
        requires
            old(self).wf(),
            old(self).standing().state == State::AwaitCommitment,
        ensures
            final(self).wf(),
            final(self).budget() == old(self).budget(),
            final(self).inner_tunnel() == old(self).inner_tunnel(),
            commitment_result(
                *old(self),
                records@,
                imsk_len as nat,
                final(self).standing(),
                r,
            ),
    {
        if records.len() == 0 {
            return self.fail();
        }
        let label: [u8; 29] = key_label_octets();
        match self.tunnel.export_keying_material(label.as_slice(), EAP_TLS_KEY_LEN) {
            Err(_) => self.fail(),
            Ok(key) => {
                if imsk_len > EAP_TLS_KEY_LEN {
                    return self.fail();
                }
                let imsk: Vec<u8> = crate::bytes::copy_range(key.as_slice(), 0, imsk_len);
                assert(imsk@ =~= key@.take(imsk_len as int));
                self.state = State::Done;
                InnerAction::Done { imsk }
            },
        }
    }

    /// Send a fragmented message: its first piece now, the others one by one as
    /// they are acknowledged. A message without pieces is a bare acknowledgement.
    pub fn send_fragments(&mut self, pieces: Vec<TeapOuter>) -> (r: InnerAction)
        requires
            old(self).wf(),
        ensures
            final(self).wf(),
            final(self).budget() == old(self).budget(),
            final(self).inner_tunnel() == old(self).inner_tunnel(),
            ({
                let s = old(self).standing();
                let t = final(self).standing();
                if pieces@.len() == 0 {
                    &&& t == (InnerState { queue: Seq::empty(), ..s })
                    &&& r matches InnerAction::Acknowledge { id, version } && id == s.last_id
                        && version == EAP_TLS_VERSION
                } else {
                    &&& t == (InnerState { queue: pieces@.skip(1), ..s })
                    &&& r matches InnerAction::Respond { id, outer } && id == s.last_id && outer
                        == pieces@[0]
                }
            }),
    {
        let mut queue: VecDeque<TeapOuter> = queue_of(pieces);
        let first: Option<TeapOuter> = queue.pop_front();
        self.out_queue = queue;
        match first {
            Some(outer) => {
                assert(self.out_queue@ =~= pieces@.skip(1));
                InnerAction::Respond { id: self.last_id, outer }
            },
            None => {
                assert(self.out_queue@ =~= Seq::empty());
                InnerAction::Acknowledge { id: self.last_id, version: EAP_TLS_VERSION }
            },
        }
    }
}

/// A method that has completed or failed takes nothing any more: whatever it is
/// handed, it answers with a failure and stays stopped.
pub proof fn law_stopped_method_stays_stopped(m: EapTlsInner, n: EapTlsInner, r: InnerAction)
    requires
        !live(m.standing()),
        called(m, n, r),
    ensures
        r is Failed,
        !live(n.standing()),
{
}

/// A failure and a completion both stop the method.
pub proof fn law_the_end_stops_the_method(m: EapTlsInner, n: EapTlsInner, r: InnerAction)
    requires
        called(m, n, r),
        r is Failed || r is Done,
    ensures
        !live(n.standing()),
{
}

/// Once a call has failed or completed the method, every later call fails, whatever
/// it hands the method. So the method completes at most once.
pub proof fn law_nothing_follows_the_end(
    ms: Seq<EapTlsInner>,
    rs: Seq<InnerAction>,
    i: int,
    j: int,
)
    requires
        ms.len() == rs.len() + 1,
        forall|k: int|
            0 <= k < rs.len() ==> called(#[trigger] ms[k], ms[k + 1], #[trigger] rs[k]),
        0 <= i < j < rs.len(),
        rs[i] is Failed || rs[i] is Done,
    ensures
        rs[j] is Failed,
        !live(ms[j].standing()),
    decreases j,
{
    if j == i + 1 {
        assert(called(ms[i], ms[i + 1], rs[i]));
        law_the_end_stops_the_method(ms[i], ms[i + 1], rs[i]);
    } else {
        law_nothing_follows_the_end(ms, rs, i, j - 1);
        assert(called(ms[j - 1], ms[j], rs[j - 1]));
        law_stopped_method_stays_stopped(ms[j - 1], ms[j], rs[j - 1]);
    }
    assert(called(ms[j], ms[j + 1], rs[j]));
    law_stopped_method_stays_stopped(ms[j], ms[j + 1], rs[j]);
}

/// The method completes only behind the parameter guard, on a commitment message
/// that is not empty, and its key has the length that was asked for.
pub proof fn law_completion_is_committed(
    m: EapTlsInner,
    records: Option<Seq<u8>>,
    imsk_len: nat,
    n: EapTlsInner,
    r: InnerAction,
)
    requires
        m.wf(),
        records_step(m, records, imsk_len, n, r),
        r is Done,
    ensures
        m.standing().state == State::AwaitCommitment,
        m.inner_tunnel().guard_passed(),
        records matches Some(v) && v.len() > 0,
        r matches InnerAction::Done { imsk } && imsk@.len() == imsk_len,
        n.standing().state == State::Done,
{
}

/// [`EapTlsInner::process`] completes the method only on a request of EAP-TLS that
/// brings a commitment message which is not empty, behind the parameter guard, and the
/// key has the length that was asked for.
pub proof fn law_process_completes_on_a_commitment(
    m: EapTlsInner,
    pkt: Option<EapPacket>,
    outer: Option<(bool, bool)>,
    given: Option<Option<Seq<u8>>>,
    imsk_len: nat,
    n: EapTlsInner,
    r: InnerAction,
)
    requires
        m.wf(),
        process_step(m, pkt, outer, given, imsk_len, n, r),
        r is Done,
    ensures
        pkt matches Some(p) && p.code == EapCode::Request && p.type_ == Some(EAP_TLS_TYPE),
        m.standing().state == State::AwaitCommitment,
        m.inner_tunnel().guard_passed(),
        given matches Some(Some(v)) && v.len() > 0,
        r matches InnerAction::Done { imsk } && imsk@.len() == imsk_len,
        n.standing().state == State::Done,
{
}

/// [`EapTlsInner::process`] fails the method on anything but a request of EAP-TLS.
pub proof fn law_process_takes_requests_alone(
    m: EapTlsInner,
    pkt: Option<EapPacket>,
    outer: Option<(bool, bool)>,
    given: Option<Option<Seq<u8>>>,
    imsk_len: nat,
    n: EapTlsInner,
    r: InnerAction,
)
    requires
        process_step(m, pkt, outer, given, imsk_len, n, r),
        !(pkt matches Some(p) && p.code == EapCode::Request && p.type_ == Some(EAP_TLS_TYPE)),
    ensures
        r is Failed,
        n.standing().state == State::Failed,
{
}

/// A packet that is not a request of EAP-TLS fails the method.
pub proof fn law_other_packets_fail_the_method(
    m: EapTlsInner,
    code: EapCode,
    id: u8,
    type_: Option<u8>,
    n: EapTlsInner,
    r: InnerAction,
)
    requires
        packet_step(m, code, id, type_, n, r),
    ensures
        code != EapCode::Request || type_ != Some(EAP_TLS_TYPE) ==> r is Failed && n.standing().state
            == State::Failed,
{
}

/// While the method can go on, every request of EAP-TLS, whose EAP type is 13, is taken
/// and its identifier kept for the response; nothing else moves.
pub proof fn law_requests_of_eap_tls_are_taken(
    m: &mut EapTlsInner,
    pkt: &EapPacket,
    r: InnerAction,
)
    requires
        call_ensures(EapTlsInner::on_packet, (m, pkt), r),
    ensures
        ({
            let s = old(m).standing();
            let taken = (s.state == State::Handshake || s.state == State::AwaitCommitment) && pkt.code
                == EapCode::Request && pkt.type_ == Some(13u8);
            &&& taken ==> r is ParseOuter && final(m).standing().last_id == pkt.id
                && final(m).standing().state == s.state
            &&& !taken ==> r is Failed && final(m).standing().state == State::Failed
                && final(m).standing().last_id == s.last_id
            &&& final(m).standing().queue == s.queue
            &&& final(m).standing().started == s.started
            &&& final(m).inner_tunnel() == old(m).inner_tunnel()
            &&& final(m).budget() == old(m).budget()
        }),
{
}

/// The pieces of a message go out whole and in order: the first at once, and the n-th
/// acknowledgement after it is answered with exactly the n-th following piece, under the
/// identifier of the request that brought it, until none is left. The method goes on all
/// the while. Acknowledgement `i` is a request that the method takes as `requested[i]`,
/// and a bare acknowledgement in it that it takes as `acked[i]`.
pub proof fn law_inner_acknowledgements_bring_the_pieces(
    m: &mut EapTlsInner,
    pieces: Vec<TeapOuter>,
    first: InnerAction,
    requested: Seq<&mut EapTlsInner>,
    pkts: Seq<&EapPacket>,
    qs: Seq<InnerAction>,
    acked: Seq<&mut EapTlsInner>,
    starts: Seq<bool>,
    rs: Seq<InnerAction>,
    n: int,
)
    requires
        old(m).standing().state == State::Handshake || old(m).standing().state
            == State::AwaitCommitment,
        call_ensures(EapTlsInner::send_fragments, (m, pieces), first),
        requested.len() == rs.len(),
        acked.len() == rs.len(),
        forall|i: int|
            0 <= i < rs.len() ==> {
                &&& call_ensures(EapTlsInner::on_packet, (#[trigger] requested[i], pkts[i]), qs[i])
                &&& pkts[i].code == EapCode::Request
                &&& pkts[i].type_ == Some(13u8)
                &&& *requested[i] == if i == 0 {
                    *final(m)
                } else {
                    *final(acked[i - 1])
                }
                &&& *acked[i] == *final(requested[i])
                &&& call_ensures(EapTlsInner::on_outer, (acked[i], starts[i], true), rs[i])
            },
        0 < n <= rs.len(),
        n < pieces@.len(),
    ensures
        first matches InnerAction::Respond { id, outer } && id == old(m).standing().last_id && outer
            == pieces@[0],
        rs[n - 1] matches InnerAction::Respond { id, outer } && id == pkts[n - 1].id && outer
            == pieces@[n],
        final(acked[n - 1]).standing().queue == pieces@.skip(n + 1),
        final(acked[n - 1]).standing().state == old(m).standing().state,
        final(acked[n - 1]).standing().started == old(m).standing().started,
        final(acked[n - 1]).inner_tunnel() == old(m).inner_tunnel(),
    decreases n,
{
    if n > 1 {
        law_inner_acknowledgements_bring_the_pieces(
            m,
            pieces,
            first,
            requested,
            pkts,
            qs,
            acked,
            starts,
            rs,
            n - 1,
        );
    }
    assert(call_ensures(EapTlsInner::on_packet, (requested[n - 1], pkts[n - 1]), qs[n - 1]));
    assert(pieces@.skip(n).skip(1) =~= pieces@.skip(n + 1));
}

/// The same of [`outer_step`] alone, for a method that goes on and whose pieces behind the
/// first wait: the n-th acknowledgement is answered with the n-th following piece and the
/// last request's identifier, the others wait on, and the method stays as it was.
pub proof fn law_each_acknowledgement_sends_one_piece(
    pieces: Seq<TeapOuter>,
    ms: Seq<EapTlsInner>,
    starts: Seq<bool>,
    rs: Seq<InnerAction>,
    n: int,
)
    requires
        ms.len() == rs.len() + 1,
        ms[0].standing().state == State::Handshake || ms[0].standing().state
            == State::AwaitCommitment,
        ms[0].standing().queue == pieces.skip(1),
        forall|i: int|
            0 <= i < rs.len() ==> outer_step(#[trigger] ms[i], starts[i], true, ms[i + 1], rs[i]),
        0 < n <= rs.len(),
        n < pieces.len(),
    ensures
        rs[n - 1] matches InnerAction::Respond { id, outer } && id == ms[0].standing().last_id
            && outer == pieces[n],
        ms[n].standing() == (InnerState { queue: pieces.skip(n + 1), ..ms[0].standing() }),
        ms[n].inner_tunnel() == ms[0].inner_tunnel(),
    decreases n,
{
    if n > 1 {
        law_each_acknowledgement_sends_one_piece(pieces, ms, starts, rs, n - 1);
    }
    assert(outer_step(ms[n - 1], starts[n - 1], true, ms[n], rs[n - 1]));
    assert(pieces.skip(n).skip(1) =~= pieces.skip(n + 1));
}

/// The first piece of a message goes out at once, under the last request's identifier, and
/// all others wait in place of any that waited before; nothing else moves.
pub proof fn law_inner_first_piece_goes_out(
    m: &mut EapTlsInner,
    pieces: Vec<TeapOuter>,
    r: InnerAction,
)
    requires
        call_ensures(EapTlsInner::send_fragments, (m, pieces), r),
        pieces@.len() > 0,
    ensures
        r matches InnerAction::Respond { id, outer } && id == old(m).standing().last_id && outer
            == pieces@[0],
        final(m).standing() == (InnerState { queue: pieces@.skip(1), ..old(m).standing() }),
        final(m).inner_tunnel() == old(m).inner_tunnel(),
{
}

/// Whatever the method is handed, its fragment budget stays.
pub proof fn law_budget_stays(
    a: &mut EapTlsInner,
    pkt: &EapPacket,
    ra: InnerAction,
    b: &mut EapTlsInner,
    start: bool,
    is_ack: bool,
    rb: InnerAction,
    c: &mut EapTlsInner,
    records: Option<Vec<u8>>,
    imsk_len: usize,
    rc: InnerAction,
    d: &mut EapTlsInner,
    pieces: Vec<TeapOuter>,
    rd: InnerAction,
)
    requires
        call_ensures(EapTlsInner::on_packet, (a, pkt), ra),
        call_ensures(EapTlsInner::on_outer, (b, start, is_ack), rb),
        call_ensures(EapTlsInner::on_records, (c, records, imsk_len), rc),
        call_ensures(EapTlsInner::send_fragments, (d, pieces), rd),
    ensures
        final(a).budget() == old(a).budget(),
        final(b).budget() == old(b).budget(),
        final(c).budget() == old(c).budget(),
        final(d).budget() == old(d).budget(),
{
}

/// A message without pieces is answered by a bare acknowledgement with version bits of
/// zero, and leaves nothing waiting.
pub proof fn law_inner_nothing_to_send_is_acknowledged(
    m: &mut EapTlsInner,
    pieces: Vec<TeapOuter>,
    r: InnerAction,
)
    requires
        call_ensures(EapTlsInner::send_fragments, (m, pieces), r),
        pieces@.len() == 0,
    ensures
        r matches InnerAction::Acknowledge { id, version } && id == old(m).standing().last_id
            && version == 0,
        final(m).standing() == (InnerState { queue: Seq::empty(), ..old(m).standing() }),
{
}

/// The method opens with Start and with nothing else: a method that was not started
/// answers Start with all that waits in its tunnel, and fails on any other message.
pub proof fn law_start_opens_the_method(m: &mut EapTlsInner, start: bool, is_ack: bool, r: InnerAction)
    requires
        call_ensures(EapTlsInner::on_outer, (m, start, is_ack), r),
        old(m).standing().state == State::Handshake,
        !old(m).standing().started,
        !is_ack || old(m).standing().queue.len() == 0,
    ensures
        start ==> {
            &&& r matches InnerAction::Fragment { message } && message@
                == crate::fips_tls::backend::outgoing(old(m).inner_tunnel().connection())
            &&& final(m).standing() == (InnerState { started: true, ..old(m).standing() })
            &&& crate::fips_tls::backend::outgoing(final(m).inner_tunnel().connection()).len() == 0
        },
        !start ==> r is Failed && final(m).standing().state == State::Failed
            && !final(m).standing().started,
        final(m).standing().last_id == old(m).standing().last_id,
        final(m).inner_tunnel().guard_passed() == old(m).inner_tunnel().guard_passed(),
{
}

/// Once started, every message that acknowledges nothing is reassembled, Start or not,
/// and does not move the method.
pub proof fn law_started_method_reassembles(
    m: &mut EapTlsInner,
    start: bool,
    is_ack: bool,
    r: InnerAction,
)
    requires
        call_ensures(EapTlsInner::on_outer, (m, start, is_ack), r),
        old(m).standing().state == State::AwaitCommitment || (old(m).standing().state
            == State::Handshake && old(m).standing().started),
        !is_ack || old(m).standing().queue.len() == 0,
    ensures
        r is Reassemble,
        final(m).standing() == old(m).standing(),
        final(m).inner_tunnel() == old(m).inner_tunnel(),
{
}

/// Records are looked at only by a method that was started and goes on: incomplete ones
/// are acknowledged under the request's identifier and do not move it, and any other
/// method fails on them.
pub proof fn law_inner_missing_fragments_are_acknowledged(
    m: &mut EapTlsInner,
    records: Option<Vec<u8>>,
    imsk_len: usize,
    r: InnerAction,
)
    requires
        call_ensures(EapTlsInner::on_records, (m, records, imsk_len), r),
    ensures
        ({
            let s = old(m).standing();
            let open = s.state == State::AwaitCommitment || (s.state == State::Handshake
                && s.started);
            &&& open && records is None ==> *final(m) == *old(m) && (
            r matches InnerAction::Acknowledge { id, version } && id == s.last_id && version == 0)
            &&& !open ==> r is Failed && final(m).standing().state == State::Failed
                && final(m).inner_tunnel() == old(m).inner_tunnel()
            &&& r is Acknowledge ==> open && records is None
            &&& final(m).standing().queue == s.queue
            &&& final(m).standing().last_id == s.last_id
            &&& final(m).standing().started == s.started
        }),
{
}

/// What records may lead to: in the handshake a flight or a failure, when the commitment
/// is awaited the key or a failure.
pub proof fn law_records_lead_on(
    m: &mut EapTlsInner,
    records: Vec<u8>,
    imsk_len: usize,
    r: InnerAction,
)
    requires
        old(m).wf(),
        call_ensures(EapTlsInner::on_records, (m, Some(records), imsk_len), r),
    ensures
        r is Fragment || r is Done || r is Failed,
        r is Fragment ==> old(m).standing().state == State::Handshake && (
        final(m).standing().state == State::Handshake || final(m).standing().state
            == State::AwaitCommitment),
        r is Fragment && final(m).standing().state == State::AwaitCommitment
            ==> final(m).inner_tunnel().guard_passed(),
        r is Done <==> final(m).standing().state == State::Done,
        r is Done ==> old(m).standing().state == State::AwaitCommitment && final(m).inner_tunnel()
            == old(m).inner_tunnel(),
        r is Failed <==> final(m).standing().state == State::Failed,
{
}

/// Going on with the handshake gives exactly what waits to be sent. The commitment is
/// awaited once the handshake is complete with TLS 1.3, AES-256-GCM-SHA384 and
/// ML-KEM-1024; a complete handshake with other parameters fails the method.
pub proof fn law_inner_handshake_completes_on_approved_parameters(
    m: &mut EapTlsInner,
    r: InnerAction,
)
    requires
        call_ensures(EapTlsInner::on_handshake, (m,), r),
    ensures
        ({
            let conn = old(m).inner_tunnel().connection();
            let going_on = crate::fips_tls::backend::handshaking(conn);
            let approved = crate::fips_tls::backend::negotiated(conn) == (
                Some(0x0304u16),
                Some(0x1302u16),
                Some(0x0202u16),
            );
            &&& going_on || approved <==> (r matches InnerAction::Fragment { message } && message@
                == crate::fips_tls::backend::outgoing(conn))
            &&& going_on ==> final(m).standing() == old(m).standing()
            &&& !going_on && approved ==> final(m).standing().state == State::AwaitCommitment
                && final(m).inner_tunnel().guard_passed()
            &&& !going_on && !approved ==> r is Failed && final(m).standing().state == State::Failed
                && final(m).inner_tunnel().guard_passed() == old(m).inner_tunnel().guard_passed()
            &&& final(m).standing().queue == old(m).standing().queue
            &&& final(m).standing().last_id == old(m).standing().last_id
            &&& final(m).standing().started == old(m).standing().started
            &&& crate::fips_tls::backend::outgoing(final(m).inner_tunnel().connection()).len() == 0
        }),
{
}

/// A commitment completes the method exactly if it is not empty, 64 octets of keying
/// material can be exported, and no more of them are asked for. The key is their
/// beginning. What the commitment holds does not matter otherwise.
pub proof fn law_commitment_gives_the_key(
    m: &mut EapTlsInner,
    records: Vec<u8>,
    imsk_len: usize,
    r: InnerAction,
)
    requires
        call_ensures(EapTlsInner::on_records, (m, Some(records), imsk_len), r),
        old(m).standing().state == State::AwaitCommitment,
    ensures
        ({
            let material = crate::fips_tls::backend::exported(
                old(m).inner_tunnel().connection(),
                key_label(),
                64,
            );
            &&& r is Done <==> records@.len() > 0 && material is Some && imsk_len <= 64
            &&& r matches InnerAction::Done { imsk } ==> {
                &&& imsk@.len() == imsk_len
                &&& forall|i: int| 0 <= i < imsk_len ==> #[trigger] imsk@[i] == material->0[i]
                &&& final(m).standing().state == State::Done
            }
            &&& !(r is Done) ==> r is Failed && final(m).standing().state == State::Failed
        }),
{
}

/// Two methods whose tunnels stand alike complete with keys of which the shorter begins
/// the longer, whatever commitments they got.
pub proof fn law_shorter_key_begins_the_longer(
    m: &mut EapTlsInner,
    n: &mut EapTlsInner,
    one: Vec<u8>,
    other: Vec<u8>,
    short: usize,
    long: usize,
    r: InnerAction,
    q: InnerAction,
)
    requires
        old(m).standing().state == State::AwaitCommitment,
        old(n).standing().state == State::AwaitCommitment,
        old(m).inner_tunnel() == old(n).inner_tunnel(),
        short <= long,
        call_ensures(EapTlsInner::on_records, (m, Some(one), short), r),
        call_ensures(EapTlsInner::on_records, (n, Some(other), long), q),
        q is Done,
        one@.len() > 0,
    ensures
        r matches InnerAction::Done { imsk } && (q matches InnerAction::Done { imsk: whole }
            && imsk@ =~= whole@.take(short as int)),
{
    let material = crate::fips_tls::backend::exported(
        old(m).inner_tunnel().connection(),
        key_label(),
        64,
    );
    assert(material is Some);
    assert(material->0.take(long as int).take(short as int) =~= material->0.take(short as int));
}

/// The exporter label is the text `EXPORTER_EAP_TLS_Key_Material`.
pub proof fn law_key_label_is_its_text()
    ensures
        key_label().len() == "EXPORTER_EAP_TLS_Key_Material"@.len(),
        forall|i: int|
            0 <= i < key_label().len() ==> #[trigger] key_label()[i] as char
                == "EXPORTER_EAP_TLS_Key_Material"@[i],
{
    reveal_strlit("EXPORTER_EAP_TLS_Key_Material");
}

/// [`EapTlsInner::process`] answers a request that acknowledges a piece with the next one,
/// under its own identifier, without asking for reassembly; the others wait on.
pub proof fn law_process_sends_the_next_piece<F: FnOnce() -> Option<Option<Vec<u8>>>>(
    m: &mut EapTlsInner,
    p: EapPacket,
    start: bool,
    reassemble: F,
    imsk_len: usize,
    r: InnerAction,
)
    requires
        call_ensures(
            EapTlsInner::process::<F>,
            (m, Some(p), Some((start, true)), reassemble, imsk_len),
            r,
        ),
        old(m).standing().state == State::Handshake || old(m).standing().state
            == State::AwaitCommitment,
        old(m).standing().queue.len() > 0,
        p.code == EapCode::Request,
        p.type_ == Some(13u8),
    ensures
        r matches InnerAction::Respond { id, outer } && id == p.id && outer
            == old(m).standing().queue[0],
        final(m).standing().queue == old(m).standing().queue.skip(1),
        final(m).standing().state == old(m).standing().state,
        final(m).standing().last_id == p.id,
        final(m).inner_tunnel() == old(m).inner_tunnel(),
{
}

/// [`EapTlsInner::process`] opens a new method on Start with all that waits in its
/// tunnel, and fails it on any other first message.
pub proof fn law_process_opens_on_start<F: FnOnce() -> Option<Option<Vec<u8>>>>(
    m: &mut EapTlsInner,
    p: EapPacket,
    start: bool,
    is_ack: bool,
    reassemble: F,
    imsk_len: usize,
    r: InnerAction,
)
    requires
        call_ensures(
            EapTlsInner::process::<F>,
            (m, Some(p), Some((start, is_ack)), reassemble, imsk_len),
            r,
        ),
        old(m).standing().state == State::Handshake,
        !old(m).standing().started,
        !is_ack || old(m).standing().queue.len() == 0,
        p.code == EapCode::Request,
        p.type_ == Some(13u8),
    ensures
        start ==> (r matches InnerAction::Fragment { message } && message@
            == crate::fips_tls::backend::outgoing(old(m).inner_tunnel().connection()))
            && final(m).standing().started && final(m).standing().last_id == p.id,
        !start ==> r is Failed && final(m).standing().state == State::Failed,
{
}

/// [`EapTlsInner::process`] goes by what reassembly gives: a started method acknowledges
/// a request whose message is not complete yet, and completes with the exported key on
/// the commitment. Where reassembly gives nothing, or the packet or its message cannot be
/// read, the method fails.
pub proof fn law_process_goes_by_reassembly<F: FnOnce() -> Option<Option<Vec<u8>>>>(
    m: &mut EapTlsInner,
    p: EapPacket,
    start: bool,
    reassemble: F,
    gives: Option<Option<Vec<u8>>>,
    imsk_len: usize,
    r: InnerAction,
)
    requires
        call_ensures(
            EapTlsInner::process::<F>,
            (m, Some(p), Some((start, false)), reassemble, imsk_len),
            r,
        ),
        forall|g: Option<Option<Vec<u8>>>| #[trigger]
            call_ensures(reassemble, (), g) ==> g == gives,
        old(m).standing().state == State::AwaitCommitment,
        p.code == EapCode::Request,
        p.type_ == Some(13u8),
    ensures
        ({
            let material = crate::fips_tls::backend::exported(
                old(m).inner_tunnel().connection(),
                key_label(),
                64,
            );
            &&& gives matches Some(None) ==> (r matches InnerAction::Acknowledge { id, version }
                && id == p.id && version == 0) && final(m).standing().state
                == State::AwaitCommitment
            &&& gives is None ==> r is Failed && final(m).standing().state == State::Failed
            &&& gives matches Some(Some(v)) ==> {
                &&& v@.len() > 0 && material is Some && imsk_len <= 64 ==> (
                r matches InnerAction::Done { imsk } && imsk@ == material->0.take(imsk_len as int))
                &&& v@.len() == 0 || material is None || imsk_len > 64 ==> r is Failed
            }
        }),
{
}

/// [`EapTlsInner::process`] fails the method on a packet, or a message in it, that cannot
/// be read.
pub proof fn law_process_fails_on_the_unreadable<F: FnOnce() -> Option<Option<Vec<u8>>>>(
    m: &mut EapTlsInner,
    pkt: Option<EapPacket>,
    outer: Option<(bool, bool)>,
    reassemble: F,
    imsk_len: usize,
    r: InnerAction,
)
    requires
        call_ensures(EapTlsInner::process::<F>, (m, pkt, outer, reassemble, imsk_len), r),
        pkt is None || outer is None,
    ensures
        r is Failed,
        final(m).standing().state == State::Failed,
        final(m).inner_tunnel() == old(m).inner_tunnel(),
{
}

/// A new method awaits Start, with nothing queued and the guard closed; it checks the
/// given name on the given terms.
pub proof fn law_new_method_awaits_start(
    config: Arc<ClientConfig>,
    server_name: &str,
    max_fragment: usize,
    r: Result<EapTlsInner, InnerTlsError>,
)
    requires
        call_ensures(EapTlsInner::new, (config, server_name, max_fragment), r),
    ensures
        r matches Ok(m) ==> {
            &&& m.standing().state == State::Handshake
            &&& !m.standing().started
            &&& m.standing().queue.len() == 0
            &&& m.budget() == max_fragment
            &&& !m.inner_tunnel().guard_passed()
            &&& m.terms() == (crate::fips_tls::backend::config_terms(*config), server_name@)
        },
        r matches Err(e) ==> e == InnerTlsError::Connect,
        !crate::fips_tls::backend::is_server_name(server_name@) ==> r is Err,
{
}

/// What is shown of the method is a matter of its state alone, and tells states apart.
pub proof fn law_shown_method_tells_its_state(m: EapTlsInner, n: EapTlsInner, t: String, u: String)
    requires
        call_ensures(EapTlsInner::redacted, (&m,), t),
        call_ensures(EapTlsInner::redacted, (&n,), u),
    ensures
        t@ == u@ <==> m.standing().state == n.standing().state,
{
    reveal_strlit("Handshake");
    reveal_strlit("AwaitCommitment");
    reveal_strlit("Done");
    reveal_strlit("Failed");
    let around = "EapTlsInner { state: "@.len() + ", .. }"@.len();
    assert(t@.len() == around + m.standing().state.name().len());
    assert(u@.len() == around + n.standing().state.name().len());
}

/// A handshake message that the tunnel takes is gone on with from where the tunnel then
/// stands: `c` is the connection with the message fed to it. While its handshake goes on,
/// and once it is complete with the approved parameters, what waits to be sent goes out;
/// in the second case the commitment is then awaited. Otherwise, and where the tunnel
/// refuses the message, the method fails. An empty message is never refused.
pub proof fn law_inner_message_is_gone_on_with(
    m: &mut EapTlsInner,
    records: Vec<u8>,
    imsk_len: usize,
    r: InnerAction,
)
    requires
        old(m).standing().state == State::Handshake,
        old(m).standing().started,
        call_ensures(EapTlsInner::on_records, (m, Some(records), imsk_len), r),
    ensures
        (r is Failed && records@.len() > 0 && final(m).inner_tunnel().guard_passed() == old(
            m,
        ).inner_tunnel().guard_passed()) || exists|c: rustls::ClientConnection|
            {
                let approved = crate::fips_tls::backend::negotiated(c) == (
                    Some(0x0304u16),
                    Some(0x1302u16),
                    Some(0x0202u16),
                );
                &&& records@.len() == 0 ==> c == old(m).inner_tunnel().connection()
                &&& records@.len() > 0 ==> crate::fips_tls::backend::fed(
                    old(m).inner_tunnel().connection(),
                    records@,
                    c,
                )
                &&& #[trigger] crate::fips_tls::backend::handshaking(c) || approved ==> (
                r matches InnerAction::Fragment { message } && message@
                    == crate::fips_tls::backend::outgoing(c))
                &&& crate::fips_tls::backend::handshaking(c) ==> final(m).standing().state
                    == State::Handshake
                &&& !crate::fips_tls::backend::handshaking(c) && approved
                    ==> final(m).standing().state == State::AwaitCommitment
                &&& !crate::fips_tls::backend::handshaking(c) && !approved ==> r is Failed
            },
        r is Failed <==> final(m).standing().state == State::Failed,
        final(m).standing().queue == old(m).standing().queue,
{
    let before = old(m).inner_tunnel();
    let after = final(m).inner_tunnel();
    let s = old(m).standing();
    let t = final(m).standing();
    if records@.len() == 0 {
        let c = before.connection();
        assert(crate::fips_tls::backend::handshaking(c) || !crate::fips_tls::backend::handshaking(c));
    } else if !(r is Failed && after.guard_passed() == before.guard_passed()) {
        let taken = choose|taken: TeapTlsClient|
            {
                &&& #[trigger] crate::fips_tls::backend::fed(
                    before.connection(),
                    records@,
                    taken.connection(),
                )
                &&& taken.guard_passed() == before.guard_passed()
                &&& inner_advanced(taken, after, s, t, r)
            };
        let c = taken.connection();
        assert(crate::fips_tls::backend::handshaking(c) || !crate::fips_tls::backend::handshaking(c));
    }
}

/// Stopping the method fails it, and moves nothing else.
pub proof fn law_stopping_fails_the_method(m: &mut EapTlsInner, r: InnerAction, n: usize)
    requires
        call_ensures(EapTlsInner::fail, (m,), r),
        call_ensures(EapTlsInner::max_fragment, (&*final(m),), n),
    ensures
        r is Failed,
        final(m).standing().state == State::Failed,
        final(m).standing().started == old(m).standing().started,
        final(m).standing().queue == old(m).standing().queue,
        final(m).inner_tunnel() == old(m).inner_tunnel(),
        n == old(m).budget(),
{
}

/// [`EapTlsInner::process`] goes by what reassembly gives in the handshake too: a message
/// that is not complete yet is acknowledged under the request's identifier, and one that
/// reassembly does not take fails the method. A whole message gives a flight or a failure;
/// an empty one, while the tunnel's handshake goes on, exactly what waits to be sent.
pub proof fn law_process_reassembles_in_the_handshake<F: FnOnce() -> Option<Option<Vec<u8>>>>(
    m: &mut EapTlsInner,
    p: EapPacket,
    start: bool,
    is_ack: bool,
    reassemble: F,
    gives: Option<Option<Vec<u8>>>,
    imsk_len: usize,
    r: InnerAction,
)
    requires
        call_ensures(
            EapTlsInner::process::<F>,
            (m, Some(p), Some((start, is_ack)), reassemble, imsk_len),
            r,
        ),
        forall|g: Option<Option<Vec<u8>>>| #[trigger]
            call_ensures(reassemble, (), g) ==> g == gives,
        old(m).standing().state == State::Handshake,
        old(m).standing().started,
        !is_ack || old(m).standing().queue.len() == 0,
        p.code == EapCode::Request,
        p.type_ == Some(13u8),
    ensures
        gives matches Some(None) ==> (r matches InnerAction::Acknowledge { id, version } && id
            == p.id && version == 0) && final(m).standing().state == State::Handshake,
        gives is None ==> r is Failed && final(m).standing().state == State::Failed,
        gives matches Some(Some(_)) ==> r is Fragment || r is Failed,
        r is Fragment ==> final(m).standing().state == State::Handshake
            || final(m).standing().state == State::AwaitCommitment,
        r is Failed <==> final(m).standing().state == State::Failed,
        (gives matches Some(Some(v)) && v@.len() == 0 && crate::fips_tls::backend::handshaking(
            old(m).inner_tunnel().connection(),
        )) ==> (r matches InnerAction::Fragment { message } && message@
            == crate::fips_tls::backend::outgoing(old(m).inner_tunnel().connection())),
        final(m).standing().last_id == p.id,
{
}

} // verus!
