//! The decisions behind a peer method's entry points. Pointers, allocation and the
//! platform's structures stay with whoever exports them.
use crate::creds::selection::CertSelector;
use crate::eaphost::config::SessionConfigBlob;
use crate::eaphost::error::EapHostError;
use crate::eaphost::session::{AuthResult, ProcessAction, SessionKind};
use crate::eaphost::status::{AuthState, StatusMeta};
use crate::fips_tls::backend::trust_anchors;
use crate::supplicant::driver::{DriverConfig, Identity};
use rustls::RootCertStore;
use vstd::prelude::*;

verus! {

/// The EAP type that the method serves: TEAP.
pub const EAP_TYPE_TEAP: u8 = 55;

/// The status of a routine that is not implemented.
pub const NOT_SUPPORTED: u32 = 50;

/// The status of a routine that cannot complete; a host only needs it nonzero.
pub const E_FAIL: u32 = 0x8000_4005;

/// The identity of the outer exchange. The real one stays inside the tunnel.
pub const ANONYMOUS_IDENTITY: &'static str = "anonymous";

/// What a session is begun with.
pub struct SessionPlan {
    /// Which identity the session authenticates.
    pub kind: SessionKind,
    /// The session's status data; the thumbprint follows once a certificate is
    /// selected.
    pub meta: StatusMeta,
    /// The trust anchors for the server.
    pub roots: RootCertStore,
    /// How the client certificate is selected.
    pub selector: CertSelector,
    /// The driver's configuration.
    pub driver: DriverConfig,
}

/// A profile lets a session begin: it parses, and each of its roots is a trust
/// anchor.
pub open spec fn usable(blob: Seq<u8>) -> bool {
    crate::eaphost::config::decoded(blob) matches Ok(p) && forall|i: int|
        0 <= i < p.roots.len() ==> crate::fips_tls::backend::is_anchor(#[trigger] p.roots[i])
}

/// A plan carries out a profile.
pub open spec fn carries_out(plan: SessionPlan, p: crate::eaphost::config::Profile) -> bool {
    &&& plan.kind == (if p.machine {
        SessionKind::Machine
    } else {
        SessionKind::User
    })
    &&& plan.meta.identity == plan.driver.identity
    &&& plan.meta.cert_subject@ == p.selector_subject
    &&& plan.meta.cert_thumbprint@ == ""@
    &&& plan.meta.server_name@ == p.server_name
    &&& crate::fips_tls::backend::store_anchors(plan.roots) == p.roots
    &&& plan.selector.thumbprint_sha256 is None
    &&& plan.selector.require_client_auth_eku
    &&& plan.selector.subject_contains matches Some(t) && t@ == p.selector_subject
    &&& plan.selector.issuer_contains is None
    &&& plan.driver.identity == (if p.machine {
        Identity::Machine
    } else {
        Identity::User
    })
    &&& plan.driver.server_name@ == p.server_name
    &&& plan.driver.mat_vendor_id == p.mat_vendor_id
    &&& crate::pac::store::ticket_view(plan.driver.mat_to_present) == p.mat
    &&& plan.driver.max_fragment == p.max_fragment
}

/// The plan of a session from its connection profile. The host's policy is asked
/// for each session anew; without it, or with an unusable profile, no session
/// begins.
pub fn plan_session(policy: Result<(), EapHostError>, blob: &[u8]) -> (r: Option<SessionPlan>)
    ensures
        r is Some <==> policy is Ok && usable(blob@),
        r matches Some(plan) ==> (crate::eaphost::config::decoded(blob@) matches Ok(p)
            && carries_out(plan, p)),
{
    if policy.is_err() {
        return None;
    }
    let cfg: SessionConfigBlob = match SessionConfigBlob::from_bytes(blob) {
        Ok(c) => c,
        Err(_) => {
            return None;
        },
    };
    let (identity, kind) = if cfg.machine {
        (Identity::Machine, SessionKind::Machine)
    } else {
        (Identity::User, SessionKind::User)
    };
    let meta: StatusMeta = StatusMeta {
        identity,
        cert_subject: cfg.selector_subject.clone(),
        cert_thumbprint: "".to_owned(),
        server_name: cfg.server_name.clone(),
    };
    let ghost p = cfg@;
    proof {
        assert(forall|i: int| 0 <= i < cfg.roots@.len() ==> cfg.roots@[i]@ == #[trigger] p.roots[i]);
        assert(forall|i: int| 0 <= i < p.roots.len() ==> p.roots[i] == #[trigger] cfg.roots@[i]@);
    }
    let roots: RootCertStore = match trust_anchors(cfg.roots) {
        Some(s) => s,
        None => {
            return None;
        },
    };
    let selector: CertSelector = CertSelector {
        thumbprint_sha256: None,
        require_client_auth_eku: true,
        subject_contains: Some(cfg.selector_subject),
        issuer_contains: None,
    };
    let driver: DriverConfig = DriverConfig {
        identity,
        server_name: cfg.server_name,
        mat_vendor_id: cfg.mat_vendor_id,
        mat_to_present: cfg.mat,
        max_fragment: cfg.max_fragment as usize,
    };
    Some(SessionPlan { kind, meta, roots, selector, driver })
}

/// The plan's status data with the selected certificate's thumbprint.
pub fn meta_with_thumbprint(meta: StatusMeta, thumbprint: String) -> (m: StatusMeta)
    ensures
        m == (StatusMeta { cert_thumbprint: thumbprint, ..meta }),
{
    StatusMeta {
        identity: meta.identity,
        cert_subject: meta.cert_subject,
        cert_thumbprint: thumbprint,
        server_name: meta.server_name,
    }
}

/// Whether the method serves the EAP type that a host asks for; no type given
/// counts as ours.
pub fn serves_type(asked: Option<u8>) -> (r: bool)
    ensures
        r == (asked matches Some(t) ==> t == EAP_TYPE_TEAP),
{
    match asked {
        Some(t) => t == EAP_TYPE_TEAP,
        None => true,
    }
}

/// The state to publish after a request was processed: the phase while the
/// exchange continues, nothing once it is terminal (the conclusion is published when
/// it is read).
pub fn progress_state(action: ProcessAction, tunnel_established: Option<bool>) -> (r: Option<
    AuthState,
>)
    ensures
        r == (match action {
            ProcessAction::Finished => None,
            ProcessAction::Respond => if tunnel_established == Some(true) {
                Some(AuthState::InnerInProgress)
            } else {
                Some(AuthState::Connecting)
            },
        }),
{
    match action {
        ProcessAction::Finished => None,
        ProcessAction::Respond => match tunnel_established {
            Some(true) => Some(AuthState::InnerInProgress),
            _ => Some(AuthState::Connecting),
        },
    }
}

/// What a host is told of a conclusion: success and a failure code. Only a success is
/// one; a missing conclusion is a failure.
pub fn conclusion_code(result: Option<&AuthResult>) -> (r: (bool, u32))
    ensures
        r.0 == (result matches Some(a) && a is Success),
        r.1 == (if r.0 {
            0u32
        } else {
            E_FAIL
        }),
{
    match result {
        Some(AuthResult::Success { .. }) => (true, 0),
        _ => (false, E_FAIL),
    }
}

/// A session is planned exactly if the host's policy allows it, the profile can be read
/// and each of its roots is a trust anchor.
pub proof fn law_session_needs_policy_and_profile(
    policy: Result<(), EapHostError>,
    blob: &[u8],
    r: Option<SessionPlan>,
    parsed: Result<SessionConfigBlob, crate::eaphost::error::ConfigError>,
)
    requires
        call_ensures(plan_session, (policy, blob), r),
        call_ensures(SessionConfigBlob::from_bytes, (blob,), parsed),
    ensures
        policy is Err ==> r is None,
        parsed is Err ==> r is None,
        policy is Ok && (parsed matches Ok(c) && forall|i: int|
            0 <= i < c.roots@.len() ==> crate::fips_tls::backend::is_anchor(#[trigger] c.roots@[i]@))
            ==> r is Some,
        r is Some ==> (parsed matches Ok(c) && forall|i: int|
            0 <= i < c.roots@.len() ==> crate::fips_tls::backend::is_anchor(
                #[trigger] c.roots@[i]@,
            )),
{
    if let Ok(c) = parsed {
        let p = c@;
        assert forall|i: int| 0 <= i < c.roots@.len() implies p.roots[i] == #[trigger] c.roots@[i]@ by {}
        if r is Some {
            assert forall|i: int| 0 <= i < c.roots@.len() implies crate::fips_tls::backend::is_anchor(
                #[trigger] c.roots@[i]@,
            ) by {
                assert(crate::fips_tls::backend::is_anchor(p.roots[i]));
            }
        }
        if policy is Ok && forall|i: int|
            0 <= i < c.roots@.len() ==> crate::fips_tls::backend::is_anchor(#[trigger] c.roots@[i]@) {
            assert forall|i: int| 0 <= i < p.roots.len() implies crate::fips_tls::backend::is_anchor(
                #[trigger] p.roots[i],
            ) by {
                assert(p.roots[i] == c.roots@[i]@);
            }
        }
    }
}

/// A plan carries out the profile that was read, field by field: the identity throughout,
/// the server's name, the vendor, the ticket, the fragment budget and the anchors. The
/// certificate is selected by the profile's subject and must have the Client Authentication
/// usage; nothing else is asked of it, and no thumbprint is shown before it is selected.
pub proof fn law_plan_carries_out_the_profile(
    blob: &[u8],
    plan: SessionPlan,
    c: SessionConfigBlob,
)
    requires
        call_ensures(plan_session, (Ok::<(), EapHostError>(()), blob), Some(plan)),
        call_ensures(
            SessionConfigBlob::from_bytes,
            (blob,),
            Ok::<SessionConfigBlob, crate::eaphost::error::ConfigError>(c),
        ),
    ensures
        c.machine ==> plan.kind is Machine && plan.meta.identity is Machine
            && plan.driver.identity is Machine,
        !c.machine ==> plan.kind is User && plan.meta.identity is User && plan.driver.identity is User,
        plan.driver.server_name@ == c.server_name@,
        plan.meta.server_name@ == c.server_name@,
        plan.driver.mat_vendor_id == c.mat_vendor_id,
        plan.driver.max_fragment == c.max_fragment,
        c.mat is None ==> plan.driver.mat_to_present is None,
        c.mat matches Some(t) ==> (plan.driver.mat_to_present matches Some(u) && u@ == t@),
        plan.selector.require_client_auth_eku,
        plan.selector.thumbprint_sha256 is None,
        plan.selector.issuer_contains is None,
        plan.selector.subject_contains matches Some(s) && s@ == c.selector_subject@,
        plan.meta.cert_subject@ == c.selector_subject@,
        plan.meta.cert_thumbprint@.len() == 0,
        crate::fips_tls::backend::store_anchors(plan.roots).len() == c.roots@.len(),
        forall|i: int|
            0 <= i < c.roots@.len() ==> #[trigger] crate::fips_tls::backend::store_anchors(
                plan.roots,
            )[i] == c.roots@[i]@,
{
    reveal_strlit("");
}

/// From the profile that was saved to the session: what a written profile plans is the
/// profile that was written, wherever its lengths fit their fields.
pub proof fn law_saved_profile_is_carried_out(
    c: SessionConfigBlob,
    bytes: Vec<u8>,
    blob: &[u8],
    r: Option<SessionPlan>,
)
    requires
        crate::eaphost::config::fits(c@),
        call_ensures(SessionConfigBlob::to_bytes, (&c,), bytes),
        blob@ == bytes@,
        call_ensures(plan_session, (Ok::<(), EapHostError>(()), blob), r),
    ensures
        (forall|i: int|
            0 <= i < c.roots@.len() ==> crate::fips_tls::backend::is_anchor(#[trigger] c.roots@[i]@))
            ==> r is Some,
        r matches Some(plan) ==> {
            &&& plan.driver.server_name@ == c.server_name@
            &&& plan.kind is Machine <==> c.machine
            &&& plan.driver.identity is Machine <==> c.machine
            &&& plan.selector.subject_contains matches Some(s) && s@ == c.selector_subject@
            &&& plan.driver.mat_vendor_id == c.mat_vendor_id
            &&& plan.driver.max_fragment == c.max_fragment
            &&& plan.driver.mat_to_present is Some <==> c.mat is Some
            &&& c.mat matches Some(t) ==> plan.driver.mat_to_present->0@ == t@
        },
{
    crate::eaphost::config::law_profile_round_trips(c@);
    let p = c@;
    if forall|i: int|
        0 <= i < c.roots@.len() ==> crate::fips_tls::backend::is_anchor(#[trigger] c.roots@[i]@) {
        assert forall|i: int| 0 <= i < p.roots.len() implies crate::fips_tls::backend::is_anchor(
            #[trigger] p.roots[i],
        ) by {
            assert(p.roots[i] == c.roots@[i]@);
        }
    }
}

/// The thumbprint of the selected certificate is put in, and nothing else moves.
pub proof fn law_thumbprint_is_put_in(meta: StatusMeta, thumbprint: String, m: StatusMeta)
    requires
        call_ensures(meta_with_thumbprint, (meta, thumbprint), m),
    ensures
        m.cert_thumbprint@ == thumbprint@,
        m.identity == meta.identity,
        m.cert_subject@ == meta.cert_subject@,
        m.server_name@ == meta.server_name@,
{
}

/// The method serves TEAP, whose EAP type is 55, and a host that names no type; no other.
pub proof fn law_only_teap_is_served(asked: Option<u8>, r: bool)
    requires
        call_ensures(serves_type, (asked,), r),
    ensures
        asked == Some(55u8) ==> r,
        asked is None ==> r,
        r ==> asked is None || asked == Some(55u8),
{
}

/// While the exchange goes on, what is published tells whether the tunnel is known to be
/// established; nothing is published once it is over.
pub proof fn law_progress_is_published_while_it_goes_on(
    action: ProcessAction,
    tunnel_established: Option<bool>,
    r: Option<AuthState>,
)
    requires
        call_ensures(progress_state, (action, tunnel_established), r),
    ensures
        action is Finished <==> r is None,
        r == Some(AuthState::InnerInProgress) <==> action is Respond && tunnel_established == Some(
            true,
        ),
        r is Some ==> r == Some(AuthState::InnerInProgress) || r == Some(AuthState::Connecting),
{
}

/// A host is told of a success exactly if there is one, with a status of zero; any failure,
/// and a missing conclusion, has a status that is not zero.
pub proof fn law_host_is_told_of_success_alone(result: Option<&AuthResult>, r: (bool, u32))
    requires
        call_ensures(conclusion_code, (result,), r),
    ensures
        r.0 <==> (result matches Some(a) && a is Success),
        r.0 <==> r.1 == 0,
        !r.0 ==> r.1 == 0x8000_4005,
{
}

} // verus!
