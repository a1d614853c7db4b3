//! The status snapshots that are published for the user-session tray.
//!
//! One session runs at a time, machine or user; a snapshot shows both identities'
//! certificates, so the other identity's is remembered across sessions and
//! processes.
use crate::eaphost::session::AuthResult;
use crate::supplicant::driver::{FailReason, Identity};
use std::collections::HashMap;
use vstd::prelude::*;

verus! {

/// The state that the tray shows.
#[derive(Debug, Clone, Copy, PartialEq, Eq, Structural)]
pub enum AuthState {
    /// The outer handshake is in progress.
    Connecting,
    /// The inner method is in progress.
    InnerInProgress,
    /// Authentication succeeded.
    Authenticated,
    /// Authentication failed.
    Failed,
}

/// A published snapshot.
#[derive(Debug, Clone, PartialEq, Eq)]
pub struct AuthStatus {
    /// The state.
    pub state: AuthState,
    /// The session's identity.
    pub identity: Identity,
    /// The session's certificate subject.
    pub cert_subject: String,
    /// The machine certificate's subject.
    pub machine_cert: String,
    /// The user certificate's subject.
    pub user_cert: String,
    /// The machine certificate's thumbprint.
    pub machine_thumbprint: String,
    /// The user certificate's thumbprint.
    pub user_thumbprint: String,
    /// The expected server name.
    pub server_name: String,
    /// Why it failed.
    pub detail: String,
    /// Unix seconds of the snapshot.
    pub updated_unix: u64,
}

/// What the snapshots of one session need.
#[derive(Debug, Clone, PartialEq, Eq)]
pub struct StatusMeta {
    /// The session's identity.
    pub identity: Identity,
    /// The session's certificate subject.
    pub cert_subject: String,
    /// The session's certificate thumbprint.
    pub cert_thumbprint: String,
    /// The expected server name.
    pub server_name: String,
}

/// A published certificate: its subject and its thumbprint.
#[derive(Debug, Clone, PartialEq, Eq)]
pub struct CertInfo {
    /// The subject.
    pub subject: String,
    /// The thumbprint.
    pub thumbprint: String,
}

impl CertInfo {
    /// Subject and thumbprint, as mathematical values.
    pub open spec fn values(self) -> (Seq<char>, Seq<char>) {
        (self.subject@, self.thumbprint@)
    }
}

/// A remembered text, refreshed by a published one that is not empty.
pub open spec fn refreshed(known: Seq<char>, published: Seq<char>) -> Seq<char> {
    if published.len() > 0 {
        published
    } else {
        known
    }
}

/// The remembered `(machine, user)` certificates after a look at the published
/// snapshot. A missing snapshot, or an empty field, wipes nothing.
pub open spec fn remembered(
    machine: (Seq<char>, Seq<char>),
    user: (Seq<char>, Seq<char>),
    published: Option<AuthStatus>,
) -> ((Seq<char>, Seq<char>), (Seq<char>, Seq<char>)) {
    match published {
        None => (machine, user),
        Some(p) => (
            (refreshed(machine.0, p.machine_cert@), refreshed(machine.1, p.machine_thumbprint@)),
            (refreshed(user.0, p.user_cert@), refreshed(user.1, p.user_thumbprint@)),
        ),
    }
}

/// The remembered certificates once the session's own is put in its place.
pub open spec fn with_active(
    known: ((Seq<char>, Seq<char>), (Seq<char>, Seq<char>)),
    meta: StatusMeta,
) -> ((Seq<char>, Seq<char>), (Seq<char>, Seq<char>)) {
    let active = (meta.cert_subject@, meta.cert_thumbprint@);
    match meta.identity {
        Identity::Machine => (active, known.1),
        Identity::User => (known.0, active),
    }
}

/// The known text, or the published one if it is not empty.
fn refresh(known: String, published: &String) -> (r: String)
    ensures
        r@ == refreshed(known@, published@),
{
    if published.as_str().is_empty() {
        known
    } else {
        published.clone()
    }
}

/// What the status snapshots are made of: the sessions' data, and the last-known
/// certificates of both identities.
pub struct StatusBoard {
    meta: HashMap<u64, StatusMeta>,
    machine: CertInfo,
    user: CertInfo,
}

impl StatusBoard {
    /// The sessions' data, by handle.
    pub closed spec fn sessions(self) -> Map<u64, StatusMeta> {
        self.meta@
    }

    /// The remembered `(machine, user)` certificates.
    pub closed spec fn certs(self) -> ((Seq<char>, Seq<char>), (Seq<char>, Seq<char>)) {
        (self.machine.values(), self.user.values())
    }

    /// No sessions, no certificates.
    pub fn new() -> (b: Self)
        ensures
            b.sessions() == Map::<u64, StatusMeta>::empty(),
            b.certs() == (
                (Seq::<char>::empty(), Seq::<char>::empty()),
                (Seq::<char>::empty(), Seq::<char>::empty()),
            ),
    {
        StatusBoard {
            meta: HashMap::new(),
            machine: CertInfo { subject: String::new(), thumbprint: String::new() },
            user: CertInfo { subject: String::new(), thumbprint: String::new() },
        }
    }

    /// Keep a session's data.
    pub fn insert(&mut self, handle: u64, meta: StatusMeta)
        ensures
            final(self).sessions() == old(self).sessions().insert(handle, meta),
            final(self).certs() == old(self).certs(),
    {
        broadcast use vstd::std_specs::hash::group_hash_axioms;

        self.meta.insert(handle, meta);
    }

    /// Drop a session's data; the last published snapshot stays.
    pub fn remove(&mut self, handle: u64)
        ensures
            final(self).sessions() == old(self).sessions().remove(handle),
            final(self).certs() == old(self).certs(),
    {
        broadcast use vstd::std_specs::hash::group_hash_axioms;

        let _gone = self.meta.remove(&handle);
        assert(self.sessions() =~= old(self).sessions().remove(handle));
    }

    /// The snapshot to publish for `handle`, given the one that is published now;
    /// `None`, and nothing changed, if the handle has no data.
    pub fn publish(
        &mut self,
        handle: u64,
        published: Option<AuthStatus>,
        state: AuthState,
        detail: &str,
        now_unix: u64,
    ) -> (r: Option<AuthStatus>)
        ensures
            final(self).sessions() == old(self).sessions(),
            r is Some <==> old(self).sessions().contains_key(handle),
            r is None ==> final(self).certs() == old(self).certs(),
            r matches Some(s) ==> {
                let meta = old(self).sessions()[handle];
                let certs = with_active(
                    remembered(old(self).certs().0, old(self).certs().1, published),
                    meta,
                );
                &&& final(self).certs() == certs
                &&& s.state == state
                &&& s.identity == meta.identity
                &&& s.cert_subject@ == meta.cert_subject@
                &&& (s.machine_cert@, s.machine_thumbprint@) == certs.0
                &&& (s.user_cert@, s.user_thumbprint@) == certs.1
                &&& s.server_name@ == meta.server_name@
                &&& s.detail@ == detail@
                &&& s.updated_unix == now_unix
            },
    {
        broadcast use vstd::std_specs::hash::group_hash_axioms;

        let (identity, cert_subject, cert_thumbprint, server_name) = match self.meta.get(&handle) {
            None => {
                return None;
            },
            Some(m) => (
                m.identity,
                m.cert_subject.clone(),
                m.cert_thumbprint.clone(),
                m.server_name.clone(),
            ),
        };
        let mut machine: CertInfo = CertInfo {
            subject: self.machine.subject.clone(),
            thumbprint: self.machine.thumbprint.clone(),
        };
        let mut user: CertInfo = CertInfo {
            subject: self.user.subject.clone(),
            thumbprint: self.user.thumbprint.clone(),
        };
        if let Some(p) = &published {
            machine = CertInfo {
                subject: refresh(machine.subject, &p.machine_cert),
                thumbprint: refresh(machine.thumbprint, &p.machine_thumbprint),
            };
            user = CertInfo {
                subject: refresh(user.subject, &p.user_cert),
                thumbprint: refresh(user.thumbprint, &p.user_thumbprint),
            };
        }
        let active: CertInfo = CertInfo {
            subject: cert_subject.clone(),
            thumbprint: cert_thumbprint,
        };
        match identity {
            Identity::Machine => {
                machine = active;
            },
            Identity::User => {
                user = active;
            },
        }
        let snapshot: AuthStatus = AuthStatus {
            state,
            identity,
            cert_subject,
            machine_cert: machine.subject.clone(),
            user_cert: user.subject.clone(),
            machine_thumbprint: machine.thumbprint.clone(),
            user_thumbprint: user.thumbprint.clone(),
            server_name,
            detail: detail.to_owned(),
            updated_unix: now_unix,
        };
        self.machine = machine;
        self.user = user;
        Some(snapshot)
    }
}

/// What is written of a snapshot: all of it once the directory that holds the status
/// is secured against other writers, and nothing before.
pub fn publishable(snapshot: Option<AuthStatus>, secured: bool) -> (r: Option<AuthStatus>)
    ensures
        r == (if secured {
            snapshot
        } else {
            None
        }),
{
    if secured {
        snapshot
    } else {
        None
    }
}

/// The state and the detail of a conclusion: a missing one counts as a failure.
pub fn terminal_status(result: Option<&AuthResult>) -> (r: (AuthState, String))
    ensures
        match result {
            Some(a) => match *a {
                AuthResult::Success { .. } => r.0 == AuthState::Authenticated && r.1@ == ""@,
                AuthResult::Failure(FailReason::ServerFailure) => r.0 == AuthState::Failed && r.1@
                    == "ServerFailure"@,
                AuthResult::Failure(FailReason::Other(t)) => r.0 == AuthState::Failed && r.1@ == t@,
            },
            None => r.0 == AuthState::Failed && r.1@ == "no result"@,
        },
{
    match result {
        Some(AuthResult::Success { .. }) => (AuthState::Authenticated, "".to_owned()),
        Some(AuthResult::Failure(FailReason::ServerFailure)) => (
            AuthState::Failed,
            "ServerFailure".to_owned(),
        ),
        Some(AuthResult::Failure(FailReason::Other(t))) => (AuthState::Failed, t.clone()),
        None => (AuthState::Failed, "no result".to_owned()),
    }
}

/// Publishing for one identity keeps the other identity's certificate: it is still
/// there if the published snapshot cannot be read, and where that snapshot leaves
/// a field empty.
pub proof fn law_other_identity_is_kept(
    machine: (Seq<char>, Seq<char>),
    user: (Seq<char>, Seq<char>),
    published: Option<AuthStatus>,
    meta: StatusMeta,
)
    ensures
        meta.identity == Identity::Machine && (published matches Some(p) ==> p.user_cert@.len() == 0
            && p.user_thumbprint@.len() == 0) ==> with_active(
            remembered(machine, user, published),
            meta,
        ).1 == user,
        meta.identity == Identity::User && (published matches Some(p) ==> p.machine_cert@.len() == 0
            && p.machine_thumbprint@.len() == 0) ==> with_active(
            remembered(machine, user, published),
            meta,
        ).0 == machine,
{
}

/// A snapshot shows the session as it is: the state, the detail and the time that were
/// given, the identity, subject and server that were kept for the handle.
pub proof fn law_snapshot_shows_the_session(
    b: &mut StatusBoard,
    handle: u64,
    published: Option<AuthStatus>,
    state: AuthState,
    detail: &str,
    now_unix: u64,
    r: Option<AuthStatus>,
)
    requires
        call_ensures(StatusBoard::publish, (b, handle, published, state, detail, now_unix), r),
    ensures
        r is Some <==> old(b).sessions().contains_key(handle),
        r matches Some(s) ==> {
            let meta = old(b).sessions()[handle];
            &&& s.state == state
            &&& s.detail@ == detail@
            &&& s.updated_unix == now_unix
            &&& s.identity == meta.identity
            &&& s.cert_subject@ == meta.cert_subject@
            &&& s.server_name@ == meta.server_name@
        },
        r is None ==> final(b).certs() == old(b).certs(),
        final(b).sessions() == old(b).sessions(),
{
}

/// The session's own certificate stands in its place, and the other identity's in the
/// other: as the published snapshot has it, and as it was remembered where that one is
/// missing or leaves it empty. What is shown is what is remembered from then on.
pub proof fn law_snapshot_shows_both_certificates(
    b: &mut StatusBoard,
    handle: u64,
    published: Option<AuthStatus>,
    state: AuthState,
    detail: &str,
    now_unix: u64,
    s: AuthStatus,
)
    requires
        call_ensures(
            StatusBoard::publish,
            (b, handle, published, state, detail, now_unix),
            Some(s),
        ),
    ensures
        ({
            let meta = old(b).sessions()[handle];
            let known = old(b).certs();
            &&& meta.identity == Identity::Machine ==> {
                &&& s.machine_cert@ == meta.cert_subject@
                &&& s.machine_thumbprint@ == meta.cert_thumbprint@
                &&& s.user_cert@ == match published {
                    Some(p) => if p.user_cert@.len() > 0 {
                        p.user_cert@
                    } else {
                        known.1.0
                    },
                    None => known.1.0,
                }
                &&& s.user_thumbprint@ == match published {
                    Some(p) => if p.user_thumbprint@.len() > 0 {
                        p.user_thumbprint@
                    } else {
                        known.1.1
                    },
                    None => known.1.1,
                }
            }
            &&& meta.identity == Identity::User ==> {
                &&& s.user_cert@ == meta.cert_subject@
                &&& s.user_thumbprint@ == meta.cert_thumbprint@
                &&& s.machine_cert@ == match published {
                    Some(p) => if p.machine_cert@.len() > 0 {
                        p.machine_cert@
                    } else {
                        known.0.0
                    },
                    None => known.0.0,
                }
                &&& s.machine_thumbprint@ == match published {
                    Some(p) => if p.machine_thumbprint@.len() > 0 {
                        p.machine_thumbprint@
                    } else {
                        known.0.1
                    },
                    None => known.0.1,
                }
            }
            &&& final(b).certs() == (
                (s.machine_cert@, s.machine_thumbprint@),
                (s.user_cert@, s.user_thumbprint@),
            )
        }),
{
}

/// Across sessions: what a machine's snapshot showed of the machine certificate, a user's
/// next snapshot shows too, be the published one read or not; and the other way round.
pub proof fn law_next_session_shows_the_last(
    b: &mut StatusBoard,
    c: &mut StatusBoard,
    one: u64,
    other: u64,
    published: Option<AuthStatus>,
    again: bool,
    state: AuthState,
    detail: &str,
    now_unix: u64,
    s: AuthStatus,
    t: AuthStatus,
)
    requires
        call_ensures(StatusBoard::publish, (b, one, published, state, detail, now_unix), Some(s)),
        *old(c) == *final(b),
        call_ensures(
            StatusBoard::publish,
            (
                c,
                other,
                if again {
                    Some(s)
                } else {
                    None
                },
                state,
                detail,
                now_unix,
            ),
            Some(t),
        ),
    ensures
        old(b).sessions()[one].identity == Identity::Machine && old(b).sessions()[other].identity
            == Identity::User ==> t.machine_cert@ == old(b).sessions()[one].cert_subject@
            && t.machine_thumbprint@ == old(b).sessions()[one].cert_thumbprint@,
        old(b).sessions()[one].identity == Identity::User && old(b).sessions()[other].identity
            == Identity::Machine ==> t.user_cert@ == old(b).sessions()[one].cert_subject@
            && t.user_thumbprint@ == old(b).sessions()[one].cert_thumbprint@,
{
}

/// A session's data is kept until it is removed, and a removed session has no snapshot;
/// other sessions, and the remembered certificates, are not touched.
pub proof fn law_session_data_is_kept_until_removed(
    b: &mut StatusBoard,
    c: &mut StatusBoard,
    handle: u64,
    other: u64,
    meta: StatusMeta,
)
    requires
        call_ensures(StatusBoard::insert, (b, handle, meta), ()),
        call_ensures(StatusBoard::remove, (c, handle), ()),
    ensures
        final(b).sessions().contains_key(handle),
        final(b).sessions()[handle] == meta,
        !final(c).sessions().contains_key(handle),
        other != handle ==> {
            &&& final(b).sessions().contains_key(other) == old(b).sessions().contains_key(other)
            &&& final(b).sessions()[other] == old(b).sessions()[other]
            &&& final(c).sessions().contains_key(other) == old(c).sessions().contains_key(other)
            &&& old(c).sessions().contains_key(other) ==> final(c).sessions()[other] == old(
                c,
            ).sessions()[other]
        },
        final(b).certs() == old(b).certs(),
        final(c).certs() == old(c).certs(),
{
}

/// A new board knows no session and no certificate.
pub proof fn law_new_board_knows_nothing(b: StatusBoard, handle: u64)
    requires
        call_ensures(StatusBoard::new, (), b),
    ensures
        !b.sessions().contains_key(handle),
        b.certs().0.0.len() == 0,
        b.certs().0.1.len() == 0,
        b.certs().1.0.len() == 0,
        b.certs().1.1.len() == 0,
{
}

/// Nothing is written before the directory is secured, and then the snapshot as it is.
pub proof fn law_snapshot_is_written_when_secured(
    snapshot: Option<AuthStatus>,
    secured: bool,
    r: Option<AuthStatus>,
)
    requires
        call_ensures(publishable, (snapshot, secured), r),
    ensures
        r is Some ==> secured && r == snapshot,
        secured && snapshot is Some ==> r is Some,
{
}

/// The tray shows success exactly for a success, and then without a detail; a failure is
/// told with its own words, and a missing conclusion is a failure too.
pub proof fn law_tray_shows_success_for_success_alone(
    result: Option<&AuthResult>,
    r: (AuthState, String),
)
    requires
        call_ensures(terminal_status, (result,), r),
    ensures
        r.0 == AuthState::Authenticated <==> (result matches Some(a) && a is Success),
        r.0 == AuthState::Authenticated || r.0 == AuthState::Failed,
        r.0 == AuthState::Authenticated <==> r.1@.len() == 0 && !(result matches Some(
            AuthResult::Failure(FailReason::Other(t)),
        ) && t@.len() == 0),
        result matches Some(AuthResult::Failure(FailReason::Other(t))) ==> r.1@ == t@,
        result is None ==> r.1@ == "no result"@,
        result matches Some(AuthResult::Failure(FailReason::ServerFailure)) ==> r.1@
            == "ServerFailure"@,
{
    reveal_strlit("");
    reveal_strlit("no result");
    reveal_strlit("ServerFailure");
}

} // verus!
