//! The table of live peer sessions, keyed by an opaque handle.
//!
//! A host refers to a session by a handle; each of its calls is passed to the
//! session behind the handle. An unknown handle (ended, stale or forged) fails
//! closed. Hosts that call from several threads hold the table in a lock.
use crate::eaphost::session::{AuthResult, PeerSession, ProcessAction, TeapStep};
use crate::text::{decimal, joined};
use std::collections::HashMap;
use vstd::prelude::*;

verus! {

/// An opaque session handle. Never zero, so that zero can mean "no session".
pub type SessionHandle = u64;

/// What fetching a response into a limited buffer gave.
#[derive(Debug, PartialEq, Eq)]
pub enum ResponseFetch {
    /// No session, or no response.
    Nothing,
    /// The response needs this many octets; it stays queued.
    TooSmall(usize),
    /// The response.
    Taken(Vec<u8>),
}

/// The handle that is given out after `h`: the next number, as long as there is one.
pub open spec fn handle_after(h: SessionHandle) -> SessionHandle {
    if h < u64::MAX {
        (h + 1) as u64
    } else {
        h
    }
}

/// The table of live sessions.
pub struct SessionRegistry<D: TeapStep> {
    next: SessionHandle,
    sessions: HashMap<SessionHandle, PeerSession<D>>,
}

impl<D: TeapStep> SessionRegistry<D> {
    /// The live sessions.
    pub closed spec fn live(self) -> Map<SessionHandle, PeerSession<D>> {
        self.sessions@
    }

    /// The next handle.
    pub closed spec fn next_handle(self) -> SessionHandle {
        self.next
    }

    /// What always holds: there are finitely many sessions, zero is no handle, and
    /// the next handle is fresh until handles run out.
    pub open spec fn wf(self) -> bool {
        &&& self.live().dom().finite()
        &&& self.next_handle() >= 1
        &&& forall|h: SessionHandle| #[trigger]
            self.live().contains_key(h) ==> 1 <= h && (h < self.next_handle() || self.next_handle()
                == u64::MAX)
    }

    /// What may be shown of the table: how many sessions are live.
    pub fn redacted(&self) -> (t: String)
        ensures
            t@ == "SessionRegistry { live: "@ + crate::text::decimal_text(self.live().len())
                + ", .. }"@,
    {
        joined("SessionRegistry { live: ", decimal(self.len() as u64).as_str(), ", .. }")
    }

    /// No sessions.
    pub fn new() -> (r: Self)
        ensures
            r.wf(),
            r.live() == Map::<SessionHandle, PeerSession<D>>::empty(),
            r.next_handle() == 1,
    {
        SessionRegistry { next: 1, sessions: HashMap::new() }
    }

    /// Register `session`, returning its handle: never zero, and not in use unless
    /// all handles were used up.
    pub fn begin(&mut self, session: PeerSession<D>) -> (h: SessionHandle)
        requires
            old(self).wf(),
        ensures
            final(self).wf(),
            h == old(self).next_handle(),
            h != 0,
            h < u64::MAX ==> !old(self).live().contains_key(h),
            final(self).live() == old(self).live().insert(h, session),
            !old(self).live().contains_key(h) ==> final(self).live().len() == old(self).live().len()
                + 1,
            final(self).next_handle() == handle_after(h),
    {
        broadcast use vstd::std_specs::hash::group_hash_axioms;

        let handle: SessionHandle = self.next;
        // Saturate rather than wrap, so that zero is never reused.
        self.next = self.next.saturating_add(1);
        self.sessions.insert(handle, session);
        assert forall|k: SessionHandle| #[trigger] self.live().contains_key(k) implies 1 <= k && (k
            < self.next_handle() || self.next_handle() == u64::MAX) by {
            if k != handle {
                assert(old(self).live().contains_key(k));
            }
        }
        handle
    }

    /// Process one inbound EAP request for `handle`; `None` if it is unknown.
    pub fn process(&mut self, handle: SessionHandle, eap_request: &[u8]) -> (r: Option<
        ProcessAction,
    >)
        requires
            old(self).wf(),
        ensures
            final(self).wf(),
            final(self).next_handle() == old(self).next_handle(),
            r is Some <==> old(self).live().contains_key(handle),
            r is None ==> final(self).live() == old(self).live(),
            r matches Some(a) ==> {
                &&& final(self).live() == old(self).live().insert(
                    handle,
                    final(self).live()[handle],
                )
                &&& final(self).live()[handle].session_kind() == old(
                    self,
                ).live()[handle].session_kind()
                &&& old(self).live()[handle].kept().conclusion is Some ==> final(self).live()[handle]
                    == old(self).live()[handle] && a == ProcessAction::Finished
                &&& old(self).live()[handle].kept().conclusion is None ==> exists|
                    d: &mut D,
                    step: Result<
                        crate::supplicant::driver::DriverStep,
                        crate::supplicant::error::DriverError,
                    >,
                |
                    {
                        &&& #[trigger] call_ensures(D::step, (d, eap_request), step)
                        &&& *d == old(self).live()[handle].session_driver()
                        &&& *final(d) == final(self).live()[handle].session_driver()
                        &&& final(self).live()[handle].kept() == crate::eaphost::session::absorbed(
                            old(self).live()[handle].kept(),
                            step,
                        )
                        &&& a == crate::eaphost::session::next_action(step)
                    }
            },
    {
        broadcast use vstd::std_specs::hash::group_hash_axioms;

        match self.sessions.remove(&handle) {
            None => {
                assert(self.live() =~= old(self).live());
                None
            },
            Some(s) => {
                let mut session: PeerSession<D> = s;
                let a: ProcessAction = session.process(eap_request);
                self.sessions.insert(handle, session);
                assert(self.live() =~= old(self).live().insert(handle, session));
                Some(a)
            },
        }
    }

    /// Take the response that waits for `handle`; `None` if there is no session or
    /// no response.
    pub fn take_response(&mut self, handle: SessionHandle) -> (r: Option<Vec<u8>>)
        requires
            old(self).wf(),
        ensures
            final(self).wf(),
            final(self).next_handle() == old(self).next_handle(),
            !old(self).live().contains_key(handle) ==> r is None && final(self).live() == old(
                self,
            ).live(),
            old(self).live().contains_key(handle) ==> {
                let before = old(self).live()[handle];
                let after = final(self).live()[handle];
                &&& crate::pac::store::ticket_view(r) == before.kept().response
                &&& final(self).live() == old(self).live().insert(handle, after)
                &&& after.kept() == (crate::eaphost::session::Kept {
                    response: None,
                    ..before.kept()
                })
                &&& after.session_kind() == before.session_kind()
                &&& after.session_driver() == before.session_driver()
            },
    {
        broadcast use vstd::std_specs::hash::group_hash_axioms;

        match self.sessions.remove(&handle) {
            None => {
                assert(self.live() =~= old(self).live());
                None
            },
            Some(s) => {
                let mut session: PeerSession<D> = s;
                let r: Option<Vec<u8>> = session.take_response();
                self.sessions.insert(handle, session);
                assert(self.live() =~= old(self).live().insert(handle, session));
                r
            },
        }
    }

    /// Take the response that waits for `handle` only if it fits `available`
    /// octets; otherwise it stays queued for the follow-up fetch.
    pub fn fetch_response(&mut self, handle: SessionHandle, available: usize) -> (r: ResponseFetch)
        requires
            old(self).wf(),
        ensures
            final(self).wf(),
            final(self).next_handle() == old(self).next_handle(),
            ({
                let live = old(self).live();
                let waiting = if live.contains_key(handle) {
                    live[handle].kept().response
                } else {
                    None
                };
                match waiting {
                    None => r is Nothing && final(self).live() == live,
                    Some(v) => if v.len() > available {
                        r == ResponseFetch::TooSmall(v.len() as usize) && final(self).live() == live
                    } else {
                        let after = final(self).live()[handle];
                        &&& r matches ResponseFetch::Taken(t) && t@ == v
                        &&& final(self).live() == live.insert(handle, after)
                        &&& after.kept() == (crate::eaphost::session::Kept {
                            response: None,
                            ..live[handle].kept()
                        })
                        &&& after.session_kind() == live[handle].session_kind()
                        &&& after.session_driver() == live[handle].session_driver()
                    },
                }
            }),
    {
        broadcast use vstd::std_specs::hash::group_hash_axioms;

        let waiting: Option<usize> = match self.sessions.get(&handle) {
            None => None,
            Some(s) => s.response_len(),
        };
        match waiting {
            None => ResponseFetch::Nothing,
            Some(len) => {
                if len > available {
                    return ResponseFetch::TooSmall(len);
                }
                match self.take_response(handle) {
                    Some(v) => ResponseFetch::Taken(v),
                    None => ResponseFetch::Nothing,
                }
            },
        }
    }

    /// The conclusion for `handle`, if its session has finished.
    pub fn result(&self, handle: SessionHandle) -> (r: Option<AuthResult>)
        ensures
            match r {
                Some(a) => self.live().contains_key(handle) && self.live()[handle].kept().conclusion
                    == Some(a@),
                None => self.live().contains_key(handle) ==> self.live()[handle].kept().conclusion is None,
            },
    {
        broadcast use vstd::std_specs::hash::group_hash_axioms;

        match self.sessions.get(&handle) {
            None => None,
            Some(s) => match s.result() {
                Some(a) => Some(a.duplicate()),
                None => None,
            },
        }
    }

    /// Whether the outer tunnel is established for `handle`; `None` if the handle is
    /// unknown.
    pub fn tunnel_established(&self, handle: SessionHandle) -> (r: Option<bool>)
        ensures
            r is Some <==> self.live().contains_key(handle),
            r matches Some(b) ==> call_ensures(
                D::tunnel_established,
                (&self.live()[handle].session_driver(),),
                b,
            ),
    {
        broadcast use vstd::std_specs::hash::group_hash_axioms;

        match self.sessions.get(&handle) {
            None => None,
            Some(s) => Some(s.tunnel_established()),
        }
    }

    /// End the session for `handle`. Returns whether it existed.
    pub fn end(&mut self, handle: SessionHandle) -> (existed: bool)
        requires
            old(self).wf(),
        ensures
            final(self).wf(),
            final(self).next_handle() == old(self).next_handle(),
            existed == old(self).live().contains_key(handle),
            final(self).live() == old(self).live().remove(handle),
            final(self).live().len() == (if existed {
                old(self).live().len() - 1
            } else {
                old(self).live().len() as int
            }),
    {
        broadcast use vstd::std_specs::hash::group_hash_axioms;

        let existed: bool = self.sessions.remove(&handle).is_some();
        assert(self.live() =~= old(self).live().remove(handle));
        existed
    }

    /// Number of live sessions.
    pub fn len(&self) -> (n: usize)
        ensures
            n == self.live().len(),
    {
        broadcast use vstd::std_specs::hash::group_hash_axioms;

        self.sessions.len()
    }

    /// Whether there are no live sessions.
    pub fn is_empty(&self) -> (r: bool)
        ensures
            r == (self.live().len() == 0),
    {
        self.len() == 0
    }
}

impl<D: TeapStep> Default for SessionRegistry<D> {
    fn default() -> (r: Self)
        ensures
            r.wf(),
            r.live() == Map::<SessionHandle, PeerSession<D>>::empty(),
            r.next_handle() == 1,
    {
        SessionRegistry::new()
    }
}

/// What one call does to a table as far as handles go: `began` is the handle that it
/// gave out, if it began a session; the next handle moves on then, and only then.
/// No other call makes a handle live.
pub open spec fn handle_call<D: TeapStep>(
    before: SessionRegistry<D>,
    after: SessionRegistry<D>,
    began: Option<SessionHandle>,
) -> bool {
    match began {
        Some(h) => {
            &&& h == before.next_handle()
            &&& after.next_handle() == handle_after(h)
            &&& after.live().dom() == before.live().dom().insert(h)
        },
        None => {
            &&& after.next_handle() == before.next_handle()
            &&& after.live().dom().subset_of(before.live().dom())
        },
    }
}

/// How many sessions were begun.
pub open spec fn begins(began: Seq<Option<SessionHandle>>) -> nat
    decreases began.len(),
{
    if began.len() == 0 {
        0
    } else {
        begins(began.drop_last()) + (if began.last() is Some {
            1nat
        } else {
            0nat
        })
    }
}

/// The next handle of a table that started empty is fresh until all handles were
/// given out, the very last one included: it is the number of sessions begun so far,
/// plus one, it was never given out, and no live session has it.
pub proof fn law_next_handle_is_fresh<D: TeapStep>(
    tables: Seq<SessionRegistry<D>>,
    began: Seq<Option<SessionHandle>>,
)
    requires
        tables.len() == began.len() + 1,
        tables[0].next_handle() == 1,
        tables[0].live() == Map::<SessionHandle, PeerSession<D>>::empty(),
        forall|k: int|
            0 <= k < began.len() ==> handle_call(
                #[trigger] tables[k],
                tables[k + 1],
                #[trigger] began[k],
            ),
        begins(began) < u64::MAX,
    ensures
        tables.last().next_handle() == begins(began) + 1,
        forall|h: SessionHandle| #[trigger]
            tables.last().live().contains_key(h) ==> 1 <= h && h < tables.last().next_handle(),
        forall|i: int|
            0 <= i < began.len() ==> (#[trigger] began[i] matches Some(h) ==> 1 <= h && h
                < tables.last().next_handle()),
    decreases began.len(),
{
    if began.len() > 0 {
        let n = began.len() - 1;
        let before = tables.drop_last();
        let earlier = began.drop_last();
        assert forall|k: int| 0 <= k < earlier.len() implies handle_call(
            #[trigger] before[k],
            before[k + 1],
            #[trigger] earlier[k],
        ) by {
            assert(handle_call(tables[k], tables[k + 1], began[k]));
        }
        law_next_handle_is_fresh(before, earlier);
        assert(before.last() == tables[n]);
        assert(handle_call(tables[n], tables[n + 1], began[n]));
        assert forall|h: SessionHandle| #[trigger] tables.last().live().contains_key(h) implies 1
            <= h && h < tables.last().next_handle() by {
            assert(tables[n + 1].live().dom().contains(h));
            if began[n] != Some(h) {
                assert(tables[n].live().contains_key(h));
            }
        }
        assert forall|i: int| 0 <= i < began.len() implies (#[trigger] began[i] matches Some(h)
            ==> 1 <= h && h < tables.last().next_handle()) by {
            if i < n {
                assert(earlier[i] == began[i]);
            }
        }
    }
}

proof fn lemma_handles_grow<D: TeapStep>(
    tables: Seq<SessionRegistry<D>>,
    began: Seq<Option<SessionHandle>>,
    i: int,
    j: int,
)
    requires
        tables.len() == began.len() + 1,
        forall|k: int|
            0 <= k < began.len() ==> handle_call(
                #[trigger] tables[k],
                tables[k + 1],
                #[trigger] began[k],
            ),
        0 <= i <= j < tables.len(),
    ensures
        tables[i].next_handle() <= tables[j].next_handle(),
    decreases j - i,
{
    if i < j {
        lemma_handles_grow(tables, began, i, j - 1);
        assert(handle_call(tables[j - 1], tables[j], began[j - 1]));
    }
}

/// No handle is given out twice, whatever is called in between, ended sessions
/// included: as long as handles last, each is larger than all before it. And none
/// is zero.
pub proof fn law_handles_are_never_reused<D: TeapStep>(
    tables: Seq<SessionRegistry<D>>,
    began: Seq<Option<SessionHandle>>,
    i: int,
    j: int,
)
    requires
        tables.len() == began.len() + 1,
        tables[0].wf(),
        forall|k: int|
            0 <= k < began.len() ==> handle_call(
                #[trigger] tables[k],
                tables[k + 1],
                #[trigger] began[k],
            ),
        0 <= i < j < began.len(),
        began[i] is Some,
        began[j] is Some,
    ensures
        began[i]->0 != 0,
        began[j]->0 != 0,
        began[i]->0 < u64::MAX ==> began[i]->0 < began[j]->0,
{
    lemma_handles_grow(tables, began, 0, i);
    lemma_handles_grow(tables, began, i + 1, j);
    assert(handle_call(tables[i], tables[i + 1], began[i]));
    assert(handle_call(tables[j], tables[j + 1], began[j]));
}

/// Beginning a session whose handle is fresh raises the count by one and leaves every
/// earlier session as it was.
pub proof fn law_begin_adds_one_session<D: TeapStep>(
    table: SessionRegistry<D>,
    session: PeerSession<D>,
    other: SessionHandle,
)
    requires
        table.wf(),
        !table.live().contains_key(table.next_handle()),
    ensures
        ({
            let h = table.next_handle();
            let live = table.live().insert(h, session);
            &&& live.len() == table.live().len() + 1
            &&& live[h] == session
            &&& table.live().contains_key(other) ==> other != h && live.contains_key(other)
                && live[other] == table.live()[other]
        }),
{
}

/// What happens behind one handle leaves every other handle's session as it was.
pub proof fn law_handles_are_isolated<D: TeapStep>(
    live: Map<SessionHandle, PeerSession<D>>,
    handle: SessionHandle,
    after: PeerSession<D>,
    other: SessionHandle,
)
    requires
        other != handle,
    ensures
        live.insert(handle, after).contains_key(other) == live.contains_key(other),
        live.contains_key(other) ==> live.insert(handle, after)[other] == live[other],
        live.remove(handle).contains_key(other) == live.contains_key(other),
        live.contains_key(other) ==> live.remove(handle)[other] == live[other],
{
}

/// Ending a session twice ends it once: the handle is unknown afterwards, the count
/// drops by one if it was known, and by nothing the second time.
pub proof fn law_end_is_idempotent<D: TeapStep>(
    live: Map<SessionHandle, PeerSession<D>>,
    handle: SessionHandle,
)
    requires
        live.dom().finite(),
    ensures
        !live.remove(handle).contains_key(handle),
        live.remove(handle).remove(handle) == live.remove(handle),
        live.contains_key(handle) ==> live.remove(handle).len() == live.len() - 1,
        !live.contains_key(handle) ==> live.remove(handle).len() == live.len(),
{
    assert(live.remove(handle).remove(handle) =~= live.remove(handle));
    if !live.contains_key(handle) {
        assert(live.remove(handle) =~= live);
    }
}

/// A session that was begun is live behind its handle, which is not zero, and the next
/// handle is another one as long as handles last; all other sessions stay as they were.
pub proof fn law_begun_session_is_live<D: TeapStep>(
    t: &mut SessionRegistry<D>,
    session: PeerSession<D>,
    h: SessionHandle,
    u: &mut SessionRegistry<D>,
    second: PeerSession<D>,
    k: SessionHandle,
    other: SessionHandle,
)
    requires
        old(t).wf(),
        call_ensures(SessionRegistry::<D>::begin, (t, session), h),
        *old(u) == *final(t),
        call_ensures(SessionRegistry::<D>::begin, (u, second), k),
    ensures
        h != 0,
        final(t).live().contains_key(h),
        final(t).live()[h] == session,
        other != h ==> final(t).live().contains_key(other) == old(t).live().contains_key(other)
            && (old(t).live().contains_key(other) ==> final(t).live()[other] == old(t).live()[other]),
        h < u64::MAX ==> !old(t).live().contains_key(h),
        h < u64::MAX ==> k == h + 1,
        h < u64::MAX ==> final(u).live()[h] == session && final(u).live()[k] == second,
{
}

/// A call behind an unknown handle does nothing and gives nothing; a call behind a known
/// one leaves every other session as it was, and its own session live.
pub proof fn law_calls_stay_behind_their_handle<D: TeapStep>(
    p: &mut SessionRegistry<D>,
    handle: SessionHandle,
    eap_request: &[u8],
    a: Option<ProcessAction>,
    t: &mut SessionRegistry<D>,
    v: Option<Vec<u8>>,
    f: &mut SessionRegistry<D>,
    available: usize,
    got: ResponseFetch,
    other: SessionHandle,
)
    requires
        call_ensures(SessionRegistry::<D>::process, (p, handle, eap_request), a),
        call_ensures(SessionRegistry::<D>::take_response, (t, handle), v),
        call_ensures(SessionRegistry::<D>::fetch_response, (f, handle, available), got),
    ensures
        a is Some <==> old(p).live().contains_key(handle),
        !old(t).live().contains_key(handle) ==> v is None,
        !old(f).live().contains_key(handle) ==> got is Nothing,
        final(p).live().contains_key(other) == old(p).live().contains_key(other),
        final(t).live().contains_key(other) == old(t).live().contains_key(other),
        final(f).live().contains_key(other) == old(f).live().contains_key(other),
        other != handle && old(p).live().contains_key(other) ==> final(p).live()[other] == old(
            p,
        ).live()[other],
        other != handle && old(t).live().contains_key(other) ==> final(t).live()[other] == old(
            t,
        ).live()[other],
        other != handle && old(f).live().contains_key(other) ==> final(f).live()[other] == old(
            f,
        ).live()[other],
        final(p).next_handle() == old(p).next_handle(),
        final(t).next_handle() == old(t).next_handle(),
        final(f).next_handle() == old(f).next_handle(),
{
}

/// The table passes a request on as it is: what it does to the session behind the handle,
/// and what it gives, is what the session itself does and gives where its driver can only
/// give `step`.
pub proof fn law_table_passes_the_request_on<D: TeapStep>(
    t: &mut SessionRegistry<D>,
    handle: SessionHandle,
    eap_request: &[u8],
    step: Result<
        crate::supplicant::driver::DriverStep,
        crate::supplicant::error::DriverError,
    >,
    a: Option<ProcessAction>,
    s: &mut PeerSession<D>,
    b: ProcessAction,
)
    requires
        old(t).live().contains_key(handle),
        call_ensures(SessionRegistry::<D>::process, (t, handle, eap_request), a),
        *old(s) == old(t).live()[handle],
        call_ensures(PeerSession::<D>::process, (s, eap_request), b),
        forall|
            d: &mut D,
            given: Result<
                crate::supplicant::driver::DriverStep,
                crate::supplicant::error::DriverError,
            >,
        | #[trigger]
            call_ensures(D::step, (d, eap_request), given) && *d == old(s).session_driver()
                ==> given == step,
    ensures
        a == Some(b),
        final(t).live()[handle].kept() == final(s).kept(),
        final(t).live()[handle].session_kind() == final(s).session_kind(),
{
}

/// A response is fetched exactly if it fits; one that does not fit stays, its length is
/// told, and a fetch with that much room then gives it.
pub proof fn law_response_waits_for_room<D: TeapStep>(
    t: &mut SessionRegistry<D>,
    handle: SessionHandle,
    available: usize,
    r: ResponseFetch,
    u: &mut SessionRegistry<D>,
    needed: usize,
    q: ResponseFetch,
    v: Seq<u8>,
)
    requires
        old(t).live().contains_key(handle),
        old(t).live()[handle].kept().response == Some(v),
        v.len() <= usize::MAX,
        call_ensures(SessionRegistry::<D>::fetch_response, (t, handle, available), r),
        *old(u) == *final(t),
        call_ensures(SessionRegistry::<D>::fetch_response, (u, handle, needed), q),
    ensures
        v.len() <= available ==> (r matches ResponseFetch::Taken(w) && w@ == v) && q is Nothing
            && final(t).live()[handle].kept().response is None,
        v.len() > available ==> (r matches ResponseFetch::TooSmall(n) && n == v.len()) && (needed
            == v.len() ==> (q matches ResponseFetch::Taken(w) && w@ == v)),
        final(t).live()[handle].kept().conclusion == old(t).live()[handle].kept().conclusion,
        final(t).live()[handle].session_driver() == old(t).live()[handle].session_driver(),
        final(t).live()[handle].session_kind() == old(t).live()[handle].session_kind(),
{
}

/// Taking a response gives what waits and leaves nothing; the conclusion stays.
pub proof fn law_table_hands_out_the_response<D: TeapStep>(
    t: &mut SessionRegistry<D>,
    handle: SessionHandle,
    r: Option<Vec<u8>>,
)
    requires
        old(t).live().contains_key(handle),
        call_ensures(SessionRegistry::<D>::take_response, (t, handle), r),
    ensures
        r is Some <==> old(t).live()[handle].kept().response is Some,
        r matches Some(v) ==> old(t).live()[handle].kept().response == Some(v@),
        final(t).live()[handle].kept().response is None,
        final(t).live()[handle].kept().conclusion == old(t).live()[handle].kept().conclusion,
        final(t).live()[handle].session_driver() == old(t).live()[handle].session_driver(),
        final(t).live()[handle].session_kind() == old(t).live()[handle].session_kind(),
{
}

/// The table reads a session's conclusion as the session itself does, and an unknown handle
/// has none.
pub proof fn law_table_reads_the_conclusion<D: TeapStep>(
    t: SessionRegistry<D>,
    handle: SessionHandle,
    r: Option<AuthResult>,
    own: Option<&AuthResult>,
)
    requires
        call_ensures(SessionRegistry::<D>::result, (&t, handle), r),
        call_ensures(PeerSession::<D>::result, (&t.live()[handle],), own),
    ensures
        r is Some <==> t.live().contains_key(handle) && own is Some,
        t.live().contains_key(handle) ==> {
            &&& own matches Some(AuthResult::Success { msk, issued_mat }) ==> (r matches Some(
                AuthResult::Success { msk: key, issued_mat: ticket },
            ) && key@ == msk@ && (issued_mat is None ==> ticket is None) && (
            issued_mat matches Some(i) ==> (ticket matches Some(u) && u@ == i@)))
            &&& own matches Some(AuthResult::Failure(reason)) ==> (r matches Some(
                AuthResult::Failure(why),
            ) && why@ == reason@)
        },
{
}

/// Whether a tunnel is established is the driver's answer behind the handle, and there is
/// none behind an unknown one.
pub proof fn law_table_asks_the_driver<D: TeapStep>(
    t: SessionRegistry<D>,
    handle: SessionHandle,
    says: bool,
    r: Option<bool>,
)
    requires
        call_ensures(SessionRegistry::<D>::tunnel_established, (&t, handle), r),
        forall|b: bool| #[trigger]
            call_ensures(D::tunnel_established, (&t.live()[handle].session_driver(),), b) ==> b
                == says,
    ensures
        t.live().contains_key(handle) ==> r == Some(says),
        !t.live().contains_key(handle) ==> r is None,
{
}

/// A session is ended once: the first time it existed and is gone, the second time it does
/// not exist. The others stay, and the counts follow.
pub proof fn law_ended_session_is_gone<D: TeapStep>(
    t: &mut SessionRegistry<D>,
    handle: SessionHandle,
    existed: bool,
    u: &mut SessionRegistry<D>,
    again: bool,
    before: usize,
    after: usize,
    empty: bool,
    other: SessionHandle,
)
    requires
        old(t).wf(),
        call_ensures(SessionRegistry::<D>::end, (t, handle), existed),
        *old(u) == *final(t),
        call_ensures(SessionRegistry::<D>::end, (u, handle), again),
        call_ensures(SessionRegistry::<D>::len, (&*old(t),), before),
        call_ensures(SessionRegistry::<D>::len, (&*final(t),), after),
        call_ensures(SessionRegistry::<D>::is_empty, (&*final(t),), empty),
    ensures
        existed <==> old(t).live().contains_key(handle),
        !again,
        !final(t).live().contains_key(handle),
        existed ==> after == before - 1,
        !existed ==> after == before,
        empty <==> after == 0,
        other != handle && old(t).live().contains_key(other) ==> final(t).live().contains_key(other)
            && final(t).live()[other] == old(t).live()[other],
        final(t).next_handle() == old(t).next_handle(),
{
}

/// A new table is empty, and its first handle is one.
pub proof fn law_new_table_is_empty<D: TeapStep>(
    fresh: SessionRegistry<D>,
    t: &mut SessionRegistry<D>,
    session: PeerSession<D>,
    h: SessionHandle,
    n: usize,
    m: usize,
)
    requires
        call_ensures(SessionRegistry::<D>::new, (), fresh),
        call_ensures(SessionRegistry::<D>::len, (&fresh,), n),
        *old(t) == fresh,
        call_ensures(SessionRegistry::<D>::begin, (t, session), h),
        call_ensures(SessionRegistry::<D>::len, (&*final(t),), m),
    ensures
        n == 0,
        h == 1,
        m == 1,
{
}

/// What is shown of a table tells how many sessions are live, and nothing of them: tables
/// with as many sessions look the same.
pub proof fn law_shown_table_tells_its_count<D: TeapStep>(
    a: SessionRegistry<D>,
    b: SessionRegistry<D>,
    t: String,
    u: String,
    n: usize,
)
    requires
        call_ensures(SessionRegistry::<D>::redacted, (&a,), t),
        call_ensures(SessionRegistry::<D>::redacted, (&b,), u),
        call_ensures(SessionRegistry::<D>::len, (&a,), n),
    ensures
        crate::text::text_contains(t@, crate::text::decimal_text(n as nat)),
        a.live().len() == b.live().len() ==> t@ == u@,
{
    crate::text::law_contained_text_stands_inside(
        "SessionRegistry { live: "@,
        crate::text::decimal_text(n as nat),
        ", .. }"@,
    );
}

/// A table made by default is a new one.
pub proof fn law_default_table_is_empty<D: TeapStep>(t: SessionRegistry<D>, n: usize)
    requires
        call_ensures(<SessionRegistry<D> as Default>::default, (), t),
        call_ensures(SessionRegistry::<D>::len, (&t,), n),
    ensures
        n == 0,
        t.next_handle() == 1,
{
}

} // verus!
