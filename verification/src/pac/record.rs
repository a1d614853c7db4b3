//! The stored form of a ticket: a small header in front of the opaque ticket, so
//! that an obviously stale ticket need not be presented. The server stays the
//! authority on freshness.
use crate::bytes::{copy_range, get_be32, get_be64, put_all, put_be32, put_be64};
use crate::pac::error::PacError;
use crate::text::{decimal, joined};
use vstd::prelude::*;
use vstd::string::StringExecFns;

verus! {

/// Octets of the header: magic, storage time, ticket length.
pub const HEADER_LEN: usize = 16;

/// Ceiling on the ticket's size, well above any real ticket.
pub const MAX_TICKET_LEN: usize = 65536;

/// A stored ticket: the server's opaque bytes and the client time of storage.
///
/// There is no `Debug` form, only [`MatRecord::redacted`]: the ticket bears
/// authorization.
#[derive(Clone, PartialEq, Eq)]
pub struct MatRecord {
    /// The server's ticket, never parsed by the client.
    pub ticket: Vec<u8>,
    /// Unix seconds (client clock) when the ticket was stored.
    pub stored_at_unix: u64,
}

/// What a record says, as mathematical values.
#[verifier::ext_equal]
pub struct Ticket {
    /// The ticket.
    pub ticket: Seq<u8>,
    /// Unix seconds of storage.
    pub stored_at_unix: u64,
}

impl View for MatRecord {
    type V = Ticket;

    open spec fn view(&self) -> Ticket {
        Ticket { ticket: self.ticket@, stored_at_unix: self.stored_at_unix }
    }
}

/// The octets every record starts with: `MAT1`.
pub open spec fn record_magic() -> Seq<u8> {
    seq![0x4du8, 0x41u8, 0x54u8, 0x31u8]
}

/// The framed form of a record.
pub open spec fn framed(t: Ticket) -> Seq<u8> {
    record_magic() + crate::bytes::be64(t.stored_at_unix) + crate::bytes::be32(
        t.ticket.len() as u32,
    ) + t.ticket
}

/// `b` is exactly a header and the ticket that the header announces.
pub open spec fn is_record(b: Seq<u8>) -> bool {
    &&& b.len() >= HEADER_LEN
    &&& b.take(4) == record_magic()
    &&& crate::bytes::be32_value(b.subrange(12, 16)) <= MAX_TICKET_LEN
    &&& b.len() == HEADER_LEN + crate::bytes::be32_value(b.subrange(12, 16))
}

/// What a framed record says.
pub open spec fn unframed(b: Seq<u8>) -> Ticket {
    Ticket {
        ticket: b.skip(HEADER_LEN as int),
        stored_at_unix: crate::bytes::be64_value(b.subrange(4, 12)),
    }
}

/// A ticket is fresh while it is no older than `max_age_secs`; a clock that moved
/// backwards makes it stale.
pub open spec fn fresh(t: Ticket, now_unix: u64, max_age_secs: u64) -> bool {
    t.stored_at_unix <= now_unix && now_unix - t.stored_at_unix <= max_age_secs
}

/// What may be shown of a record: when it was stored and how long the ticket is.
pub open spec fn redacted_record(t: Ticket) -> Seq<char> {
    "MatRecord { ticket_len: "@ + crate::text::decimal_text(t.ticket.len()) + ", stored_at_unix: "@
        + crate::text::decimal_text(t.stored_at_unix as nat) + " }"@
}

impl MatRecord {
    /// What may be shown of the record.
    pub fn redacted(&self) -> (t: String)
        ensures
            t@ == redacted_record(self@),
    {
        let mut t: String = joined(
            "MatRecord { ticket_len: ",
            decimal(self.ticket.len() as u64).as_str(),
            ", stored_at_unix: ",
        );
        t.append(decimal(self.stored_at_unix).as_str());
        t.append(" }");
        t
    }

    /// Serialize to the framed form (before sealing).
    pub fn encode(&self) -> (r: Result<Vec<u8>, PacError>)
        ensures
            match r {
                Ok(b) => self@.ticket.len() <= MAX_TICKET_LEN && b@ == framed(self@),
                Err(e) => self@.ticket.len() > MAX_TICKET_LEN && e == (PacError::TooLarge {
                    len: self.ticket.len(),
                }),
            },
    {
        if self.ticket.len() > MAX_TICKET_LEN {
            return Err(PacError::TooLarge { len: self.ticket.len() });
        }
        let mut out: Vec<u8> = Vec::new();
        out.push(0x4d);
        out.push(0x41);
        out.push(0x54);
        out.push(0x31);
        assert(out@ =~= record_magic());
        put_be64(&mut out, self.stored_at_unix);
        put_be32(&mut out, self.ticket.len() as u32);
        put_all(&mut out, self.ticket.as_slice());
        Ok(out)
    }

    /// Parse a framed record.
    pub fn decode(bytes: &[u8]) -> (r: Result<Self, PacError>)
        ensures
            match r {
                Ok(record) => is_record(bytes@) && record@ == unframed(bytes@),
                Err(e) => !is_record(bytes@) && e == PacError::BadRecord,
            },
    {
        if bytes.len() < HEADER_LEN {
            return Err(PacError::BadRecord);
        }
        let is_magic: bool = bytes[0] == 0x4d && bytes[1] == 0x41 && bytes[2] == 0x54 && bytes[3]
            == 0x31;
        proof {
            if is_magic {
                assert(bytes@.take(4) =~= record_magic());
            } else if bytes@.take(4) == record_magic() {
                assert(bytes@.take(4)[0] == 0x4d && bytes@.take(4)[1] == 0x41);
                assert(bytes@.take(4)[2] == 0x54 && bytes@.take(4)[3] == 0x31);
            }
        }
        if !is_magic {
            return Err(PacError::BadRecord);
        }
        let stored_at_unix: u64 = get_be64(bytes, 4);
        let declared: usize = get_be32(bytes, 12) as usize;
        if declared > MAX_TICKET_LEN {
            return Err(PacError::BadRecord);
        }
        if bytes.len() != HEADER_LEN + declared {
            return Err(PacError::BadRecord);
        }
        let ticket: Vec<u8> = copy_range(bytes, HEADER_LEN, bytes.len());
        assert(ticket@ =~= bytes@.skip(HEADER_LEN as int));
        Ok(MatRecord { ticket, stored_at_unix })
    }

    /// Whether the ticket is within `max_age_secs` of its storage time at
    /// `now_unix`.
    pub fn is_fresh(&self, now_unix: u64, max_age_secs: u64) -> (r: bool)
        ensures
            r == fresh(self@, now_unix, max_age_secs),
    {
        now_unix >= self.stored_at_unix && now_unix - self.stored_at_unix <= max_age_secs
    }
}

proof fn lemma_framed_parts(t: Ticket)
    requires
        t.ticket.len() <= MAX_TICKET_LEN,
    ensures
        framed(t).len() == HEADER_LEN + t.ticket.len(),
        framed(t).take(4) == record_magic(),
        framed(t).subrange(4, 12) == crate::bytes::be64(t.stored_at_unix),
        framed(t).subrange(12, 16) == crate::bytes::be32(t.ticket.len() as u32),
        framed(t).skip(16) == t.ticket,
{
    crate::bytes::lemma_be64_round_trip(t.stored_at_unix);
    crate::bytes::lemma_be32_round_trip(t.ticket.len() as u32);
    assert(framed(t).take(4) =~= record_magic());
    assert(framed(t).subrange(4, 12) =~= crate::bytes::be64(t.stored_at_unix));
    assert(framed(t).subrange(12, 16) =~= crate::bytes::be32(t.ticket.len() as u32));
    assert(framed(t).skip(16) =~= t.ticket);
}

/// A record survives its framed form.
pub proof fn law_record_round_trips(t: Ticket)
    requires
        t.ticket.len() <= MAX_TICKET_LEN,
    ensures
        is_record(framed(t)),
        unframed(framed(t)) == t,
{
    lemma_framed_parts(t);
    crate::bytes::lemma_be64_round_trip(t.stored_at_unix);
    crate::bytes::lemma_be32_round_trip(t.ticket.len() as u32);
}

/// Every accepted record is the framed form of what it says: no two byte strings
/// are accepted for one record.
pub proof fn law_framing_is_canonical(b: Seq<u8>)
    requires
        is_record(b),
    ensures
        unframed(b).ticket.len() <= MAX_TICKET_LEN,
        framed(unframed(b)) == b,
{
    let t = unframed(b);
    crate::bytes::lemma_be64_canonical(b.subrange(4, 12));
    crate::bytes::lemma_be32_canonical(b.subrange(12, 16));
    lemma_framed_parts(t);
    let f = framed(t);
    assert(f =~= b) by {
        assert(f =~= f.take(4) + f.subrange(4, 12) + f.subrange(12, 16) + f.skip(16));
        assert(b =~= b.take(4) + b.subrange(4, 12) + b.subrange(12, 16) + b.skip(16));
    }
}

/// Neither a shorter beginning of a record nor a record with octets behind it is
/// accepted.
pub proof fn law_record_length_is_exact(b: Seq<u8>, n: int, more: Seq<u8>)
    requires
        is_record(b),
        0 <= n < b.len(),
        more.len() > 0,
    ensures
        !is_record(b.take(n)),
        !is_record(b + more),
{
    if n >= 16 {
        assert(b.take(n).subrange(12, 16) =~= b.subrange(12, 16));
    }
    assert((b + more).subrange(12, 16) =~= b.subrange(12, 16));
}

/// What is shown of a record does not give away its ticket: tickets of one length
/// look the same.
pub proof fn law_shown_record_hides_the_ticket(t: Ticket, other: Seq<u8>)
    requires
        other.len() == t.ticket.len(),
    ensures
        redacted_record(Ticket { ticket: other, ..t }) == redacted_record(t),
{
}

/// A record is written and read back: whatever its ticket and its time, the octets that
/// were written parse as the same record. Only a ticket over 65536 octets is not written.
pub proof fn law_written_record_reads_back(
    m: MatRecord,
    w: Result<Vec<u8>, PacError>,
    bytes: &[u8],
    r: Result<MatRecord, PacError>,
)
    requires
        call_ensures(MatRecord::encode, (&m,), w),
        call_ensures(MatRecord::decode, (bytes,), r),
    ensures
        w is Ok <==> m.ticket@.len() <= 65536,
        w matches Err(e) ==> e == (PacError::TooLarge { len: m.ticket.len() }),
        (w matches Ok(v) && v@ == bytes@) ==> (r matches Ok(n) && n.ticket@ == m.ticket@
            && n.stored_at_unix == m.stored_at_unix),
{
    if w is Ok {
        law_record_round_trips(m@);
    }
}

/// The layout of a record: `MAT1`, eight octets of time and four of length, each the
/// highest first, then the ticket.
pub proof fn law_record_layout(m: MatRecord, b: Vec<u8>)
    requires
        call_ensures(MatRecord::encode, (&m,), Ok::<Vec<u8>, PacError>(b)),
    ensures
        b@.len() == 16 + m.ticket@.len(),
        b@[0] as char == 'M',
        b@[1] as char == 'A',
        b@[2] as char == 'T',
        b@[3] as char == '1',
        crate::creds::ecdsa::octets_value(b@.subrange(4, 12)) == m.stored_at_unix,
        crate::creds::ecdsa::octets_value(b@.subrange(12, 16)) == m.ticket@.len(),
        b@.skip(16) == m.ticket@,
{
    lemma_framed_parts(m@);
    let f = b@;
    assert(f.take(4)[0] == f[0] && f.take(4)[1] == f[1] && f.take(4)[2] == f[2] && f.take(4)[3]
        == f[3]);
    lemma_eight_octets(m.stored_at_unix);
    lemma_four_octets(m.ticket@.len() as u32);
}

proof fn lemma_four_octets(n: u32)
    ensures
        crate::creds::ecdsa::octets_value(crate::bytes::be32(n)) == n,
{
    let b = crate::bytes::be32(n);
    crate::bytes::lemma_be32_round_trip(n);
    lemma_value_of_four(Seq::empty(), b);
    assert(Seq::<u8>::empty() + b =~= b);
    assert(crate::bytes::be32_value(b) == n);
    assert(16777216 * b[0] + 65536 * b[1] + 256 * b[2] + b[3] <= u32::MAX);
}

proof fn lemma_value_of_four(a: Seq<u8>, b: Seq<u8>)
    requires
        b.len() == 4,
    ensures
        crate::creds::ecdsa::octets_value(a + b) == 0x1_0000_0000
            * crate::creds::ecdsa::octets_value(a) + 16777216 * b[0] + 65536 * b[1] + 256 * b[2]
            + b[3],
        crate::creds::ecdsa::octets_value(Seq::empty()) == 0,
{
    let s1 = a.push(b[0]);
    let s2 = s1.push(b[1]);
    let s3 = s2.push(b[2]);
    let s4 = s3.push(b[3]);
    assert(a + b =~= s4);
    crate::creds::ecdsa::law_octets_are_positional(a, b[0]);
    crate::creds::ecdsa::law_octets_are_positional(s1, b[1]);
    crate::creds::ecdsa::law_octets_are_positional(s2, b[2]);
    crate::creds::ecdsa::law_octets_are_positional(s3, b[3]);
}

proof fn lemma_eight_octets(n: u64)
    ensures
        crate::creds::ecdsa::octets_value(crate::bytes::be64(n)) == n,
{
    let hi = (n / 0x1_0000_0000) as u32;
    let lo = (n % 0x1_0000_0000) as u32;
    lemma_four_octets(hi);
    lemma_value_of_four(crate::bytes::be32(hi), crate::bytes::be32(lo));
    lemma_four_octets(lo);
    lemma_value_of_four(Seq::empty(), crate::bytes::be32(lo));
    assert(Seq::<u8>::empty() + crate::bytes::be32(lo) =~= crate::bytes::be32(lo));
}

/// Octets that are no record are refused as such: without the magic, shorter than the
/// header, of another length than the header says, or with a ticket over 65536 octets.
pub proof fn law_malformed_record_is_refused(bytes: &[u8], r: Result<MatRecord, PacError>)
    requires
        call_ensures(MatRecord::decode, (bytes,), r),
    ensures
        r is Ok ==> {
            &&& bytes@.len() >= 16
            &&& bytes@[0] as char == 'M' && bytes@[1] as char == 'A'
            &&& bytes@[2] as char == 'T' && bytes@[3] as char == '1'
            &&& bytes@.len() == 16 + 16777216 * bytes@[12] + 65536 * bytes@[13] + 256 * bytes@[14]
                + bytes@[15]
            &&& bytes@.len() <= 16 + 65536
            &&& r->Ok_0.ticket@ == bytes@.skip(16)
        },
        r matches Err(e) ==> e == PacError::BadRecord,
        r is Err && bytes@.len() >= 16 && bytes@[0] == 0x4d && bytes@[1] == 0x41 && bytes@[2] == 0x54
            && bytes@[3] == 0x31 ==> bytes@.len() > 16 + 65536 || bytes@.len() != 16 + 16777216
            * bytes@[12] + 65536 * bytes@[13] + 256 * bytes@[14] + bytes@[15],
{
    let b = bytes@;
    if b.len() >= 16 {
        assert(b.take(4)[0] == b[0] && b.take(4)[1] == b[1] && b.take(4)[2] == b[2] && b.take(4)[3]
            == b[3]);
        let s = b.subrange(12, 16);
        assert(s[0] == b[12] && s[1] == b[13] && s[2] == b[14] && s[3] == b[15]);
        if b[0] == 0x4d && b[1] == 0x41 && b[2] == 0x54 && b[3] == 0x31 {
            assert(b.take(4) =~= record_magic());
        }
    }
}

/// A ticket is fresh at its storage time; from then on, as the clock goes forward, it is
/// fresh until its age passes the limit, and never again. Before its storage time it is
/// stale, and a longer limit never makes it stale.
pub proof fn law_freshness_ends_once(
    m: MatRecord,
    now: u64,
    later: u64,
    limit: u64,
    longer: u64,
    r: bool,
    s: bool,
    q: bool,
)
    requires
        call_ensures(MatRecord::is_fresh, (&m, now, limit), r),
        call_ensures(MatRecord::is_fresh, (&m, later, limit), s),
        call_ensures(MatRecord::is_fresh, (&m, now, longer), q),
        now <= later,
        limit <= longer,
    ensures
        now == m.stored_at_unix ==> r,
        now < m.stored_at_unix ==> !r,
        now >= m.stored_at_unix && !r ==> !s,
        r ==> q,
        r <==> m.stored_at_unix <= now <= m.stored_at_unix + limit,
{
}

/// What is shown of a record tells how long its ticket is and when it was stored.
pub proof fn law_shown_record_tells_length_and_time(m: MatRecord, t: String)
    requires
        call_ensures(MatRecord::redacted, (&m,), t),
    ensures
        crate::text::text_contains(t@, crate::text::decimal_text(m.ticket@.len())),
        crate::text::text_contains(t@, crate::text::decimal_text(m.stored_at_unix as nat)),
{
    let a = "MatRecord { ticket_len: "@;
    let b = crate::text::decimal_text(m.ticket@.len());
    let c = ", stored_at_unix: "@;
    let d = crate::text::decimal_text(m.stored_at_unix as nat);
    let e = " }"@;
    assert(t@ =~= a + b + (c + d + e));
    crate::text::law_contained_text_stands_inside(a, b, c + d + e);
    crate::text::law_contained_text_stands_inside(a + b + c, d, e);
}

} // verus!
