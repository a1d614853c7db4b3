//! The connection-data profile of one session: our private, length-prefixed
//! encoding of the trust anchors, the expected server name, the certificate
//! subject, the identity and the stored ticket.
//!
//! Parsing is bounds-checked: the input can be influenced through a stored
//! profile, so every field is read only as far as the profile really reaches.
use crate::bytes::{copy_range, get_le32, put_all, put_le32};
use crate::eaphost::error::ConfigError;
use crate::text::{decimal, joined, show_text, truth};
use vstd::prelude::*;
use vstd::string::StringExecFns;

verus! {

/// Format version of the profile.
pub const VERSION: u8 = 1;

/// The profile of one session.
///
/// There is no `Debug` form, only [`SessionConfigBlob::redacted`]: the profile
/// carries an authorization-bearing ticket, which must not end up in a log.
#[derive(Clone, PartialEq, Eq)]
pub struct SessionConfigBlob {
    /// Machine session (boot) or user session (logon).
    pub machine: bool,
    /// Expected EAP-server name (validated against the server certificate).
    pub server_name: String,
    /// SMI Private Enterprise Number for the ticket's Vendor-Specific TLV.
    pub mat_vendor_id: u32,
    /// Largest TLS-fragment payload per TEAP message.
    pub max_fragment: u32,
    /// Subject substring of the client certificate to select.
    pub selector_subject: String,
    /// Trust-anchor certificates (DER) for the server certificate.
    pub roots: Vec<Vec<u8>>,
    /// For a user session: the stored ticket to present in the tunnel.
    pub mat: Option<Vec<u8>>,
}

/// What a profile says, as mathematical values.
#[verifier::ext_equal]
pub struct Profile {
    /// Machine session or user session.
    pub machine: bool,
    /// Expected EAP-server name.
    pub server_name: Seq<char>,
    /// Enterprise number of the ticket's vendor.
    pub mat_vendor_id: u32,
    /// Largest fragment payload.
    pub max_fragment: u32,
    /// Subject substring.
    pub selector_subject: Seq<char>,
    /// Trust anchors, in order.
    pub roots: Seq<Seq<u8>>,
    /// The stored ticket, if any.
    pub mat: Option<Seq<u8>>,
}

impl View for SessionConfigBlob {
    type V = Profile;

    open spec fn view(&self) -> Profile {
        Profile {
            machine: self.machine,
            server_name: self.server_name@,
            mat_vendor_id: self.mat_vendor_id,
            max_fragment: self.max_fragment,
            selector_subject: self.selector_subject@,
            roots: crate::bytes::octets_of(self.roots@),
            mat: match self.mat {
                Some(m) => Some(m@),
                None => None,
            },
        }
    }
}

/// The octets every profile starts with: `USGT`.
pub open spec fn magic() -> Seq<u8> {
    seq![0x55u8, 0x53u8, 0x47u8, 0x54u8]
}

/// A count as it is written: the largest number the field holds stands for all larger ones.
pub open spec fn count_field(n: nat) -> u32 {
    if n <= u32::MAX {
        n as u32
    } else {
        u32::MAX
    }
}

/// A byte string behind its length.
pub open spec fn sized(b: Seq<u8>) -> Seq<u8> {
    crate::bytes::le32(count_field(b.len())) + b
}

/// Byte strings one behind the other, each behind its length.
pub open spec fn sized_all(items: Seq<Seq<u8>>) -> Seq<u8>
    decreases items.len(),
{
    if items.len() == 0 {
        Seq::empty()
    } else {
        sized(items[0]) + sized_all(items.drop_first())
    }
}

/// The ticket field: a presence octet, then the ticket behind its length.
pub open spec fn ticket_field(mat: Option<Seq<u8>>) -> Seq<u8> {
    match mat {
        Some(m) => seq![1u8] + sized(m),
        None => seq![0u8],
    }
}

/// The wire form of a profile.
pub open spec fn encoded(p: Profile) -> Seq<u8> {
    magic() + (seq![VERSION] + (seq![if p.machine { 1u8 } else { 0u8 }] + (crate::bytes::le32(
        p.mat_vendor_id,
    ) + (crate::bytes::le32(p.max_fragment) + (sized(vstd::utf8::encode_utf8(p.server_name)) + (sized(
        vstd::utf8::encode_utf8(p.selector_subject),
    ) + (crate::bytes::le32(count_field(p.roots.len())) + (sized_all(p.roots) + ticket_field(
        p.mat,
    )))))))))
}

/// Every length of `p` fits its field.
pub open spec fn fits(p: Profile) -> bool {
    &&& vstd::utf8::encode_utf8(p.server_name).len() <= u32::MAX
    &&& vstd::utf8::encode_utf8(p.selector_subject).len() <= u32::MAX
    &&& p.roots.len() <= u32::MAX
    &&& forall|i: int| 0 <= i < p.roots.len() ==> (#[trigger] p.roots[i]).len() <= u32::MAX
    &&& p.mat matches Some(m) ==> m.len() <= u32::MAX
}

/// The octet in front and what is behind it.
pub open spec fn read_octet(b: Seq<u8>) -> Result<(u8, Seq<u8>), ConfigError> {
    if b.len() == 0 {
        Err(ConfigError::Truncated)
    } else {
        Ok((b[0], b.skip(1)))
    }
}

/// The number in front and what is behind it.
pub open spec fn read_number(b: Seq<u8>) -> Result<(u32, Seq<u8>), ConfigError> {
    if b.len() < 4 {
        Err(ConfigError::Truncated)
    } else {
        Ok((crate::bytes::le32_value(b.take(4)), b.skip(4)))
    }
}

/// The sized byte string in front and what is behind it.
pub open spec fn read_sized(b: Seq<u8>) -> Result<(Seq<u8>, Seq<u8>), ConfigError> {
    match read_number(b) {
        Err(e) => Err(e),
        Ok((n, rest)) => if n > rest.len() {
            Err(ConfigError::Truncated)
        } else {
            Ok((rest.take(n as int), rest.skip(n as int)))
        },
    }
}

/// The sized text in front and what is behind it.
pub open spec fn read_text(b: Seq<u8>) -> Result<(Seq<char>, Seq<u8>), ConfigError> {
    match read_sized(b) {
        Err(e) => Err(e),
        Ok((raw, rest)) => if vstd::utf8::valid_utf8(raw) {
            Ok((vstd::utf8::decode_utf8(raw), rest))
        } else {
            Err(ConfigError::BadUtf8)
        },
    }
}

/// The `n` sized byte strings in front and what is behind them.
pub open spec fn read_all(n: nat, b: Seq<u8>) -> Result<(Seq<Seq<u8>>, Seq<u8>), ConfigError>
    decreases n,
{
    if n == 0 {
        Ok((Seq::empty(), b))
    } else {
        match read_sized(b) {
            Err(e) => Err(e),
            Ok((first, rest)) => match read_all((n - 1) as nat, rest) {
                Err(e) => Err(e),
                Ok((others, last)) => Ok((seq![first] + others, last)),
            },
        }
    }
}

/// The ticket field in front and what is behind it.
pub open spec fn read_ticket(b: Seq<u8>) -> Result<(Option<Seq<u8>>, Seq<u8>), ConfigError> {
    match read_octet(b) {
        Err(e) => Err(e),
        Ok((present, rest)) => if present == 0 {
            Ok((None, rest))
        } else {
            match read_sized(rest) {
                Err(e) => Err(e),
                Ok((m, last)) => Ok((Some(m), last)),
            }
        },
    }
}

/// The fields behind the magic, the version and the flags.
#[verifier::opaque]
pub open spec fn read_fields(machine: bool, b: Seq<u8>) -> Result<(Profile, Seq<u8>), ConfigError> {
    match read_number(b) {
        Err(e) => Err(e),
        Ok((mat_vendor_id, b1)) => match read_number(b1) {
            Err(e) => Err(e),
            Ok((max_fragment, b2)) => match read_text(b2) {
                Err(e) => Err(e),
                Ok((server_name, b3)) => match read_text(b3) {
                    Err(e) => Err(e),
                    Ok((selector_subject, b4)) => match read_number(b4) {
                        Err(e) => Err(e),
                        Ok((n, b5)) => match read_all(n as nat, b5) {
                            Err(e) => Err(e),
                            Ok((roots, b6)) => match read_ticket(b6) {
                                Err(e) => Err(e),
                                Ok((mat, rest)) => Ok(
                                    (
                                        Profile {
                                            machine,
                                            server_name,
                                            mat_vendor_id,
                                            max_fragment,
                                            selector_subject,
                                            roots,
                                            mat,
                                        },
                                        rest,
                                    ),
                                ),
                            },
                        },
                    },
                },
            },
        },
    }
}

/// The profile in front and what is behind it.
pub open spec fn read_profile(b: Seq<u8>) -> Result<(Profile, Seq<u8>), ConfigError> {
    if b.len() < 4 {
        Err(ConfigError::Truncated)
    } else if b.take(4) != magic() {
        Err(ConfigError::BadMagic)
    } else {
        match read_octet(b.skip(4)) {
            Err(e) => Err(e),
            Ok((version, b1)) => if version != VERSION {
                Err(ConfigError::BadVersion)
            } else {
                match read_octet(b1) {
                    Err(e) => Err(e),
                    // The lowest bit of the flags marks a machine session.
                    Ok((flags, b2)) => read_fields(flags % 2 == 1, b2),
                }
            },
        }
    }
}

/// What a byte string means as a profile: nothing may be left behind it.
pub open spec fn decoded(b: Seq<u8>) -> Result<Profile, ConfigError> {
    match read_profile(b) {
        Err(e) => Err(e),
        Ok((p, rest)) => if rest.len() == 0 {
            Ok(p)
        } else {
            Err(ConfigError::TrailingData)
        },
    }
}

/// Strict UTF-8 decoding, as `core::str::from_utf8` does it: the text if the
/// octets are valid UTF-8, nothing otherwise.
#[verifier::external_body]
fn utf8_text(raw: &[u8]) -> (text: Option<String>)
    ensures
        text is Some <==> vstd::utf8::valid_utf8(raw@),
        text matches Some(s) ==> s@ == vstd::utf8::decode_utf8(raw@),
{
    core::str::from_utf8(raw).map(str::to_owned).ok()
}

fn put_count(out: &mut Vec<u8>, n: usize)
    ensures
        final(out)@ == old(out)@ + crate::bytes::le32(count_field(n as nat)),
{
    let max: u64 = 0xffff_ffff;
    if n as u64 <= max {
        put_le32(out, n as u32);
    } else {
        put_le32(out, u32::MAX);
    }
}

fn put_sized(out: &mut Vec<u8>, b: &[u8])
    ensures
        final(out)@ == old(out)@ + sized(b@),
{
    put_count(out, b.len());
    put_all(out, b);
    assert(out@ =~= old(out)@ + sized(b@));
}

/// What may be shown of a profile: of the trust anchors how many there are, of the
/// ticket whether there is one.
pub open spec fn redacted_profile(p: Profile) -> Seq<char> {
    "SessionConfigBlob { machine: "@ + crate::text::truth_text(p.machine) + ", server_name: "@
        + crate::text::shown_text(p.server_name) + ", mat_vendor_id: "@ + crate::text::decimal_text(
        p.mat_vendor_id as nat,
    ) + ", max_fragment: "@ + crate::text::decimal_text(p.max_fragment as nat)
        + ", selector_subject: "@ + crate::text::shown_text(p.selector_subject) + ", roots: "@
        + crate::text::decimal_text(p.roots.len()) + ", has_mat: "@ + crate::text::truth_text(
        p.mat is Some,
    ) + " }"@
}

impl SessionConfigBlob {
    /// What may be shown of the profile.
    pub fn redacted(&self) -> (t: String)
        ensures
            t@ == redacted_profile(self@),
    {
        let mut t: String = joined(
            "SessionConfigBlob { machine: ",
            truth(self.machine),
            ", server_name: ",
        );
        t.append(show_text(self.server_name.as_str()).as_str());
        t.append(", mat_vendor_id: ");
        t.append(decimal(self.mat_vendor_id as u64).as_str());
        t.append(", max_fragment: ");
        t.append(decimal(self.max_fragment as u64).as_str());
        t.append(", selector_subject: ");
        t.append(show_text(self.selector_subject.as_str()).as_str());
        t.append(", roots: ");
        t.append(decimal(self.roots.len() as u64).as_str());
        t.append(", has_mat: ");
        t.append(truth(self.mat.is_some()));
        t.append(" }");
        t
    }

    /// Serialize to the wire form.
    pub fn to_bytes(&self) -> (out: Vec<u8>)
        ensures
            out@ == encoded(self@),
    {
        let ghost p = self@;
        let ghost t9 = ticket_field(p.mat);
        let ghost t8 = sized_all(p.roots) + t9;
        let ghost t7 = crate::bytes::le32(count_field(p.roots.len())) + t8;
        let ghost t6 = sized(vstd::utf8::encode_utf8(p.selector_subject)) + t7;
        let ghost t5 = sized(vstd::utf8::encode_utf8(p.server_name)) + t6;
        let ghost t4 = crate::bytes::le32(p.max_fragment) + t5;
        let ghost t3 = crate::bytes::le32(p.mat_vendor_id) + t4;
        let ghost t2 = seq![if p.machine { 1u8 } else { 0u8 }] + t3;
        let ghost t1 = seq![VERSION] + t2;
        let mut out: Vec<u8> = Vec::new();
        out.push(0x55);
        out.push(0x53);
        out.push(0x47);
        out.push(0x54);
        assert(out@ =~= magic());
        out.push(VERSION);
        proof {
            assert(out@ =~= magic() + seq![VERSION]);
            lemma_behind(magic(), seq![VERSION], t2);
        }
        let ghost o2 = out@;
        out.push(if self.machine { 1 } else { 0 });
        proof {
            let flags = seq![if p.machine { 1u8 } else { 0u8 }];
            assert(out@ =~= o2 + flags);
            lemma_behind(o2, flags, t3);
        }
        let ghost o3 = out@;
        put_le32(&mut out, self.mat_vendor_id);
        proof {
            lemma_behind(o3, crate::bytes::le32(p.mat_vendor_id), t4);
        }
        let ghost o4 = out@;
        put_le32(&mut out, self.max_fragment);
        proof {
            lemma_behind(o4, crate::bytes::le32(p.max_fragment), t5);
        }
        let ghost o5 = out@;
        put_sized(&mut out, self.server_name.as_str().as_bytes());
        proof {
            lemma_behind(o5, sized(vstd::utf8::encode_utf8(p.server_name)), t6);
        }
        let ghost o6 = out@;
        put_sized(&mut out, self.selector_subject.as_str().as_bytes());
        proof {
            lemma_behind(o6, sized(vstd::utf8::encode_utf8(p.selector_subject)), t7);
        }
        let ghost o7 = out@;
        put_count(&mut out, self.roots.len());
        proof {
            lemma_behind(o7, crate::bytes::le32(count_field(p.roots.len())), t8);
        }
        let ghost o8 = out@;
        self.put_roots(&mut out);
        proof {
            lemma_behind(o8, sized_all(p.roots), t9);
        }
        self.put_ticket(&mut out);
        out
    }

    /// Append the ticket field.
    fn put_ticket(&self, out: &mut Vec<u8>)
        ensures
            final(out)@ == old(out)@ + ticket_field(self@.mat),
    {
        match &self.mat {
            Some(mat) => {
                out.push(1);
                put_sized(out, mat.as_slice());
            },
            None => {
                out.push(0);
            },
        }
        assert(out@ =~= old(out)@ + ticket_field(self@.mat));
    }

    /// Append the trust anchors, each behind its length.
    fn put_roots(&self, out: &mut Vec<u8>)
        ensures
            final(out)@ == old(out)@ + sized_all(self@.roots),
    {
        let ghost roots = self@.roots;
        let mut i: usize = 0;
        assert(out@ =~= old(out)@ + sized_all(roots.take(0)));
        while i < self.roots.len()
            invariant
                i <= self.roots@.len(),
                roots == crate::bytes::octets_of(self.roots@),
                out@ == old(out)@ + sized_all(roots.take(i as int)),
            decreases self.roots@.len() - i,
        {
            put_sized(out, self.roots[i].as_slice());
            proof {
                lemma_sized_all_push(roots.take(i as int), roots[i as int]);
                assert(roots.take(i + 1) =~= roots.take(i as int).push(roots[i as int]));
            }
            i = i + 1;
            assert(out@ =~= old(out)@ + sized_all(roots.take(i as int)));
        }
        assert(roots.take(i as int) =~= roots);
    }

    /// Parse the wire form.
    pub fn from_bytes(bytes: &[u8]) -> (r: Result<Self, ConfigError>)
        ensures
            match r {
                Ok(blob) => decoded(bytes@) == Ok::<Profile, ConfigError>(blob@),
                Err(e) => decoded(bytes@) == Err::<Profile, ConfigError>(e),
            },
    {
        let mut r: Reader = Reader { b: bytes, pos: 0 };
        assert(r.rest() =~= bytes@);
        let lead: (usize, usize) = match r.take(4) {
            None => {
                return Err(ConfigError::Truncated);
            },
            Some(range) => range,
        };
        let is_magic: bool = bytes[lead.0] == 0x55 && bytes[lead.0 + 1] == 0x53 && bytes[lead.0 + 2]
            == 0x47 && bytes[lead.0 + 3] == 0x54;
        proof {
            if is_magic {
                assert(bytes@.take(4) =~= magic());
            } else {
                assert(bytes@.take(4) != magic()) by {
                    if bytes@.take(4) == magic() {
                        assert(bytes@.take(4)[0] == 0x55 && bytes@.take(4)[1] == 0x53);
                        assert(bytes@.take(4)[2] == 0x47 && bytes@.take(4)[3] == 0x54);
                    }
                }
            }
        }
        if !is_magic {
            return Err(ConfigError::BadMagic);
        }
        let version: u8 = match r.u8() {
            None => {
                return Err(ConfigError::Truncated);
            },
            Some(v) => v,
        };
        if version != VERSION {
            return Err(ConfigError::BadVersion);
        }
        let flags: u8 = match r.u8() {
            None => {
                return Err(ConfigError::Truncated);
            },
            Some(v) => v,
        };
        let machine: bool = flags % 2 == 1;
        let blob: SessionConfigBlob = match r.fields(machine) {
            Err(e) => {
                return Err(e);
            },
            Ok(v) => v,
        };
        // Nothing may be left over, so a malformed profile fails closed.
        if !r.is_empty() {
            return Err(ConfigError::TrailingData);
        }
        Ok(blob)
    }
}

/// A read of further items continued behind items that were read already.
pub open spec fn join_read(
    done: Seq<Seq<u8>>,
    more: Result<(Seq<Seq<u8>>, Seq<u8>), ConfigError>,
) -> Result<(Seq<Seq<u8>>, Seq<u8>), ConfigError> {
    match more {
        Err(e) => Err(e),
        Ok((items, rest)) => Ok((done + items, rest)),
    }
}

proof fn lemma_join_read(
    done: Seq<Seq<u8>>,
    first: Seq<u8>,
    more: Result<(Seq<Seq<u8>>, Seq<u8>), ConfigError>,
)
    ensures
        join_read(done, join_read(seq![first], more)) == join_read(done.push(first), more),
{
    if let Ok((items, rest)) = more {
        assert(done + (seq![first] + items) =~= done.push(first) + items);
    }
}

proof fn lemma_sized_all_push(items: Seq<Seq<u8>>, last: Seq<u8>)
    ensures
        sized_all(items.push(last)) == sized_all(items) + sized(last),
    decreases items.len(),
{
    let all = items.push(last);
    if items.len() == 0 {
        assert(all.drop_first() =~= Seq::<Seq<u8>>::empty());
        assert(sized_all(all.drop_first()) =~= Seq::<u8>::empty());
        assert(sized_all(all) =~= sized_all(items) + sized(last));
    } else {
        lemma_sized_all_push(items.drop_first(), last);
        assert(all.drop_first() =~= items.drop_first().push(last));
        assert(sized_all(all) =~= sized_all(items) + sized(last));
    }
}

/// A bounds-checked cursor over the profile.
struct Reader<'a> {
    b: &'a [u8],
    pos: usize,
}

impl<'a> Reader<'a> {
    spec fn wf(self) -> bool {
        self.pos <= self.b@.len()
    }

    spec fn rest(self) -> Seq<u8> {
        self.b@.skip(self.pos as int)
    }

    fn is_empty(&self) -> (r: bool)
        requires
            self.wf(),
        ensures
            r == (self.rest().len() == 0),
    {
        self.pos >= self.b.len()
    }

    /// Step over the next `n` octets and say where they stand.
    fn take(&mut self, n: usize) -> (r: Option<(usize, usize)>)
        requires
            old(self).wf(),
        ensures
            final(self).wf(),
            final(self).b == old(self).b,
            r is None <==> old(self).rest().len() < n,
            r is None ==> *final(self) == *old(self),
            r matches Some((from, to)) ==> {
                &&& from == old(self).pos
                &&& to == from + n
                &&& to <= old(self).b@.len()
                &&& final(self).rest() == old(self).rest().skip(n as int)
                &&& old(self).b@.subrange(from as int, to as int) == old(self).rest().take(n as int)
            },
    {
        let left: usize = self.b.len() - self.pos;
        if n > left {
            None
        } else {
            let from: usize = self.pos;
            let to: usize = from + n;
            self.pos = to;
            assert(self.rest() =~= old(self).rest().skip(n as int));
            assert(self.b@.subrange(from as int, to as int) =~= old(self).rest().take(n as int));
            Some((from, to))
        }
    }

    fn u8(&mut self) -> (r: Option<u8>)
        requires
            old(self).wf(),
        ensures
            final(self).wf(),
            final(self).b == old(self).b,
            match r {
                Some(v) => read_octet(old(self).rest()) == Ok::<(u8, Seq<u8>), ConfigError>(
                    (v, final(self).rest()),
                ),
                None => read_octet(old(self).rest()) == Err::<(u8, Seq<u8>), ConfigError>(
                    ConfigError::Truncated,
                ),
            },
    {
        match self.take(1) {
            None => None,
            Some((from, _)) => {
                let v: u8 = self.b[from];
                assert(v == old(self).rest().take(1)[0]);
                Some(v)
            },
        }
    }

    fn u32(&mut self) -> (r: Option<u32>)
        requires
            old(self).wf(),
        ensures
            final(self).wf(),
            final(self).b == old(self).b,
            match r {
                Some(v) => read_number(old(self).rest()) == Ok::<(u32, Seq<u8>), ConfigError>(
                    (v, final(self).rest()),
                ),
                None => read_number(old(self).rest()) == Err::<(u32, Seq<u8>), ConfigError>(
                    ConfigError::Truncated,
                ),
            },
    {
        match self.take(4) {
            None => None,
            Some((from, _)) => Some(get_le32(self.b, from)),
        }
    }

    /// Step over a sized byte string and say where its octets stand.
    fn bytes(&mut self) -> (r: Result<(usize, usize), ConfigError>)
        requires
            old(self).wf(),
        ensures
            final(self).wf(),
            final(self).b == old(self).b,
            match r {
                Ok((from, to)) => {
                    &&& from <= to <= old(self).b@.len()
                    &&& read_sized(old(self).rest()) == Ok::<(Seq<u8>, Seq<u8>), ConfigError>(
                        (old(self).b@.subrange(from as int, to as int), final(self).rest()),
                    )
                },
                Err(e) => read_sized(old(self).rest()) == Err::<(Seq<u8>, Seq<u8>), ConfigError>(e),
            },
    {
        match self.u32() {
            None => Err(ConfigError::Truncated),
            Some(n) => match self.take(n as usize) {
                None => Err(ConfigError::Truncated),
                Some(range) => Ok(range),
            },
        }
    }

    /// Read a sized UTF-8 text.
    fn string(&mut self) -> (r: Result<String, ConfigError>)
        requires
            old(self).wf(),
        ensures
            final(self).wf(),
            final(self).b == old(self).b,
            match r {
                Ok(s) => read_text(old(self).rest()) == Ok::<(Seq<char>, Seq<u8>), ConfigError>(
                    (s@, final(self).rest()),
                ),
                Err(e) => read_text(old(self).rest()) == Err::<(Seq<char>, Seq<u8>), ConfigError>(e),
            },
    {
        match self.bytes() {
            Err(e) => Err(e),
            Ok((from, to)) => {
                let raw: Vec<u8> = copy_range(self.b, from, to);
                match utf8_text(raw.as_slice()) {
                    None => Err(ConfigError::BadUtf8),
                    Some(s) => Ok(s),
                }
            },
        }
    }

    /// Read `n` sized byte strings. The count is not trusted for an allocation:
    /// the vector grows as each string is really read, so a bogus count fails at
    /// the first short read.
    fn all_bytes(&mut self, n: u32) -> (r: Result<Vec<Vec<u8>>, ConfigError>)
        requires
            old(self).wf(),
        ensures
            final(self).wf(),
            final(self).b == old(self).b,
            match r {
                Ok(v) => read_all(n as nat, old(self).rest()) == Ok::<
                    (Seq<Seq<u8>>, Seq<u8>),
                    ConfigError,
                >((crate::bytes::octets_of(v@), final(self).rest())),
                Err(e) => read_all(n as nat, old(self).rest()) == Err::<
                    (Seq<Seq<u8>>, Seq<u8>),
                    ConfigError,
                >(e),
            },
    {
        let mut items: Vec<Vec<u8>> = Vec::new();
        let ghost all = self.rest();
        let mut left: u32 = n;
        proof {
            let more = read_all(n as nat, all);
            assert(Seq::<Seq<u8>>::empty() =~= crate::bytes::octets_of(items@));
            assert(more matches Ok((found, _)) ==> crate::bytes::octets_of(items@) + found =~= found);
        }
        while left > 0
            invariant
                self.wf(),
                self.b == old(self).b,
                all == old(self).rest(),
                left <= n,
                read_all(n as nat, all) == join_read(
                    crate::bytes::octets_of(items@),
                    read_all(left as nat, self.rest()),
                ),
            decreases left,
        {
            let ghost done = crate::bytes::octets_of(items@);
            match self.bytes() {
                Err(e) => {
                    return Err(e);
                },
                Ok((from, to)) => {
                    let item: Vec<u8> = copy_range(self.b, from, to);
                    items.push(item);
                    proof {
                        assert(crate::bytes::octets_of(items@) =~= done.push(item@));
                        lemma_join_read(done, item@, read_all((left - 1) as nat, self.rest()));
                    }
                },
            }
            left = left - 1;
        }
        assert(crate::bytes::octets_of(items@) + Seq::<Seq<u8>>::empty() =~= crate::bytes::octets_of(items@));
        Ok(items)
    }

    /// Read the ticket field.
    fn ticket(&mut self) -> (r: Result<Option<Vec<u8>>, ConfigError>)
        requires
            old(self).wf(),
        ensures
            final(self).wf(),
            final(self).b == old(self).b,
            match r {
                Ok(m) => read_ticket(old(self).rest()) == Ok::<
                    (Option<Seq<u8>>, Seq<u8>),
                    ConfigError,
                >(
                    (
                        match m {
                            Some(v) => Some(v@),
                            None => None,
                        },
                        final(self).rest(),
                    ),
                ),
                Err(e) => read_ticket(old(self).rest()) == Err::<
                    (Option<Seq<u8>>, Seq<u8>),
                    ConfigError,
                >(e),
            },
    {
        match self.u8() {
            None => Err(ConfigError::Truncated),
            Some(present) => if present == 0 {
                Ok(None)
            } else {
                match self.bytes() {
                    Err(e) => Err(e),
                    Ok((from, to)) => Ok(Some(copy_range(self.b, from, to))),
                }
            },
        }
    }

    /// Read the fields behind the magic, the version and the flags.
    fn fields(&mut self, machine: bool) -> (r: Result<SessionConfigBlob, ConfigError>)
        requires
            old(self).wf(),
        ensures
            final(self).wf(),
            final(self).b == old(self).b,
            match r {
                Ok(blob) => read_fields(machine, old(self).rest()) == Ok::<
                    (Profile, Seq<u8>),
                    ConfigError,
                >((blob@, final(self).rest())),
                Err(e) => read_fields(machine, old(self).rest()) == Err::<
                    (Profile, Seq<u8>),
                    ConfigError,
                >(e),
            },
    {
        proof {
            reveal(read_fields);
        }
        let mat_vendor_id: u32 = match self.u32() {
            None => {
                return Err(ConfigError::Truncated);
            },
            Some(v) => v,
        };
        let max_fragment: u32 = match self.u32() {
            None => {
                return Err(ConfigError::Truncated);
            },
            Some(v) => v,
        };
        let server_name: String = match self.string() {
            Err(e) => {
                return Err(e);
            },
            Ok(s) => s,
        };
        let selector_subject: String = match self.string() {
            Err(e) => {
                return Err(e);
            },
            Ok(s) => s,
        };
        let num_roots: u32 = match self.u32() {
            None => {
                return Err(ConfigError::Truncated);
            },
            Some(v) => v,
        };
        let roots: Vec<Vec<u8>> = match self.all_bytes(num_roots) {
            Err(e) => {
                return Err(e);
            },
            Ok(v) => v,
        };
        let mat: Option<Vec<u8>> = match self.ticket() {
            Err(e) => {
                return Err(e);
            },
            Ok(m) => m,
        };
        let blob: SessionConfigBlob = SessionConfigBlob {
            machine,
            server_name,
            mat_vendor_id,
            max_fragment,
            selector_subject,
            roots,
            mat,
        };
        Ok(blob)
    }
}

proof fn lemma_front(a: Seq<u8>, rest: Seq<u8>)
    ensures
        (a + rest).take(a.len() as int) == a,
        (a + rest).skip(a.len() as int) == rest,
{
    assert((a + rest).take(a.len() as int) =~= a);
    assert((a + rest).skip(a.len() as int) =~= rest);
}

proof fn lemma_read_number_written(n: u32, rest: Seq<u8>)
    ensures
        read_number(crate::bytes::le32(n) + rest) == Ok::<(u32, Seq<u8>), ConfigError>((n, rest)),
{
    crate::bytes::lemma_le32_round_trip(n);
    lemma_front(crate::bytes::le32(n), rest);
}

proof fn lemma_read_octet_written(v: u8, rest: Seq<u8>)
    ensures
        read_octet(seq![v] + rest) == Ok::<(u8, Seq<u8>), ConfigError>((v, rest)),
{
    lemma_front(seq![v], rest);
}

proof fn lemma_read_sized_written(b: Seq<u8>, rest: Seq<u8>)
    requires
        b.len() <= u32::MAX,
    ensures
        read_sized(sized(b) + rest) == Ok::<(Seq<u8>, Seq<u8>), ConfigError>((b, rest)),
{
    let n = count_field(b.len());
    assert(sized(b) + rest =~= crate::bytes::le32(n) + (b + rest));
    lemma_read_number_written(n, b + rest);
    lemma_front(b, rest);
}

proof fn lemma_read_text_written(t: Seq<char>, rest: Seq<u8>)
    requires
        vstd::utf8::encode_utf8(t).len() <= u32::MAX,
    ensures
        read_text(sized(vstd::utf8::encode_utf8(t)) + rest) == Ok::<
            (Seq<char>, Seq<u8>),
            ConfigError,
        >((t, rest)),
{
    lemma_read_sized_written(vstd::utf8::encode_utf8(t), rest);
    vstd::utf8::encode_utf8_valid_utf8(t);
    vstd::utf8::encode_utf8_decode_utf8(t);
}

/// One step of reading several byte strings.
proof fn lemma_read_all_step(n: nat, first: Seq<u8>, others: Seq<Seq<u8>>, tail: Seq<u8>, rest: Seq<u8>)
    requires
        n > 0,
        first.len() <= u32::MAX,
        read_all((n - 1) as nat, tail) == Ok::<(Seq<Seq<u8>>, Seq<u8>), ConfigError>((others, rest)),
    ensures
        read_all(n, sized(first) + tail) == Ok::<(Seq<Seq<u8>>, Seq<u8>), ConfigError>(
            (seq![first] + others, rest),
        ),
{
    lemma_read_sized_written(first, tail);
}

#[verifier::spinoff_prover]
proof fn lemma_read_all_written(items: Seq<Seq<u8>>, rest: Seq<u8>)
    requires
        forall|i: int| 0 <= i < items.len() ==> (#[trigger] items[i]).len() <= u32::MAX,
    ensures
        read_all(items.len(), sized_all(items) + rest) == Ok::<
            (Seq<Seq<u8>>, Seq<u8>),
            ConfigError,
        >((items, rest)),
    decreases items.len(),
{
    if items.len() == 0 {
        assert(sized_all(items) + rest =~= rest);
        assert(items =~= Seq::empty());
    } else {
        let first = items[0];
        let others = items.drop_first();
        let tail = sized_all(others) + rest;
        assert forall|i: int| 0 <= i < others.len() implies (#[trigger] others[i]).len()
            <= u32::MAX by {
            assert(others[i] == items[i + 1]);
        }
        lemma_read_all_written(others, rest);
        lemma_read_all_step(items.len(), first, others, tail, rest);
        lemma_behind(sized(first), sized_all(others), rest);
        assert(seq![first] + others =~= items);
    }
}

proof fn lemma_read_ticket_written(mat: Option<Seq<u8>>, rest: Seq<u8>)
    requires
        mat matches Some(m) ==> m.len() <= u32::MAX,
    ensures
        read_ticket(ticket_field(mat) + rest) == Ok::<(Option<Seq<u8>>, Seq<u8>), ConfigError>(
            (mat, rest),
        ),
{
    match mat {
        Some(m) => {
            assert(ticket_field(mat) + rest =~= seq![1u8] + (sized(m) + rest));
            lemma_read_octet_written(1, sized(m) + rest);
            lemma_read_sized_written(m, rest);
        },
        None => {
            lemma_read_octet_written(0, rest);
        },
    }
}

/// The fields of a written profile read back, in front of `rest`.
proof fn lemma_read_fields_written(p: Profile, rest: Seq<u8>)
    requires
        fits(p),
    ensures
        read_fields(
            p.machine,
            crate::bytes::le32(p.mat_vendor_id) + (crate::bytes::le32(p.max_fragment) + (sized(
                vstd::utf8::encode_utf8(p.server_name),
            ) + (sized(vstd::utf8::encode_utf8(p.selector_subject)) + (crate::bytes::le32(
                count_field(p.roots.len()),
            ) + (sized_all(p.roots) + (ticket_field(p.mat) + rest)))))),
        ) == Ok::<(Profile, Seq<u8>), ConfigError>((p, rest)),
{
    reveal(read_fields);
    let t9 = ticket_field(p.mat) + rest;
    let t8 = sized_all(p.roots) + t9;
    let t7 = crate::bytes::le32(count_field(p.roots.len())) + t8;
    let t6 = sized(vstd::utf8::encode_utf8(p.selector_subject)) + t7;
    let t5 = sized(vstd::utf8::encode_utf8(p.server_name)) + t6;
    let t4 = crate::bytes::le32(p.max_fragment) + t5;
    lemma_read_number_written(p.mat_vendor_id, t4);
    lemma_read_number_written(p.max_fragment, t5);
    lemma_read_text_written(p.server_name, t6);
    lemma_read_text_written(p.selector_subject, t7);
    lemma_read_number_written(count_field(p.roots.len()), t8);
    lemma_read_all_written(p.roots, t9);
    lemma_read_ticket_written(p.mat, rest);
}

/// Reading a written profile gives the profile back and leaves what was behind it.
proof fn lemma_read_profile_written(p: Profile, rest: Seq<u8>)
    requires
        fits(p),
    ensures
        read_profile(encoded(p) + rest) == Ok::<(Profile, Seq<u8>), ConfigError>((p, rest)),
{
    let t9 = ticket_field(p.mat) + rest;
    let t8 = sized_all(p.roots) + t9;
    let t7 = crate::bytes::le32(count_field(p.roots.len())) + t8;
    let t6 = sized(vstd::utf8::encode_utf8(p.selector_subject)) + t7;
    let t5 = sized(vstd::utf8::encode_utf8(p.server_name)) + t6;
    let t4 = crate::bytes::le32(p.max_fragment) + t5;
    let t3 = crate::bytes::le32(p.mat_vendor_id) + t4;
    let flags = if p.machine { 1u8 } else { 0u8 };
    let t2 = seq![flags] + t3;
    let t1 = seq![VERSION] + t2;
    lemma_encoded_with_rest(p, rest);
    lemma_front(magic(), t1);
    lemma_read_octet_written(VERSION, t2);
    lemma_read_octet_written(flags, t3);
    lemma_read_fields_written(p, rest);
}

/// What stands behind a written profile stands behind its last field.
proof fn lemma_encoded_with_rest(p: Profile, rest: Seq<u8>)
    ensures
        encoded(p) + rest == magic() + (seq![VERSION] + (seq![if p.machine { 1u8 } else { 0u8 }] + (
        crate::bytes::le32(p.mat_vendor_id) + (crate::bytes::le32(p.max_fragment) + (sized(
            vstd::utf8::encode_utf8(p.server_name),
        ) + (sized(vstd::utf8::encode_utf8(p.selector_subject)) + (crate::bytes::le32(
            count_field(p.roots.len()),
        ) + (sized_all(p.roots) + (ticket_field(p.mat) + rest))))))))),
{
    let t9 = ticket_field(p.mat);
    let t8 = sized_all(p.roots) + t9;
    let t7 = crate::bytes::le32(count_field(p.roots.len())) + t8;
    let t6 = sized(vstd::utf8::encode_utf8(p.selector_subject)) + t7;
    let t5 = sized(vstd::utf8::encode_utf8(p.server_name)) + t6;
    let t4 = crate::bytes::le32(p.max_fragment) + t5;
    let t3 = crate::bytes::le32(p.mat_vendor_id) + t4;
    let t2 = seq![if p.machine { 1u8 } else { 0u8 }] + t3;
    let t1 = seq![VERSION] + t2;
    lemma_behind(magic(), t1, rest);
    lemma_behind(seq![VERSION], t2, rest);
    lemma_behind(seq![if p.machine { 1u8 } else { 0u8 }], t3, rest);
    lemma_behind(crate::bytes::le32(p.mat_vendor_id), t4, rest);
    lemma_behind(crate::bytes::le32(p.max_fragment), t5, rest);
    lemma_behind(sized(vstd::utf8::encode_utf8(p.server_name)), t6, rest);
    lemma_behind(sized(vstd::utf8::encode_utf8(p.selector_subject)), t7, rest);
    lemma_behind(crate::bytes::le32(count_field(p.roots.len())), t8, rest);
    lemma_behind(sized_all(p.roots), t9, rest);
}

proof fn lemma_behind(a: Seq<u8>, b: Seq<u8>, rest: Seq<u8>)
    ensures
        (a + b) + rest == a + (b + rest),
{
    assert((a + b) + rest =~= a + (b + rest));
}

/// A profile survives its wire form: parsing what was written gives it back,
/// whenever each of its lengths fits the field that holds it.
pub proof fn law_profile_round_trips(p: Profile)
    requires
        fits(p),
    ensures
        decoded(encoded(p)) == Ok::<Profile, ConfigError>(p),
{
    lemma_read_profile_written(p, Seq::empty());
    assert(encoded(p) + Seq::<u8>::empty() =~= encoded(p));
}

/// More octets behind `b` change neither what was read from `b` nor a refusal
/// that was not for want of octets.
spec fn stable<T>(
    short: Result<(T, Seq<u8>), ConfigError>,
    long: Result<(T, Seq<u8>), ConfigError>,
    more: Seq<u8>,
) -> bool {
    match short {
        Ok((v, rest)) => long == Ok::<(T, Seq<u8>), ConfigError>((v, rest + more)),
        Err(e) => e != ConfigError::Truncated ==> long == Err::<(T, Seq<u8>), ConfigError>(e),
    }
}

proof fn lemma_extend(b: Seq<u8>, more: Seq<u8>, n: int)
    requires
        0 <= n <= b.len(),
    ensures
        (b + more).take(n) == b.take(n),
        (b + more).skip(n) == b.skip(n) + more,
{
    assert((b + more).take(n) =~= b.take(n));
    assert((b + more).skip(n) =~= b.skip(n) + more);
}

proof fn lemma_octet_stable(b: Seq<u8>, more: Seq<u8>)
    ensures
        stable(read_octet(b), read_octet(b + more), more),
{
    if b.len() > 0 {
        lemma_extend(b, more, 1);
    }
}

proof fn lemma_number_stable(b: Seq<u8>, more: Seq<u8>)
    ensures
        stable(read_number(b), read_number(b + more), more),
{
    if b.len() >= 4 {
        lemma_extend(b, more, 4);
    }
}

proof fn lemma_sized_stable(b: Seq<u8>, more: Seq<u8>)
    ensures
        stable(read_sized(b), read_sized(b + more), more),
{
    lemma_number_stable(b, more);
    if let Ok((n, rest)) = read_number(b) {
        if n <= rest.len() {
            lemma_extend(rest, more, n as int);
        }
    }
}

proof fn lemma_text_stable(b: Seq<u8>, more: Seq<u8>)
    ensures
        stable(read_text(b), read_text(b + more), more),
{
    lemma_sized_stable(b, more);
}

proof fn lemma_all_stable(n: nat, b: Seq<u8>, more: Seq<u8>)
    ensures
        stable(read_all(n, b), read_all(n, b + more), more),
    decreases n,
{
    if n > 0 {
        lemma_sized_stable(b, more);
        if let Ok((_, rest)) = read_sized(b) {
            lemma_all_stable((n - 1) as nat, rest, more);
        }
    }
}

proof fn lemma_ticket_stable(b: Seq<u8>, more: Seq<u8>)
    ensures
        stable(read_ticket(b), read_ticket(b + more), more),
{
    lemma_octet_stable(b, more);
    if let Ok((_, rest)) = read_octet(b) {
        lemma_sized_stable(rest, more);
    }
}

proof fn lemma_fields_stable(machine: bool, b: Seq<u8>, more: Seq<u8>)
    ensures
        stable(read_fields(machine, b), read_fields(machine, b + more), more),
{
    reveal(read_fields);
    lemma_number_stable(b, more);
    if let Ok((_, b1)) = read_number(b) {
        lemma_number_stable(b1, more);
        if let Ok((_, b2)) = read_number(b1) {
            lemma_text_stable(b2, more);
            if let Ok((_, b3)) = read_text(b2) {
                lemma_text_stable(b3, more);
                if let Ok((_, b4)) = read_text(b3) {
                    lemma_number_stable(b4, more);
                    if let Ok((n, b5)) = read_number(b4) {
                        lemma_all_stable(n as nat, b5, more);
                        if let Ok((_, b6)) = read_all(n as nat, b5) {
                            lemma_ticket_stable(b6, more);
                        }
                    }
                }
            }
        }
    }
}

proof fn lemma_profile_stable(b: Seq<u8>, more: Seq<u8>)
    ensures
        stable(read_profile(b), read_profile(b + more), more),
{
    if b.len() >= 4 {
        lemma_extend(b, more, 4);
        let b0 = b.skip(4);
        lemma_octet_stable(b0, more);
        if let Ok((_, b1)) = read_octet(b0) {
            lemma_octet_stable(b1, more);
            if let Ok((flags, b2)) = read_octet(b1) {
                lemma_fields_stable(flags % 2 == 1, b2, more);
            }
        }
    }
}

/// Octets behind an accepted profile are refused as such.
pub proof fn law_trailing_data_is_refused(b: Seq<u8>, more: Seq<u8>)
    requires
        decoded(b) is Ok,
        more.len() > 0,
    ensures
        decoded(b + more) == Err::<Profile, ConfigError>(ConfigError::TrailingData),
{
    lemma_profile_stable(b, more);
}

/// Every shorter beginning of an accepted profile is refused as truncated.
pub proof fn law_truncation_is_refused(b: Seq<u8>, n: int)
    requires
        decoded(b) is Ok,
        0 <= n < b.len(),
    ensures
        decoded(b.take(n)) == Err::<Profile, ConfigError>(ConfigError::Truncated),
{
    let short = b.take(n);
    let more = b.skip(n);
    assert(short + more =~= b);
    lemma_profile_stable(short, more);
    if let Ok((_, rest)) = read_profile(short) {
        assert((rest + more).len() > 0);
    }
}

/// The ticket field with a presence octet of its own.
pub open spec fn tagged_ticket(tag: u8, mat: Option<Seq<u8>>) -> Seq<u8> {
    match mat {
        Some(m) => seq![tag] + sized(m),
        None => seq![tag],
    }
}

/// The fields behind the flags, with a presence octet of their own.
pub open spec fn spelled_fields(p: Profile, tag: u8) -> Seq<u8> {
    crate::bytes::le32(p.mat_vendor_id) + (crate::bytes::le32(p.max_fragment) + (sized(
        vstd::utf8::encode_utf8(p.server_name),
    ) + (sized(vstd::utf8::encode_utf8(p.selector_subject)) + (crate::bytes::le32(
        count_field(p.roots.len()),
    ) + (sized_all(p.roots) + tagged_ticket(tag, p.mat))))))
}

/// The wire form of a profile, with flags and a presence octet of its own.
pub open spec fn spelled(p: Profile, flags: u8, tag: u8) -> Seq<u8> {
    magic() + (seq![VERSION] + (seq![flags] + spelled_fields(p, tag)))
}

proof fn lemma_split(b: Seq<u8>, n: int)
    requires
        0 <= n <= b.len(),
    ensures
        b == b.take(n) + b.skip(n),
{
    assert(b =~= b.take(n) + b.skip(n));
}

proof fn lemma_octet_read(b: Seq<u8>)
    requires
        read_octet(b) is Ok,
    ensures
        b == seq![read_octet(b)->Ok_0.0] + read_octet(b)->Ok_0.1,
{
    assert(b =~= seq![b[0]] + b.skip(1));
}

proof fn lemma_number_read(b: Seq<u8>)
    requires
        read_number(b) is Ok,
    ensures
        b == crate::bytes::le32(read_number(b)->Ok_0.0) + read_number(b)->Ok_0.1,
{
    crate::bytes::lemma_le32_canonical(b.take(4));
    lemma_split(b, 4);
}

proof fn lemma_sized_read(b: Seq<u8>)
    requires
        read_sized(b) is Ok,
    ensures
        read_sized(b)->Ok_0.0.len() <= u32::MAX,
        b == sized(read_sized(b)->Ok_0.0) + read_sized(b)->Ok_0.1,
{
    lemma_number_read(b);
    let (n, rest) = read_number(b)->Ok_0;
    lemma_split(rest, n as int);
    lemma_behind(crate::bytes::le32(n), rest.take(n as int), rest.skip(n as int));
}

proof fn lemma_text_read(b: Seq<u8>)
    requires
        read_text(b) is Ok,
    ensures
        vstd::utf8::encode_utf8(read_text(b)->Ok_0.0).len() <= u32::MAX,
        b == sized(vstd::utf8::encode_utf8(read_text(b)->Ok_0.0)) + read_text(b)->Ok_0.1,
{
    lemma_sized_read(b);
    vstd::utf8::decode_utf8_encode_utf8(read_sized(b)->Ok_0.0);
}

proof fn lemma_all_read(n: nat, b: Seq<u8>)
    requires
        read_all(n, b) is Ok,
    ensures
        read_all(n, b)->Ok_0.0.len() == n,
        forall|i: int|
            0 <= i < n ==> (#[trigger] read_all(n, b)->Ok_0.0[i]).len() <= u32::MAX,
        b == sized_all(read_all(n, b)->Ok_0.0) + read_all(n, b)->Ok_0.1,
    decreases n,
{
    if n == 0 {
        assert(b =~= Seq::<u8>::empty() + b);
    } else {
        lemma_sized_read(b);
        let (first, rest) = read_sized(b)->Ok_0;
        lemma_all_read((n - 1) as nat, rest);
        let (others, last) = read_all((n - 1) as nat, rest)->Ok_0;
        let items = seq![first] + others;
        assert(items.drop_first() =~= others);
        lemma_behind(sized(first), sized_all(others), last);
    }
}

proof fn lemma_ticket_read(b: Seq<u8>)
    requires
        read_ticket(b) is Ok,
    ensures
        read_ticket(b)->Ok_0.0 matches Some(m) ==> m.len() <= u32::MAX,
        b.len() > 0,
        (b[0] != 0) == (read_ticket(b)->Ok_0.0 is Some),
        b == tagged_ticket(b[0], read_ticket(b)->Ok_0.0) + read_ticket(b)->Ok_0.1,
{
    lemma_octet_read(b);
    let (tag, rest) = read_octet(b)->Ok_0;
    if tag != 0 {
        lemma_sized_read(rest);
        let (m, last) = read_sized(rest)->Ok_0;
        lemma_behind(seq![tag], sized(m), last);
    }
}

/// The presence octet that stood in front of the ticket that was read.
proof fn lemma_fields_read(machine: bool, b: Seq<u8>) -> (tag: u8)
    requires
        read_fields(machine, b) is Ok,
        read_fields(machine, b)->Ok_0.1.len() == 0,
    ensures
        fits(read_fields(machine, b)->Ok_0.0),
        read_fields(machine, b)->Ok_0.0.machine == machine,
        (tag != 0) == (read_fields(machine, b)->Ok_0.0.mat is Some),
        b == spelled_fields(read_fields(machine, b)->Ok_0.0, tag),
{
    reveal(read_fields);
    lemma_number_read(b);
    let (mat_vendor_id, b1) = read_number(b)->Ok_0;
    lemma_number_read(b1);
    let (max_fragment, b2) = read_number(b1)->Ok_0;
    lemma_text_read(b2);
    let (server_name, b3) = read_text(b2)->Ok_0;
    lemma_text_read(b3);
    let (selector_subject, b4) = read_text(b3)->Ok_0;
    lemma_number_read(b4);
    let (n, b5) = read_number(b4)->Ok_0;
    lemma_all_read(n as nat, b5);
    let (roots, b6) = read_all(n as nat, b5)->Ok_0;
    lemma_ticket_read(b6);
    let (mat, rest) = read_ticket(b6)->Ok_0;
    assert(b6 =~= tagged_ticket(b6[0], mat));
    assert(count_field(roots.len()) == n);
    b6[0]
}

/// An accepted profile is the wire form of what it means: nothing in it is left
/// unread. Only two octets have more than one form: all flags but the lowest are
/// unused, and any presence octet but zero announces a ticket.
pub proof fn law_accepted_profile_is_its_wire_form(b: Seq<u8>) -> (octets: (u8, u8))
    requires
        decoded(b) is Ok,
    ensures
        fits(decoded(b)->Ok_0),
        (octets.0 % 2 == 1) == decoded(b)->Ok_0.machine,
        (octets.1 != 0) == (decoded(b)->Ok_0.mat is Some),
        b == spelled(decoded(b)->Ok_0, octets.0, octets.1),
        octets.0 <= 1 && octets.1 <= 1 ==> b == encoded(decoded(b)->Ok_0),
{
    lemma_split(b, 4);
    let b0 = b.skip(4);
    lemma_octet_read(b0);
    let (version, b1) = read_octet(b0)->Ok_0;
    lemma_octet_read(b1);
    let (flags, b2) = read_octet(b1)->Ok_0;
    let tag = lemma_fields_read(flags % 2 == 1, b2);
    (flags, tag)
}

/// What is shown of a profile does not give away its ticket: any two tickets look
/// the same.
pub proof fn law_shown_profile_hides_the_ticket(p: Profile, one: Seq<u8>, other: Seq<u8>)
    ensures
        redacted_profile(Profile { mat: Some(one), ..p }) == redacted_profile(
            Profile { mat: Some(other), ..p },
        ),
{
}

/// A profile is written and read back field by field, whenever each of its lengths fits
/// the field that holds it.
pub proof fn law_written_profile_reads_back(
    c: SessionConfigBlob,
    out: Vec<u8>,
    bytes: &[u8],
    r: Result<SessionConfigBlob, ConfigError>,
)
    requires
        fits(c@),
        call_ensures(SessionConfigBlob::to_bytes, (&c,), out),
        bytes@ == out@,
        call_ensures(SessionConfigBlob::from_bytes, (bytes,), r),
    ensures
        r matches Ok(d) && {
            &&& d.machine == c.machine
            &&& d.server_name@ == c.server_name@
            &&& d.mat_vendor_id == c.mat_vendor_id
            &&& d.max_fragment == c.max_fragment
            &&& d.selector_subject@ == c.selector_subject@
            &&& d.roots@.len() == c.roots@.len()
            &&& forall|i: int| 0 <= i < c.roots@.len() ==> (#[trigger] d.roots@[i])@ == c.roots@[i]@
            &&& d.mat is Some <==> c.mat is Some
            &&& c.mat matches Some(t) ==> d.mat->0@ == t@
        },
{
    law_profile_round_trips(c@);
    if let Ok(d) = r {
        assert(d@ == c@);
        assert forall|i: int| 0 <= i < c.roots@.len() implies (#[trigger] d.roots@[i])@
            == c.roots@[i]@ by {
            assert(d@.roots[i] == c@.roots[i]);
        }
    }
}

/// The layout of a profile: `USGT`, version 1, the flags, the vendor and the fragment
/// budget, each the lowest octet first; then the server name behind its length.
pub proof fn law_profile_layout(c: SessionConfigBlob, out: Vec<u8>)
    requires
        fits(c@),
        call_ensures(SessionConfigBlob::to_bytes, (&c,), out),
    ensures
        out@.len() >= 18,
        out@[0] as char == 'U',
        out@[1] as char == 'S',
        out@[2] as char == 'G',
        out@[3] as char == 'T',
        out@[4] == 1,
        out@[5] == if c.machine {
            1u8
        } else {
            0u8
        },
        out@[6] + 256 * out@[7] + 65536 * out@[8] + 16777216 * out@[9] == c.mat_vendor_id,
        out@[10] + 256 * out@[11] + 65536 * out@[12] + 16777216 * out@[13] == c.max_fragment,
        out@[14] + 256 * out@[15] + 65536 * out@[16] + 16777216 * out@[17]
            == vstd::utf8::encode_utf8(c.server_name@).len(),
        out@.len() >= 18 + vstd::utf8::encode_utf8(c.server_name@).len(),
        out@.subrange(18, 18 + vstd::utf8::encode_utf8(c.server_name@).len() as int)
            == vstd::utf8::encode_utf8(c.server_name@),
{
    let p = c@;
    let name = vstd::utf8::encode_utf8(p.server_name);
    let flags = seq![if p.machine { 1u8 } else { 0u8 }];
    let tail = sized(vstd::utf8::encode_utf8(p.selector_subject)) + (crate::bytes::le32(
        count_field(p.roots.len()),
    ) + (sized_all(p.roots) + ticket_field(p.mat)));
    let vendor = crate::bytes::le32(p.mat_vendor_id);
    let budget = crate::bytes::le32(p.max_fragment);
    let size = crate::bytes::le32(count_field(name.len()));
    crate::bytes::lemma_le32_round_trip(p.mat_vendor_id);
    crate::bytes::lemma_le32_round_trip(p.max_fragment);
    crate::bytes::lemma_le32_round_trip(count_field(name.len()));
    let head = magic() + seq![VERSION] + flags + vendor + budget + size;
    let whole = encoded(p);
    assert(out@ == whole);
    assert(whole =~= magic() + (seq![VERSION] + (flags + (vendor + (budget + ((size + name)
        + tail))))));
    assert(head.len() == 18);
    assert(whole =~= head + (name + tail));
    assert forall|i: int| 0 <= i < 18 implies #[trigger] whole[i] == head[i] by {}
    assert(head[0] == 0x55 && head[1] == 0x53 && head[2] == 0x47 && head[3] == 0x54);
    assert(head[6] == vendor[0] && head[7] == vendor[1] && head[8] == vendor[2] && head[9]
        == vendor[3]);
    assert(head[10] == budget[0] && head[11] == budget[1] && head[12] == budget[2] && head[13]
        == budget[3]);
    assert(head[14] == size[0] && head[15] == size[1] && head[16] == size[2] && head[17]
        == size[3]);
    assert(whole.subrange(18, 18 + name.len() as int) =~= name);
}

/// Octets that do not begin with `USGT` are refused for that, and a version other than 1
/// for that, whatever follows; fewer than four octets are truncated.
pub proof fn law_foreign_profile_is_refused(bytes: &[u8], r: Result<SessionConfigBlob, ConfigError>)
    requires
        call_ensures(SessionConfigBlob::from_bytes, (bytes,), r),
    ensures
        bytes@.len() < 4 ==> r == Err::<SessionConfigBlob, ConfigError>(ConfigError::Truncated),
        bytes@.len() >= 4 && !(bytes@[0] == 0x55 && bytes@[1] == 0x53 && bytes@[2] == 0x47
            && bytes@[3] == 0x54) ==> r == Err::<SessionConfigBlob, ConfigError>(
            ConfigError::BadMagic,
        ),
        bytes@.len() >= 5 && bytes@[0] == 0x55 && bytes@[1] == 0x53 && bytes@[2] == 0x47 && bytes@[3]
            == 0x54 && bytes@[4] != 1 ==> r == Err::<SessionConfigBlob, ConfigError>(
            ConfigError::BadVersion,
        ),
        r is Ok ==> bytes@.len() >= 27,
{
    let b = bytes@;
    if b.len() >= 4 {
        assert(b.take(4)[0] == b[0] && b.take(4)[1] == b[1] && b.take(4)[2] == b[2] && b.take(4)[3]
            == b[3]);
        if b[0] == 0x55 && b[1] == 0x53 && b[2] == 0x47 && b[3] == 0x54 {
            assert(b.take(4) =~= magic());
        }
    }
    if r is Ok {
        let _octets = law_accepted_profile_is_its_wire_form(b);
        let p = decoded(b)->Ok_0;
        crate::bytes::lemma_le32_round_trip(p.mat_vendor_id);
    }
}

proof fn lemma_read_header(flags: u8, fields: Seq<u8>)
    ensures
        read_profile(magic() + (seq![1u8] + (seq![flags] + fields))) == read_fields(
            flags % 2 == 1,
            fields,
        ),
{
    let b1 = seq![flags] + fields;
    let b0 = seq![1u8] + b1;
    lemma_front(magic(), b0);
    lemma_read_octet_written(1, b1);
    lemma_read_octet_written(flags, fields);
}

/// A server name that is not UTF-8 is refused for that, whatever follows.
pub proof fn law_server_name_must_be_utf8(
    flags: u8,
    vendor: u32,
    budget: u32,
    raw: Seq<u8>,
    rest: Seq<u8>,
)
    requires
        !vstd::utf8::valid_utf8(raw),
        raw.len() <= u32::MAX,
    ensures
        decoded(
            magic() + (seq![1u8] + (seq![flags] + (crate::bytes::le32(vendor) + (crate::bytes::le32(
                budget,
            ) + (sized(raw) + rest))))),
        ) == Err::<Profile, ConfigError>(ConfigError::BadUtf8),
{
    reveal(read_fields);
    let b2 = sized(raw) + rest;
    let b1 = crate::bytes::le32(budget) + b2;
    let b = crate::bytes::le32(vendor) + b1;
    lemma_read_header(flags, b);
    lemma_read_number_written(vendor, b1);
    lemma_read_number_written(budget, b2);
    lemma_read_sized_written(raw, rest);
}

/// A subject that is not UTF-8 is refused for that, whatever follows.
pub proof fn law_subject_must_be_utf8(
    flags: u8,
    vendor: u32,
    budget: u32,
    name: Seq<char>,
    raw: Seq<u8>,
    rest: Seq<u8>,
)
    requires
        vstd::utf8::encode_utf8(name).len() <= u32::MAX,
        !vstd::utf8::valid_utf8(raw),
        raw.len() <= u32::MAX,
    ensures
        decoded(
            magic() + (seq![1u8] + (seq![flags] + (crate::bytes::le32(vendor) + (crate::bytes::le32(
                budget,
            ) + (sized(vstd::utf8::encode_utf8(name)) + (sized(raw) + rest)))))),
        ) == Err::<Profile, ConfigError>(ConfigError::BadUtf8),
{
    reveal(read_fields);
    let b3 = sized(raw) + rest;
    let b2 = sized(vstd::utf8::encode_utf8(name)) + b3;
    let b1 = crate::bytes::le32(budget) + b2;
    let b = crate::bytes::le32(vendor) + b1;
    lemma_read_header(flags, b);
    lemma_read_number_written(vendor, b1);
    lemma_read_number_written(budget, b2);
    lemma_read_text_written(name, b3);
    lemma_read_sized_written(raw, rest);
}

/// All flags but the lowest are ignored, and any presence octet but zero announces a
/// ticket: a profile is read whatever they are.
pub proof fn law_unused_flags_are_ignored(p: Profile, flags: u8, tag: u8)
    requires
        fits(p),
        (flags % 2 == 1) == p.machine,
        (tag != 0) == (p.mat is Some),
    ensures
        decoded(spelled(p, flags, tag)) == Ok::<Profile, ConfigError>(p),
{
    reveal(read_fields);
    let none = Seq::<u8>::empty();
    let t6 = tagged_ticket(tag, p.mat);
    let t5 = sized_all(p.roots) + t6;
    let t4 = crate::bytes::le32(count_field(p.roots.len())) + t5;
    let t3 = sized(vstd::utf8::encode_utf8(p.selector_subject)) + t4;
    let t2 = sized(vstd::utf8::encode_utf8(p.server_name)) + t3;
    let t1 = crate::bytes::le32(p.max_fragment) + t2;
    let t0 = crate::bytes::le32(p.mat_vendor_id) + t1;
    lemma_read_header(flags, t0);
    lemma_read_number_written(p.mat_vendor_id, t1);
    lemma_read_number_written(p.max_fragment, t2);
    lemma_read_text_written(p.server_name, t3);
    lemma_read_text_written(p.selector_subject, t4);
    lemma_read_number_written(count_field(p.roots.len()), t5);
    lemma_read_all_written(p.roots, t6);
    match p.mat {
        Some(m) => {
            lemma_read_octet_written(tag, sized(m));
            lemma_read_sized_written(m, none);
            assert(sized(m) + none =~= sized(m));
        },
        None => {
            lemma_read_octet_written(tag, none);
            assert(seq![tag] + none =~= t6);
        },
    }
}

/// What is shown of a profile is a matter of all its fields but the octets of the anchors
/// and of the ticket.
pub proof fn law_shown_profile_hides_octets(
    c: SessionConfigBlob,
    d: SessionConfigBlob,
    t: String,
    u: String,
)
    requires
        call_ensures(SessionConfigBlob::redacted, (&c,), t),
        call_ensures(SessionConfigBlob::redacted, (&d,), u),
        c.machine == d.machine,
        c.server_name@ == d.server_name@,
        c.mat_vendor_id == d.mat_vendor_id,
        c.max_fragment == d.max_fragment,
        c.selector_subject@ == d.selector_subject@,
        c.roots@.len() == d.roots@.len(),
    ensures
        c.mat is Some == d.mat is Some ==> t@ == u@,
        c.mat is Some != d.mat is Some ==> t@ != u@,
{
    reveal_strlit("true");
    reveal_strlit("false");
    assert(crate::text::truth_text(c.mat is Some).len() == if c.mat is Some {
        4nat
    } else {
        5
    });
    assert(crate::text::truth_text(d.mat is Some).len() == if d.mat is Some {
        4nat
    } else {
        5
    });
    assert(t@.len() - crate::text::truth_text(c.mat is Some).len() == u@.len()
        - crate::text::truth_text(d.mat is Some).len());
}

/// What is shown of a profile tells its names, its numbers and how many anchors it has.
pub proof fn law_shown_profile_tells_its_fields(c: SessionConfigBlob, t: String)
    requires
        call_ensures(SessionConfigBlob::redacted, (&c,), t),
    ensures
        crate::text::text_contains(t@, crate::text::shown_text(c.server_name@)),
        crate::text::text_contains(t@, crate::text::shown_text(c.selector_subject@)),
        crate::text::text_contains(t@, crate::text::decimal_text(c.mat_vendor_id as nat)),
        crate::text::text_contains(t@, crate::text::decimal_text(c.max_fragment as nat)),
        crate::text::text_contains(t@, crate::text::decimal_text(c.roots@.len())),
{
    let p = c@;
    let s0 = "SessionConfigBlob { machine: "@ + crate::text::truth_text(p.machine) + ", server_name: "@;
    let name = crate::text::shown_text(p.server_name);
    let s1 = s0 + name + ", mat_vendor_id: "@;
    let vendor = crate::text::decimal_text(p.mat_vendor_id as nat);
    let s2 = s1 + vendor + ", max_fragment: "@;
    let budget = crate::text::decimal_text(p.max_fragment as nat);
    let s3 = s2 + budget + ", selector_subject: "@;
    let subject = crate::text::shown_text(p.selector_subject);
    let s4 = s3 + subject + ", roots: "@;
    let count = crate::text::decimal_text(p.roots.len());
    let s5 = s4 + count + ", has_mat: "@;
    let s6 = s5 + crate::text::truth_text(p.mat is Some) + " }"@;
    assert(t@ == s6);
    lemma_shown_on(s0, name, ", mat_vendor_id: "@, name);
    lemma_shown_on(s1, vendor, ", max_fragment: "@, name);
    lemma_shown_on(s2, budget, ", selector_subject: "@, name);
    lemma_shown_on(s3, subject, ", roots: "@, name);
    lemma_shown_on(s4, count, ", has_mat: "@, name);
    lemma_shown_on(s5, crate::text::truth_text(p.mat is Some), " }"@, name);
    lemma_shown_on(s1, vendor, ", max_fragment: "@, vendor);
    lemma_shown_on(s2, budget, ", selector_subject: "@, vendor);
    lemma_shown_on(s3, subject, ", roots: "@, vendor);
    lemma_shown_on(s4, count, ", has_mat: "@, vendor);
    lemma_shown_on(s5, crate::text::truth_text(p.mat is Some), " }"@, vendor);
    lemma_shown_on(s2, budget, ", selector_subject: "@, budget);
    lemma_shown_on(s3, subject, ", roots: "@, budget);
    lemma_shown_on(s4, count, ", has_mat: "@, budget);
    lemma_shown_on(s5, crate::text::truth_text(p.mat is Some), " }"@, budget);
    lemma_shown_on(s3, subject, ", roots: "@, subject);
    lemma_shown_on(s4, count, ", has_mat: "@, subject);
    lemma_shown_on(s5, crate::text::truth_text(p.mat is Some), " }"@, subject);
    lemma_shown_on(s4, count, ", has_mat: "@, count);
    lemma_shown_on(s5, crate::text::truth_text(p.mat is Some), " }"@, count);
}

proof fn lemma_shown_on(front: Seq<char>, field: Seq<char>, back: Seq<char>, part: Seq<char>)
    requires
        part == field || crate::text::text_contains(front, part),
    ensures
        crate::text::text_contains(front + field + back, part),
{
    if part == field {
        crate::text::law_contained_text_stands_inside(front, field, back);
    } else {
        let none = Seq::<char>::empty();
        crate::text::lemma_contains_around(none, front, field + back, part);
        assert(none + front + (field + back) =~= front + field + back);
    }
}

} // verus!
