//! Selecting the right certificate from a store among several: a smartcard
//! exposes an authentication, a signature and an encryption certificate, and
//! 802.1X wants the one with the Client Authentication key usage.
use crate::bytes::same_bytes;
use crate::creds::error::CredError;
use crate::fips_tls::mac::sha256;
use crate::text::contains;
use vstd::prelude::*;
use x509_parser::prelude::FromDer;

verus! {

/// Criteria for picking one certificate from a candidate set.
#[derive(Debug, Clone)]
pub struct CertSelector {
    /// Exact SHA-256 thumbprint of the certificate, if pinned.
    pub thumbprint_sha256: Option<[u8; 32]>,
    /// Require the Client Authentication key usage.
    pub require_client_auth_eku: bool,
    /// Require this text in the subject name (case-sensitive).
    pub subject_contains: Option<String>,
    /// Require this text in the issuer name (case-sensitive).
    pub issuer_contains: Option<String>,
}

impl Default for CertSelector {
    fn default() -> (s: Self)
        ensures
            s.thumbprint_sha256 is None,
            !s.require_client_auth_eku,
            s.subject_contains is None,
            s.issuer_contains is None,
    {
        CertSelector {
            thumbprint_sha256: None,
            require_client_auth_eku: false,
            subject_contains: None,
            issuer_contains: None,
        }
    }
}

/// What a certificate says of its holder.
#[derive(Debug, Clone, PartialEq, Eq)]
pub struct HolderFacts {
    /// Whether the extended key usage lists Client Authentication.
    pub client_auth: bool,
    /// The subject name as text.
    pub subject: String,
    /// The issuer name as text.
    pub issuer: String,
}

impl HolderFacts {
    /// The facts as mathematical values: client authentication, subject, issuer.
    pub open spec fn values(self) -> (bool, Seq<char>, Seq<char>) {
        (self.client_auth, self.subject@, self.issuer@)
    }
}

/// What `x509_parser` reads of a certificate's holder: nothing if the bytes are
/// not an X.509 certificate, otherwise the Client Authentication usage, the
/// subject and the issuer.
pub uninterp spec fn certificate_holder(der: Seq<u8>) -> Option<(bool, Seq<char>, Seq<char>)>;

/// `X509Certificate::from_der`, then `extended_key_usage` (a missing, repeated or
/// unreadable extension counts as no usage), and the subject and issuer names as
/// their `Display` shows them. The bytes alone decide all of it.
#[verifier::external_body]
fn read_holder(der: &[u8]) -> (r: Option<HolderFacts>)
    ensures
        match r {
            Some(h) => certificate_holder(der@) == Some(h.values()),
            None => certificate_holder(der@) is None,
        },
{
    let (_, cert) = x509_parser::certificate::X509Certificate::from_der(der).ok()?;
    let usage = cert.extended_key_usage().ok().flatten();
    Some(HolderFacts {
        client_auth: usage.is_some_and(|eku| eku.value.client_auth),
        subject: cert.subject().to_string(),
        issuer: cert.issuer().to_string(),
    })
}

/// The criterion is not set, or the text contains it.
pub open spec fn text_criterion(wanted: Option<String>, text: Seq<char>) -> bool {
    wanted matches Some(part) ==> crate::text::text_contains(text, part@)
}

impl CertSelector {
    /// The thumbprint is not pinned, or it is `digest`.
    pub open spec fn thumbprint_ok(self, digest: Seq<u8>) -> bool {
        self.thumbprint_sha256 matches Some(want) ==> want@ == digest
    }

    /// A criterion needs the certificate's contents.
    pub open spec fn needs_contents(self) -> bool {
        self.require_client_auth_eku || self.subject_contains is Some || self.issuer_contains is Some
    }

    /// The holder satisfies every criterion on it.
    pub open spec fn holder_ok(self, client_auth: bool, subject: Seq<char>, issuer: Seq<char>) -> bool {
        &&& self.require_client_auth_eku ==> client_auth
        &&& text_criterion(self.subject_contains, subject)
        &&& text_criterion(self.issuer_contains, issuer)
    }

    /// Whether a certificate with this digest and holder matches; a bad
    /// certificate only where its contents are needed.
    pub open spec fn decision(
        self,
        digest: Seq<u8>,
        holder: Option<(bool, Seq<char>, Seq<char>)>,
    ) -> Result<bool, CredError> {
        if !self.thumbprint_ok(digest) {
            Ok(false)
        } else if !self.needs_contents() {
            Ok(true)
        } else {
            match holder {
                None => Err(CredError::BadCertificate),
                Some((client_auth, subject, issuer)) => Ok(
                    self.holder_ok(client_auth, subject, issuer),
                ),
            }
        }
    }

    /// Whether a certificate matches.
    pub open spec fn accepts(self, der: Seq<u8>) -> Result<bool, CredError> {
        self.decision(crate::fips_tls::mac::sha256_of(der), certificate_holder(der))
    }

    /// Whether the digest is the pinned one, if one is pinned.
    pub fn thumbprint_matches(&self, digest: &[u8]) -> (r: bool)
        ensures
            r == self.thumbprint_ok(digest@),
    {
        match &self.thumbprint_sha256 {
            None => true,
            Some(want) => same_bytes(want.as_slice(), digest),
        }
    }

    /// Whether the holder satisfies every criterion on it.
    pub fn holder_matches(&self, holder: &HolderFacts) -> (r: bool)
        ensures
            r == self.holder_ok(holder.values().0, holder.values().1, holder.values().2),
    {
        if self.require_client_auth_eku && !holder.client_auth {
            return false;
        }
        if let Some(part) = &self.subject_contains {
            if !contains(holder.subject.as_str(), part.as_str()) {
                return false;
            }
        }
        if let Some(part) = &self.issuer_contains {
            if !contains(holder.issuer.as_str(), part.as_str()) {
                return false;
            }
        }
        true
    }

    /// Whether `cert_der` satisfies every set criterion. A bad certificate if a
    /// criterion needs its contents and it is not X.509.
    pub fn matches(&self, cert_der: &[u8]) -> (r: Result<bool, CredError>)
        ensures
            r == self.accepts(cert_der@),
    {
        if self.thumbprint_sha256.is_some() {
            let digest: Vec<u8> = sha256(cert_der);
            if !self.thumbprint_matches(digest.as_slice()) {
                return Ok(false);
            }
        }
        // Parse only if a criterion needs the certificate's contents.

        let needs_parse: bool = self.require_client_auth_eku || self.subject_contains.is_some()
            || self.issuer_contains.is_some();
        if !needs_parse {
            return Ok(true);
        }
        match read_holder(cert_der) {
            None => Err(CredError::BadCertificate),
            Some(holder) => Ok(self.holder_matches(&holder)),
        }
    }

    /// The index of the single matching certificate. Fails closed: no match, more
    /// than one match, or a certificate that cannot be judged is an error.
    pub fn select_index(&self, certs: &Vec<Vec<u8>>) -> (r: Result<usize, CredError>)
        ensures
            (exists|i: int| 0 <= i < certs@.len() && (#[trigger] self.accepts(certs@[i]@)) is Err)
                ==> r == Err::<usize, CredError>(CredError::BadCertificate),
            (forall|i: int|
                0 <= i < certs@.len() ==> (#[trigger] self.accepts(certs@[i]@)) is Ok) ==> picked(
                Seq::new(certs@.len(), |i: int| self.accepts(certs@[i]@) == Ok::<bool, CredError>(true)),
                r,
            ),
    {
        let mut found: Vec<bool> = Vec::new();
        let mut i: usize = 0;
        while i < certs.len()
            invariant
                i <= certs@.len(),
                found@.len() == i,
                forall|j: int|
                    0 <= j < i ==> #[trigger] self.accepts(certs@[j]@) == Ok::<bool, CredError>(
                        found@[j],
                    ),
            decreases certs@.len() - i,
        {
            match self.matches(certs[i].as_slice()) {
                Err(e) => {
                    assert(self.accepts(certs@[i as int]@) is Err);
                    return Err(e);
                },
                Ok(m) => {
                    found.push(m);
                },
            }
            i = i + 1;
        }
        assert(found@ =~= Seq::new(
            certs@.len(),
            |j: int| self.accepts(certs@[j]@) == Ok::<bool, CredError>(true),
        ));
        pick(&found)
    }

    /// The single matching certificate. Fails closed as [`CertSelector::select_index`].
    pub fn select<'a>(&self, certs: &'a Vec<Vec<u8>>) -> (r: Result<&'a Vec<u8>, CredError>)
        ensures
            (exists|i: int| 0 <= i < certs@.len() && (#[trigger] self.accepts(certs@[i]@)) is Err)
                ==> r == Err::<&'a Vec<u8>, CredError>(CredError::BadCertificate),
            (forall|i: int|
                0 <= i < certs@.len() ==> (#[trigger] self.accepts(certs@[i]@)) is Ok) ==> match r {
                Ok(cert) => exists|i: int|
                    0 <= i < certs@.len() && *cert == #[trigger] certs@[i] && picked(
                        Seq::new(
                            certs@.len(),
                            |j: int| self.accepts(certs@[j]@) == Ok::<bool, CredError>(true),
                        ),
                        Ok::<usize, CredError>(i as usize),
                    ),
                Err(e) => picked(
                    Seq::new(
                        certs@.len(),
                        |j: int| self.accepts(certs@[j]@) == Ok::<bool, CredError>(true),
                    ),
                    Err::<usize, CredError>(e),
                ),
            },
    {
        match self.select_index(certs) {
            Ok(i) => {
                proof {
                    if exists|j: int| 0 <= j < certs@.len() && (#[trigger] self.accepts(certs@[j]@)) is Err {
                    } else {
                        assert forall|j: int| 0 <= j < certs@.len() implies (#[trigger] self.accepts(
                            certs@[j]@,
                        )) is Ok by {}
                    }
                    assert(i < certs@.len());
                }
                Ok(&certs[i])
            },
            Err(e) => Err(e),
        }
    }
}

/// How many of the flags are set.
pub open spec fn count_set(flags: Seq<bool>) -> nat
    decreases flags.len(),
{
    if flags.len() == 0 {
        0
    } else {
        count_set(flags.drop_last()) + (if flags.last() {
            1nat
        } else {
            0
        })
    }
}

/// `r` picks the one set flag, or says that there is none or more than one.
pub open spec fn picked(flags: Seq<bool>, r: Result<usize, CredError>) -> bool {
    match r {
        Ok(i) => {
            &&& count_set(flags) == 1
            &&& i < flags.len()
            &&& flags[i as int]
            &&& forall|j: int| 0 <= j < flags.len() && j != i ==> !#[trigger] flags[j]
        },
        Err(CredError::NoMatchingCert) => count_set(flags) == 0,
        Err(CredError::AmbiguousMatch { count }) => count == count_set(flags) && count >= 2,
        Err(_) => false,
    }
}

proof fn lemma_count_set(flags: Seq<bool>)
    ensures
        count_set(flags) <= flags.len(),
        count_set(flags) == 0 ==> forall|j: int| 0 <= j < flags.len() ==> !#[trigger] flags[j],
    decreases flags.len(),
{
    if flags.len() > 0 {
        lemma_count_set(flags.drop_last());
        if count_set(flags) == 0 {
            assert forall|j: int| 0 <= j < flags.len() implies !#[trigger] flags[j] by {
                if j < flags.len() - 1 {
                    assert(flags.drop_last()[j] == flags[j]);
                }
            }
        }
    }
}

/// The index of the one set flag. An ambiguous choice never silently picks one.
pub fn pick(flags: &Vec<bool>) -> (r: Result<usize, CredError>)
    ensures
        picked(flags@, r),
{
    let mut found: usize = 0;
    let mut count: usize = 0;
    let mut i: usize = 0;
    while i < flags.len()
        invariant
            i <= flags@.len(),
            count == count_set(flags@.take(i as int)),
            count <= i,
            count == 0 ==> forall|j: int| 0 <= j < i ==> !#[trigger] flags@[j],
            count == 1 ==> found < i && flags@[found as int] && forall|j: int|
                0 <= j < i && j != found ==> !#[trigger] flags@[j],
        decreases flags@.len() - i,
    {
        assert(flags@.take(i + 1).drop_last() =~= flags@.take(i as int));
        if flags[i] {
            count = count + 1;
            found = i;
        }
        i = i + 1;
    }
    assert(flags@.take(i as int) =~= flags@);
    if count == 1 {
        Ok(found)
    } else if count == 0 {
        Err(CredError::NoMatchingCert)
    } else {
        Err(CredError::AmbiguousMatch { count })
    }
}

/// No two results are right for the same candidates: the choice is determined.
pub proof fn law_choice_is_determined(flags: Seq<bool>, a: Result<usize, CredError>, b: Result<
    usize,
    CredError,
>)
    requires
        picked(flags, a),
        picked(flags, b),
    ensures
        a == b,
{
    lemma_count_set(flags);
    if let Ok(i) = a {
        if let Ok(j) = b {
            if i != j {
                assert(!flags[j as int]);
            }
        }
    }
}

/// SHA-256 thumbprint of a certificate.
pub fn thumbprint_sha256(cert_der: &[u8]) -> (t: [u8; 32])
    ensures
        t@ == crate::fips_tls::mac::sha256_of(cert_der@),
{
    let digest: Vec<u8> = sha256(cert_der);
    let mut out: [u8; 32] = [0u8;32];
    let mut i: usize = 0;
    while i < 32
        invariant
            i <= 32,
            digest@.len() == 32,
            forall|j: int| 0 <= j < i ==> out@[j] == digest@[j],
        decreases 32 - i,
    {
        out[i] = digest[i];
        i = i + 1;
    }
    assert(out@ =~= digest@);
    out
}

/// A certificate that is accepted satisfies each set criterion on its own, whatever else
/// is set: the pinned thumbprint is its digest, its holder has the Client Authentication
/// usage, the subject holds the wanted text, and so does the issuer.
pub proof fn law_accepted_certificate_meets_each_criterion(
    s: CertSelector,
    der: &[u8],
    r: Result<bool, CredError>,
)
    requires
        call_ensures(CertSelector::matches, (&s, der), r),
    ensures
        r == Ok::<bool, CredError>(true) <==> s.accepts(der@) == Ok::<bool, CredError>(true),
        r == Ok::<bool, CredError>(true) ==> {
            &&& s.thumbprint_sha256 matches Some(want) ==> want@
                == crate::fips_tls::mac::sha256_of(der@)
            &&& s.require_client_auth_eku ==> (certificate_holder(der@) matches Some(h) && h.0)
            &&& s.subject_contains matches Some(part) ==> (certificate_holder(der@) matches Some(h)
                && exists|at: int| #[trigger] crate::text::occurs_at(h.1, part@, at))
            &&& s.issuer_contains matches Some(part) ==> (certificate_holder(der@) matches Some(h)
                && exists|at: int| #[trigger] crate::text::occurs_at(h.2, part@, at))
        },
{
}

/// A certificate that is X.509 and meets each criterion that is set is accepted; so is any
/// octet string where none is set.
pub proof fn law_certificate_that_meets_the_criteria_is_accepted(
    s: CertSelector,
    der: &[u8],
    r: Result<bool, CredError>,
)
    requires
        call_ensures(CertSelector::matches, (&s, der), r),
        s.thumbprint_sha256 matches Some(want) ==> want@ == crate::fips_tls::mac::sha256_of(der@),
        s.require_client_auth_eku ==> (certificate_holder(der@) matches Some(h) && h.0),
        s.subject_contains matches Some(part) ==> (certificate_holder(der@) matches Some(h)
            && exists|at: int| #[trigger] crate::text::occurs_at(h.1, part@, at)),
        s.issuer_contains matches Some(part) ==> (certificate_holder(der@) matches Some(h)
            && exists|at: int| #[trigger] crate::text::occurs_at(h.2, part@, at)),
    ensures
        r == Ok::<bool, CredError>(true),
{
}

/// A selector that requires the Client Authentication usage never accepts a certificate
/// whose holder lacks it, whatever other criteria are set.
pub proof fn law_required_usage_is_never_waived(
    s: CertSelector,
    holder: HolderFacts,
    r: bool,
    der: Seq<u8>,
)
    requires
        s.require_client_auth_eku,
        !holder.client_auth,
        call_ensures(CertSelector::holder_matches, (&s, &holder), r),
        certificate_holder(der) matches Some(h) && !h.0,
    ensures
        !r,
        s.accepts(der) != Ok::<bool, CredError>(true),
{
}

/// A holder is accepted exactly if it meets each criterion on the holder that is set.
pub proof fn law_holder_meets_each_criterion(s: CertSelector, holder: HolderFacts, r: bool)
    requires
        call_ensures(CertSelector::holder_matches, (&s, &holder), r),
    ensures
        r ==> (s.require_client_auth_eku ==> holder.client_auth),
        r ==> (s.subject_contains matches Some(part) ==> exists|at: int| #[trigger]
            crate::text::occurs_at(holder.subject@, part@, at)),
        r ==> (s.issuer_contains matches Some(part) ==> exists|at: int| #[trigger]
            crate::text::occurs_at(holder.issuer@, part@, at)),
        !r ==> {
            ||| s.require_client_auth_eku && !holder.client_auth
            ||| s.subject_contains matches Some(part) && !(exists|at: int| #[trigger]
                crate::text::occurs_at(holder.subject@, part@, at))
            ||| s.issuer_contains matches Some(part) && !(exists|at: int| #[trigger]
                crate::text::occurs_at(holder.issuer@, part@, at))
        },
{
}

/// Setting one more criterion never accepts more: what the stricter selector accepts, the
/// one without the usage, the subject, the issuer or the thumbprint accepts too.
pub proof fn law_more_criteria_accept_less(s: CertSelector, t: CertSelector, der: Seq<u8>)
    requires
        t.require_client_auth_eku ==> s.require_client_auth_eku,
        t.thumbprint_sha256 is Some ==> t.thumbprint_sha256 == s.thumbprint_sha256,
        t.subject_contains is Some ==> t.subject_contains == s.subject_contains,
        t.issuer_contains is Some ==> t.issuer_contains == s.issuer_contains,
        s.accepts(der) == Ok::<bool, CredError>(true),
    ensures
        t.accepts(der) == Ok::<bool, CredError>(true),
{
}

/// A certificate is bad only where its contents are asked for and it is not X.509; another
/// thumbprint than the pinned one is a plain refusal, whatever the octets are.
pub proof fn law_bad_certificate_is_one_that_must_be_read(
    s: CertSelector,
    der: &[u8],
    r: Result<bool, CredError>,
)
    requires
        call_ensures(CertSelector::matches, (&s, der), r),
    ensures
        r is Err <==> {
            &&& certificate_holder(der@) is None
            &&& s.require_client_auth_eku || s.subject_contains is Some || s.issuer_contains is Some
            &&& s.thumbprint_sha256 matches Some(want) ==> want@ == crate::fips_tls::mac::sha256_of(
                der@,
            )
        },
        r matches Err(e) ==> e == CredError::BadCertificate,
        (s.thumbprint_sha256 matches Some(want) && want@ != crate::fips_tls::mac::sha256_of(der@))
            ==> r == Ok::<bool, CredError>(false),
{
}

/// A pinned thumbprint matches its own digest and no other; an unpinned one any.
pub proof fn law_thumbprint_is_exact(s: CertSelector, digest: &[u8], r: bool)
    requires
        call_ensures(CertSelector::thumbprint_matches, (&s, digest), r),
    ensures
        s.thumbprint_sha256 is None ==> r,
        s.thumbprint_sha256 matches Some(want) ==> (r <==> want@.len() == digest@.len() && forall|
            i: int,
        |
            0 <= i < digest@.len() ==> #[trigger] want@[i] == digest@[i]),
{
    if let Some(want) = s.thumbprint_sha256 {
        if want@.len() == digest@.len() && forall|i: int|
            0 <= i < digest@.len() ==> #[trigger] want@[i] == digest@[i] {
            assert(want@ =~= digest@);
        }
    }
}

/// The choice never guesses: an index comes out only if that certificate is accepted and
/// no other is, and one comes out whenever that is so. No accepted certificate, or two of
/// them, is an error of its own, and so is a certificate that cannot be judged.
pub proof fn law_choice_is_the_only_match(
    s: CertSelector,
    certs: Vec<Vec<u8>>,
    r: Result<usize, CredError>,
    i: int,
)
    requires
        call_ensures(CertSelector::select_index, (&s, &certs), r),
        0 <= i < certs@.len(),
    ensures
        r matches Ok(k) ==> k < certs@.len() && s.accepts(certs@[k as int]@) == Ok::<bool, CredError>(
            true,
        ) && (i != k ==> s.accepts(certs@[i]@) == Ok::<bool, CredError>(false)),
        s.accepts(certs@[i]@) is Err ==> r == Err::<usize, CredError>(CredError::BadCertificate),
        r == Err::<usize, CredError>(CredError::NoMatchingCert) ==> s.accepts(certs@[i]@)
            == Ok::<bool, CredError>(false),
        r == Err::<usize, CredError>(CredError::BadCertificate) ==> exists|k: int|
            0 <= k < certs@.len() && (#[trigger] s.accepts(certs@[k]@)) is Err,
{
    let flags = Seq::new(certs@.len(), |k: int| s.accepts(certs@[k]@) == Ok::<bool, CredError>(true));
    if forall|k: int| 0 <= k < certs@.len() ==> (#[trigger] s.accepts(certs@[k]@)) is Ok {
        assert(picked(flags, r));
        lemma_count_set(flags);
        assert(flags[i] == (s.accepts(certs@[i]@) == Ok::<bool, CredError>(true)));
    }
}

/// Two accepted certificates are never chosen between: that is an error, and where every
/// certificate can be judged, the ambiguity itself.
pub proof fn law_two_matches_are_ambiguous(
    s: CertSelector,
    certs: Vec<Vec<u8>>,
    r: Result<usize, CredError>,
    i: int,
    j: int,
)
    requires
        call_ensures(CertSelector::select_index, (&s, &certs), r),
        0 <= i < j < certs@.len(),
        s.accepts(certs@[i]@) == Ok::<bool, CredError>(true),
        s.accepts(certs@[j]@) == Ok::<bool, CredError>(true),
    ensures
        r is Err,
        (forall|k: int| 0 <= k < certs@.len() ==> (#[trigger] s.accepts(certs@[k]@)) is Ok) ==> (
        r matches Err(e) && e is AmbiguousMatch),
{
    let flags = Seq::new(certs@.len(), |k: int| s.accepts(certs@[k]@) == Ok::<bool, CredError>(true));
    if forall|k: int| 0 <= k < certs@.len() ==> (#[trigger] s.accepts(certs@[k]@)) is Ok {
        assert(picked(flags, r));
        lemma_count_set(flags);
        assert(flags[i]);
        assert(flags[j]);
    }
}

/// Where every certificate can be judged and none is accepted, or there is none, that is
/// the error.
pub proof fn law_no_match_is_an_error(
    s: CertSelector,
    certs: Vec<Vec<u8>>,
    r: Result<usize, CredError>,
)
    requires
        call_ensures(CertSelector::select_index, (&s, &certs), r),
        forall|k: int|
            0 <= k < certs@.len() ==> #[trigger] s.accepts(certs@[k]@) == Ok::<bool, CredError>(
                false,
            ),
    ensures
        r == Err::<usize, CredError>(CredError::NoMatchingCert),
{
    let flags = Seq::new(certs@.len(), |k: int| s.accepts(certs@[k]@) == Ok::<bool, CredError>(true));
    assert(forall|k: int| 0 <= k < certs@.len() ==> (#[trigger] s.accepts(certs@[k]@)) is Ok);
    assert(picked(flags, r));
    lemma_count_none(flags);
}

/// The certificate that is selected is the one whose index is, and where there is no
/// index there is no certificate, for the same reason.
pub proof fn law_selected_certificate_has_the_index(
    s: CertSelector,
    certs: Vec<Vec<u8>>,
    r: Result<usize, CredError>,
    q: Result<&Vec<u8>, CredError>,
)
    requires
        call_ensures(CertSelector::select_index, (&s, &certs), r),
        call_ensures(CertSelector::select, (&s, &certs), q),
    ensures
        r matches Ok(i) ==> (q matches Ok(cert) && i < certs@.len() && *cert == certs@[i as int]),
        r matches Err(e) ==> q == Err::<&Vec<u8>, CredError>(e),
{
    let flags = Seq::new(certs@.len(), |k: int| s.accepts(certs@[k]@) == Ok::<bool, CredError>(true));
    if exists|k: int| 0 <= k < certs@.len() && (#[trigger] s.accepts(certs@[k]@)) is Err {
    } else {
        assert forall|k: int| 0 <= k < certs@.len() implies (#[trigger] s.accepts(certs@[k]@)) is Ok by {}
        assert(certs@.len() == certs.len());
        match q {
            Ok(cert) => {
                let i = choose|i: int|
                    0 <= i < certs@.len() && *cert == #[trigger] certs@[i] && picked(
                        flags,
                        Ok::<usize, CredError>(i as usize),
                    );
                law_choice_is_determined(flags, r, Ok(i as usize));
            },
            Err(e) => {
                law_choice_is_determined(flags, r, Err(e));
            },
        }
    }
}

/// The single certificate that is accepted, where no other is, is the one chosen.
pub proof fn law_single_match_is_chosen(
    s: CertSelector,
    certs: Vec<Vec<u8>>,
    r: Result<usize, CredError>,
    i: int,
)
    requires
        call_ensures(CertSelector::select_index, (&s, &certs), r),
        0 <= i < certs@.len(),
        s.accepts(certs@[i]@) == Ok::<bool, CredError>(true),
        forall|k: int|
            0 <= k < certs@.len() && k != i ==> #[trigger] s.accepts(certs@[k]@) == Ok::<
                bool,
                CredError,
            >(false),
    ensures
        r == Ok::<usize, CredError>(i as usize),
{
    let flags = Seq::new(certs@.len(), |k: int| s.accepts(certs@[k]@) == Ok::<bool, CredError>(true));
    assert(forall|k: int| 0 <= k < certs@.len() ==> (#[trigger] s.accepts(certs@[k]@)) is Ok);
    assert(picked(flags, r));
    assert(certs@.len() == certs.len());
    lemma_count_one(flags, i);
    lemma_count_set(flags);
}

/// An ambiguous choice tells how many certificates are accepted.
pub proof fn law_ambiguity_is_counted(s: CertSelector, certs: Vec<Vec<u8>>, count: usize)
    requires
        call_ensures(
            CertSelector::select_index,
            (&s, &certs),
            Err::<usize, CredError>(CredError::AmbiguousMatch { count }),
        ),
    ensures
        count >= 2,
        count == certs@.filter(|c: Vec<u8>| s.accepts(c@) == Ok::<bool, CredError>(true)).len(),
{
    assert(forall|k: int| 0 <= k < certs@.len() ==> (#[trigger] s.accepts(certs@[k]@)) is Ok);
    lemma_count_is_filter(s, certs@);
}

proof fn lemma_count_is_filter(s: CertSelector, certs: Seq<Vec<u8>>)
    ensures
        count_set(
            Seq::new(certs.len(), |j: int| s.accepts(certs[j]@) == Ok::<bool, CredError>(true)),
        ) == certs.filter(|c: Vec<u8>| s.accepts(c@) == Ok::<bool, CredError>(true)).len(),
    decreases certs.len(),
{
    reveal(Seq::filter);
    let flags = Seq::new(certs.len(), |j: int| s.accepts(certs[j]@) == Ok::<bool, CredError>(true));
    if certs.len() > 0 {
        let rest = certs.drop_last();
        lemma_count_is_filter(s, rest);
        assert(flags.drop_last() =~= Seq::new(
            rest.len(),
            |j: int| s.accepts(rest[j]@) == Ok::<bool, CredError>(true),
        ));
    }
}

proof fn lemma_count_one(flags: Seq<bool>, i: int)
    requires
        0 <= i < flags.len(),
        flags[i],
        forall|k: int| 0 <= k < flags.len() && k != i ==> !#[trigger] flags[k],
    ensures
        count_set(flags) == 1,
    decreases flags.len(),
{
    let rest = flags.drop_last();
    if i < flags.len() - 1 {
        assert(forall|k: int| 0 <= k < rest.len() ==> rest[k] == flags[k]);
        lemma_count_one(rest, i);
    } else {
        lemma_count_none(rest);
    }
}

proof fn lemma_count_none(flags: Seq<bool>)
    requires
        forall|k: int| 0 <= k < flags.len() ==> !#[trigger] flags[k],
    ensures
        count_set(flags) == 0,
    decreases flags.len(),
{
    if flags.len() > 0 {
        assert(forall|k: int| 0 <= k < flags.drop_last().len() ==> flags.drop_last()[k] == flags[k]);
        lemma_count_none(flags.drop_last());
    }
}

/// The certificate that is chosen is one of the candidates, an accepted one, and the only
/// one.
pub proof fn law_chosen_certificate_is_accepted(
    s: CertSelector,
    certs: Vec<Vec<u8>>,
    r: Result<&Vec<u8>, CredError>,
    k: int,
)
    requires
        call_ensures(CertSelector::select, (&s, &certs), r),
        0 <= k < certs@.len(),
    ensures
        r matches Ok(cert) ==> s.accepts(cert@) == Ok::<bool, CredError>(true) && certs@.contains(
            *cert,
        ) && (s.accepts(certs@[k]@) == Ok::<bool, CredError>(true) ==> certs@[k] == *cert),
        s.accepts(certs@[k]@) is Err ==> r == Err::<&Vec<u8>, CredError>(CredError::BadCertificate),
{
    let flags = Seq::new(certs@.len(), |j: int| s.accepts(certs@[j]@) == Ok::<bool, CredError>(true));
    if forall|j: int| 0 <= j < certs@.len() ==> (#[trigger] s.accepts(certs@[j]@)) is Ok {
        if let Ok(cert) = r {
            assert(certs@.len() == certs.len());
            let i = choose|i: int|
                0 <= i < certs@.len() && *cert == #[trigger] certs@[i] && picked(
                    flags,
                    Ok::<usize, CredError>(i as usize),
                );
            assert(flags[i as usize as int]);
            assert(flags[k] == (s.accepts(certs@[k]@) == Ok::<bool, CredError>(true)));
        }
    }
}

/// The thumbprint of a certificate is one that a selector pinned to it matches: pinning
/// a certificate by its own thumbprint alone accepts it.
pub proof fn law_own_thumbprint_is_accepted(
    der: &[u8],
    t: [u8; 32],
    s: CertSelector,
    r: Result<bool, CredError>,
)
    requires
        call_ensures(thumbprint_sha256, (der,), t),
        s.thumbprint_sha256 == Some(t),
        !s.require_client_auth_eku,
        s.subject_contains is None,
        s.issuer_contains is None,
        call_ensures(CertSelector::matches, (&s, der), r),
    ensures
        r == Ok::<bool, CredError>(true),
        t@ == crate::fips_tls::mac::sha256_of(der@),
{
}

/// The selector that nothing was asked of accepts every octet string.
pub proof fn law_default_selector_accepts_all(s: CertSelector, der: &[u8], r: Result<bool, CredError>)
    requires
        call_ensures(<CertSelector as Default>::default, (), s),
        call_ensures(CertSelector::matches, (&s, der), r),
    ensures
        r == Ok::<bool, CredError>(true),
{
}

/// The flag that is picked is set and is the only one; a set flag is picked whenever no
/// other is set, and two set flags are never passed over for one of them.
pub proof fn law_only_a_single_flag_is_picked(
    flags: Vec<bool>,
    r: Result<usize, CredError>,
    i: int,
    j: int,
)
    requires
        call_ensures(pick, (&flags,), r),
        0 <= i < flags@.len(),
        0 <= j < flags@.len(),
    ensures
        r matches Ok(k) ==> k < flags@.len() && flags@[k as int] && (flags@[i] ==> i == k),
        i != j && flags@[i] && flags@[j] ==> (r matches Err(CredError::AmbiguousMatch { count }) && count >= 2),
        r matches Err(CredError::NoMatchingCert) ==> !flags@[i],
        flags@[i] && (forall|k: int| 0 <= k < flags@.len() && k != i ==> !#[trigger] flags@[k]) ==> r
            == Ok::<usize, CredError>(i as usize),
{
    lemma_count_set(flags@);
    assert(flags@.len() == flags.len());
    if flags@[i] && forall|k: int| 0 <= k < flags@.len() && k != i ==> !#[trigger] flags@[k] {
        lemma_count_one(flags@, i);
    }
}

} // verus!
