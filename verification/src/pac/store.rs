//! Where tickets are kept: a [`Sealer`] for confidentiality and integrity at
//! rest, and a [`MatStore`] that holds the sealed bytes.
use crate::pac::error::PacError;
use crate::pac::record::MatRecord;
use vstd::prelude::*;

verus! {

/// `std::path::PathBuf`, carried through as it is.
#[verifier::external_type_specification]
#[verifier::external_body]
pub struct ExPathBuf(std::path::PathBuf);

/// Whether an I/O error kind is `NotFound`.
pub uninterp spec fn is_missing(kind: std::io::ErrorKind) -> bool;

/// `std::io::ErrorKind`, compared with `NotFound`: there is no such file.
#[verifier::external_body]
fn names_missing(kind: &std::io::ErrorKind) -> (r: bool)
    ensures
        r == is_missing(*kind),
{
    *kind == std::io::ErrorKind::NotFound
}

/// Confidentiality and integrity for the record at rest.
pub trait Sealer: Send + Sync {
    /// Seal plaintext.
    fn seal(&self, plaintext: &[u8]) -> Result<Vec<u8>, PacError>;

    /// Unseal ciphertext.
    fn unseal(&self, ciphertext: &[u8]) -> Result<Vec<u8>, PacError>;
}

/// The persisted ticket of one machine.
pub trait MatStore {
    /// Persist the record, replacing any other.
    fn save(&mut self, record: &MatRecord) -> Result<(), PacError>;

    /// Load the record, or `None` if none is stored.
    fn load(&self) -> Result<Option<MatRecord>, PacError>;

    /// Remove any stored record; a missing one is no error.
    fn clear(&mut self) -> Result<(), PacError>;
}

/// What is presented of a loaded record: its ticket while it is fresh.
pub open spec fn presented(
    record: Option<crate::pac::record::Ticket>,
    now_unix: u64,
    max_age_secs: u64,
) -> Option<Seq<u8>> {
    match record {
        Some(t) => if crate::pac::record::fresh(t, now_unix, max_age_secs) {
            Some(t.ticket)
        } else {
            None
        },
        None => None,
    }
}

/// The record as mathematical values.
pub open spec fn record_view(record: Option<MatRecord>) -> Option<crate::pac::record::Ticket> {
    match record {
        Some(r) => Some(r@),
        None => None,
    }
}

/// The ticket as mathematical values.
pub open spec fn ticket_view(ticket: Option<Vec<u8>>) -> Option<Seq<u8>> {
    match ticket {
        Some(t) => Some(t@),
        None => None,
    }
}

/// `r` is what [`fresh_ticket`] returns when the store loads `loaded`.
pub open spec fn fresh_result(
    loaded: Result<Option<MatRecord>, PacError>,
    now_unix: u64,
    max_age_secs: u64,
    r: Result<Option<Vec<u8>>, PacError>,
) -> bool {
    match loaded {
        Ok(record) => r matches Ok(ticket) && ticket_view(ticket) == presented(
            record_view(record),
            now_unix,
            max_age_secs,
        ),
        Err(e) => r == Err::<Option<Vec<u8>>, PacError>(e),
    }
}

/// The ticket of a loaded record, if there is one and it is fresh.
pub fn ticket_if_fresh(
    loaded: Result<Option<MatRecord>, PacError>,
    now_unix: u64,
    max_age_secs: u64,
) -> (r: Result<Option<Vec<u8>>, PacError>)
    ensures
        fresh_result(loaded, now_unix, max_age_secs, r),
{
    match loaded {
        Err(e) => Err(e),
        Ok(None) => Ok(None),
        Ok(Some(record)) => {
            if record.is_fresh(now_unix, max_age_secs) {
                Ok(Some(record.ticket))
            } else {
                Ok(None)
            }
        },
    }
}

/// The stored ticket, only if present and fresh within `max_age_secs` at
/// `now_unix`: whether to present it at user logon.
pub fn fresh_ticket<S: MatStore>(store: &S, now_unix: u64, max_age_secs: u64) -> (r: Result<
    Option<Vec<u8>>,
    PacError,
>)
    ensures
        exists|loaded: Result<Option<MatRecord>, PacError>|
            call_ensures(S::load, (store,), loaded) && fresh_result(
                loaded,
                now_unix,
                max_age_secs,
                r,
            ),
{
    let loaded: Result<Option<MatRecord>, PacError> = store.load();
    ticket_if_fresh(loaded, now_unix, max_age_secs)
}

/// A store that lives as long as its process.
#[derive(Debug)]
pub struct InMemoryMatStore {
    sealed: Option<Vec<u8>>,
}

/// What loading finds in kept bytes.
pub open spec fn found(kept: Option<Seq<u8>>) -> Result<Option<crate::pac::record::Ticket>, ()> {
    match kept {
        None => Ok(None),
        Some(b) => if crate::pac::record::is_record(b) {
            Ok(Some(crate::pac::record::unframed(b)))
        } else {
            Err(())
        },
    }
}

impl View for InMemoryMatStore {
    type V = Option<Seq<u8>>;

    closed spec fn view(&self) -> Option<Seq<u8>> {
        ticket_view(self.sealed)
    }
}

impl Default for InMemoryMatStore {
    fn default() -> (s: Self)
        ensures
            s@ is None,
    {
        InMemoryMatStore { sealed: None }
    }
}

impl MatStore for InMemoryMatStore {
    fn save(&mut self, record: &MatRecord) -> (r: Result<(), PacError>)
        ensures
            match r {
                Ok(_) => record@.ticket.len() <= crate::pac::record::MAX_TICKET_LEN && final(self)@
                    == Some(crate::pac::record::framed(record@)),
                Err(e) => record@.ticket.len() > crate::pac::record::MAX_TICKET_LEN && e == (
                PacError::TooLarge { len: record.ticket.len() }) && final(self)@ == old(self)@,
            },
    {
        match record.encode() {
            Err(e) => Err(e),
            Ok(bytes) => {
                self.sealed = Some(bytes);
                Ok(())
            },
        }
    }

    fn load(&self) -> (r: Result<Option<MatRecord>, PacError>)
        ensures
            match r {
                Ok(record) => found(self@) == Ok::<Option<crate::pac::record::Ticket>, ()>(
                    record_view(record),
                ),
                Err(e) => found(self@) is Err && e == PacError::BadRecord,
            },
    {
        match &self.sealed {
            None => Ok(None),
            Some(bytes) => match MatRecord::decode(bytes.as_slice()) {
                Ok(record) => Ok(Some(record)),
                Err(e) => Err(e),
            },
        }
    }

    fn clear(&mut self) -> (r: Result<(), PacError>)
        ensures
            r is Ok,
            final(self)@ is None,
    {
        self.sealed = None;
        Ok(())
    }
}

/// What a store kept of a saved record loads as that record.
pub proof fn law_saved_record_loads(t: crate::pac::record::Ticket)
    requires
        t.ticket.len() <= crate::pac::record::MAX_TICKET_LEN,
    ensures
        found(Some(crate::pac::record::framed(t))) == Ok::<Option<crate::pac::record::Ticket>, ()>(
            Some(t),
        ),
{
    crate::pac::record::law_record_round_trips(t);
}

/// A saved ticket is presented exactly while it is fresh: from its storage time
/// on, for `max_age_secs`.
pub proof fn law_saved_ticket_is_presented_while_fresh(
    t: crate::pac::record::Ticket,
    now_unix: u64,
    max_age_secs: u64,
)
    requires
        t.ticket.len() <= crate::pac::record::MAX_TICKET_LEN,
    ensures
        found(Some(crate::pac::record::framed(t))) matches Ok(record) && presented(
            record,
            now_unix,
            max_age_secs,
        ) == (if t.stored_at_unix <= now_unix && now_unix <= t.stored_at_unix + max_age_secs {
            Some(t.ticket)
        } else {
            None
        }),
{
    law_saved_record_loads(t);
}

/// A file-backed store: a record is framed and sealed before it is written, and
/// unsealed and parsed after it was read.
#[derive(Debug)]
pub struct FileMatStore<S: Sealer> {
    path: std::path::PathBuf,
    sealer: S,
}

impl<S: Sealer> FileMatStore<S> {
    /// Where the sealed record is kept.
    pub closed spec fn location(self) -> std::path::PathBuf {
        self.path
    }

    /// What seals the record.
    pub closed spec fn seals_with(self) -> S {
        self.sealer
    }

    /// A file store at `path` that uses `sealer`.
    pub fn new(path: std::path::PathBuf, sealer: S) -> (s: Self)
        ensures
            s.location() == path,
            s.seals_with() == sealer,
    {
        FileMatStore { path, sealer }
    }

    /// Where the sealed record is kept.
    pub fn path(&self) -> (p: &std::path::PathBuf)
        ensures
            *p == self.location(),
    {
        &self.path
    }

    /// The bytes to write for `record`: its framed form, sealed. An oversized
    /// ticket is refused before the sealer is asked.
    pub fn to_sealed(&self, record: &MatRecord) -> (r: Result<Vec<u8>, PacError>)
        ensures
            record@.ticket.len() > crate::pac::record::MAX_TICKET_LEN ==> r == Err::<
                Vec<u8>,
                PacError,
            >(PacError::TooLarge { len: record.ticket.len() }),
            record@.ticket.len() <= crate::pac::record::MAX_TICKET_LEN ==> exists|plain: &[u8]|
                plain@ == crate::pac::record::framed(record@) && #[trigger] call_ensures(
                    S::seal,
                    (&self.seals_with(), plain),
                    r,
                ),
    {
        match record.encode() {
            Err(e) => Err(e),
            Ok(bytes) => {
                let plain: &[u8] = bytes.as_slice();
                let r: Result<Vec<u8>, PacError> = self.sealer.seal(plain);
                assert(call_ensures(S::seal, (&self.seals_with(), plain), r));
                r
            },
        }
    }

    /// What saving comes to, given what writing the bytes gave.
    pub fn saved(&self, written: Result<(), std::io::ErrorKind>) -> (r: Result<(), PacError>)
        ensures
            match written {
                Ok(_) => r is Ok,
                Err(kind) => r matches Err(e) && e == PacError::Io(kind),
            },
    {
        match written {
            Ok(()) => Ok(()),
            Err(kind) => Err(PacError::Io(kind)),
        }
    }

    /// What loading comes to, given what reading the file gave: nothing if there is no
    /// file, in which case the sealer is not asked; another failure to read is an
    /// error of its kind.
    pub fn loaded(&self, read: Result<Vec<u8>, std::io::ErrorKind>) -> (r: Result<
        Option<MatRecord>,
        PacError,
    >)
        ensures
            match read {
                Err(kind) => if is_missing(kind) {
                    r matches Ok(None)
                } else {
                    r matches Err(e) && e == PacError::Io(kind)
                },
                Ok(bytes) => exists|sealed: &[u8], plain: Result<Vec<u8>, PacError>|
                    sealed@ == bytes@ && #[trigger] call_ensures(
                        S::unseal,
                        (&self.seals_with(), sealed),
                        plain,
                    ) && opened(plain, r),
            },
    {
        match read {
            Ok(bytes) => self.from_sealed(Some(bytes)),
            Err(kind) => if names_missing(&kind) {
                self.from_sealed(None)
            } else {
                Err(PacError::Io(kind))
            },
        }
    }

    /// What clearing comes to, given what removing the file gave: a missing file is no
    /// error.
    pub fn cleared(&self, removed: Result<(), std::io::ErrorKind>) -> (r: Result<(), PacError>)
        ensures
            match removed {
                Ok(_) => r is Ok,
                Err(kind) => if is_missing(kind) {
                    r is Ok
                } else {
                    r matches Err(e) && e == PacError::Io(kind)
                },
            },
    {
        match removed {
            Ok(()) => Ok(()),
            Err(kind) => if names_missing(&kind) {
                Ok(())
            } else {
                Err(PacError::Io(kind))
            },
        }
    }

    /// The record in the bytes that were read, or `None` where there was no file.
    pub fn from_sealed(&self, stored: Option<Vec<u8>>) -> (r: Result<Option<MatRecord>, PacError>)
        ensures
            match stored {
                None => r == Ok::<Option<MatRecord>, PacError>(None),
                Some(bytes) => exists|sealed: &[u8], plain: Result<Vec<u8>, PacError>|
                    sealed@ == bytes@ && #[trigger] call_ensures(
                        S::unseal,
                        (&self.seals_with(), sealed),
                        plain,
                    ) && opened(plain, r),
            },
    {
        match stored {
            None => Ok(None),
            Some(bytes) => {
                let sealed: &[u8] = bytes.as_slice();
                let plain: Result<Vec<u8>, PacError> = self.sealer.unseal(sealed);
                assert(call_ensures(S::unseal, (&self.seals_with(), sealed), plain));
                open_plain(plain)
            },
        }
    }
}

/// `r` is what comes of a record whose unsealing gave `plain`.
pub open spec fn opened(
    plain: Result<Vec<u8>, PacError>,
    r: Result<Option<MatRecord>, PacError>,
) -> bool {
    match plain {
        Err(e) => r == Err::<Option<MatRecord>, PacError>(e),
        Ok(bytes) => match r {
            Ok(record) => crate::pac::record::is_record(bytes@) && record_view(record) == Some(
                crate::pac::record::unframed(bytes@),
            ),
            Err(e) => !crate::pac::record::is_record(bytes@) && e == PacError::BadRecord,
        },
    }
}

/// A file store gives back the record it wrote, whenever unsealing undoes sealing:
/// what is opened of a record's framed form is that record.
pub proof fn law_unsealed_record_is_the_saved_one(
    t: crate::pac::record::Ticket,
    plain: Vec<u8>,
    r: Result<Option<MatRecord>, PacError>,
)
    requires
        t.ticket.len() <= crate::pac::record::MAX_TICKET_LEN,
        plain@ == crate::pac::record::framed(t),
        opened(Ok(plain), r),
    ensures
        r matches Ok(record) && record_view(record) == Some(t),
{
    crate::pac::record::law_record_round_trips(t);
}

/// Parse what a sealer unsealed.
pub fn open_plain(plain: Result<Vec<u8>, PacError>) -> (r: Result<Option<MatRecord>, PacError>)
    ensures
        opened(plain, r),
{
    match plain {
        Err(e) => Err(e),
        Ok(bytes) => match MatRecord::decode(bytes.as_slice()) {
            Ok(record) => Ok(Some(record)),
            Err(e) => Err(e),
        },
    }
}

/// The store in memory gives back what was saved last, and nothing once it was cleared. A
/// ticket over 65536 octets is not saved, and leaves what was kept.
pub proof fn law_store_gives_back_what_was_saved(
    s: &mut InMemoryMatStore,
    record: MatRecord,
    w: Result<(), PacError>,
    r: Result<Option<MatRecord>, PacError>,
    c: &mut InMemoryMatStore,
    cleared: Result<(), PacError>,
    q: Result<Option<MatRecord>, PacError>,
)
    requires
        call_ensures(<InMemoryMatStore as MatStore>::save, (s, &record), w),
        call_ensures(<InMemoryMatStore as MatStore>::load, (&*final(s),), r),
        call_ensures(<InMemoryMatStore as MatStore>::clear, (c,), cleared),
        call_ensures(<InMemoryMatStore as MatStore>::load, (&*final(c),), q),
    ensures
        w is Ok <==> record.ticket@.len() <= 65536,
        w is Ok ==> (r matches Ok(Some(m)) && m.ticket@ == record.ticket@ && m.stored_at_unix
            == record.stored_at_unix),
        w is Err ==> final(s)@ == old(s)@,
        cleared is Ok,
        q matches Ok(None),
{
    if w is Ok {
        law_saved_record_loads(record@);
    }
}

/// A new store holds nothing.
pub proof fn law_new_store_holds_nothing(
    s: InMemoryMatStore,
    r: Result<Option<MatRecord>, PacError>,
)
    requires
        call_ensures(<InMemoryMatStore as Default>::default, (), s),
        call_ensures(<InMemoryMatStore as MatStore>::load, (&s,), r),
    ensures
        r matches Ok(None),
{
}

/// A ticket is presented exactly if a record was loaded and it is no older than the limit:
/// from its storage time on, for as many seconds. An error of the store is handed on.
pub proof fn law_only_a_fresh_ticket_is_presented(
    loaded: Result<Option<MatRecord>, PacError>,
    now_unix: u64,
    max_age_secs: u64,
    r: Result<Option<Vec<u8>>, PacError>,
)
    requires
        call_ensures(ticket_if_fresh, (loaded, now_unix, max_age_secs), r),
    ensures
        loaded matches Err(e) ==> r == Err::<Option<Vec<u8>>, PacError>(e),
        loaded is Ok ==> r is Ok,
        loaded matches Ok(None) ==> r matches Ok(None),
        loaded matches Ok(Some(m)) ==> {
            let fresh = m.stored_at_unix <= now_unix <= m.stored_at_unix + max_age_secs;
            &&& fresh ==> (r matches Ok(Some(t)) && t@ == m.ticket@)
            &&& !fresh ==> r matches Ok(None)
        },
{
}

/// The ticket that a store offers is the one of the record that it loads, as long as that
/// is fresh.
pub proof fn law_store_offers_its_fresh_ticket<S: MatStore>(
    store: S,
    now_unix: u64,
    max_age_secs: u64,
    loaded: Result<Option<MatRecord>, PacError>,
    r: Result<Option<Vec<u8>>, PacError>,
)
    requires
        call_ensures(fresh_ticket::<S>, (&store, now_unix, max_age_secs), r),
        forall|l: Result<Option<MatRecord>, PacError>| #[trigger]
            call_ensures(S::load, (&store,), l) ==> l == loaded,
    ensures
        loaded matches Err(e) ==> r == Err::<Option<Vec<u8>>, PacError>(e),
        loaded matches Ok(None) ==> r matches Ok(None),
        loaded matches Ok(Some(m)) ==> {
            let fresh = m.stored_at_unix <= now_unix <= m.stored_at_unix + max_age_secs;
            &&& fresh ==> (r matches Ok(Some(t)) && t@ == m.ticket@)
            &&& !fresh ==> r matches Ok(None)
        },
{
}

/// A file store gives back the record that it wrote, whenever unsealing undoes sealing:
/// what loading finds in the sealed octets is that record.
pub proof fn law_file_store_round_trips<S: Sealer>(
    store: FileMatStore<S>,
    record: MatRecord,
    sealed: Vec<u8>,
    r: Result<Option<MatRecord>, PacError>,
)
    requires
        call_ensures(
            FileMatStore::<S>::to_sealed,
            (&store, &record),
            Ok::<Vec<u8>, PacError>(sealed),
        ),
        call_ensures(
            FileMatStore::<S>::loaded,
            (&store, Ok::<Vec<u8>, std::io::ErrorKind>(sealed)),
            r,
        ),
        forall|plain: &[u8], locked: &[u8], back: Result<Vec<u8>, PacError>|
            #[trigger] call_ensures(
                S::seal,
                (&store.seals_with(), plain),
                Ok::<Vec<u8>, PacError>(sealed),
            ) && locked@ == sealed@ && #[trigger] call_ensures(
                S::unseal,
                (&store.seals_with(), locked),
                back,
            ) ==> (back matches Ok(v) && v@ == plain@),
    ensures
        record.ticket@.len() <= 65536,
        r matches Ok(Some(m)) && m.ticket@ == record.ticket@ && m.stored_at_unix
            == record.stored_at_unix,
{
    crate::pac::record::law_record_round_trips(record@);
}

/// What cannot be unsealed is an error of the sealer's, and what was unsealed but is no
/// record an error of the record's: neither is ever a record.
pub proof fn law_unsealed_octets_must_be_a_record(
    plain: Result<Vec<u8>, PacError>,
    r: Result<Option<MatRecord>, PacError>,
    parsed: Result<MatRecord, PacError>,
    bytes: &[u8],
)
    requires
        call_ensures(open_plain, (plain,), r),
        call_ensures(MatRecord::decode, (bytes,), parsed),
        plain matches Ok(v) ==> v@ == bytes@,
    ensures
        plain matches Err(e) ==> r == Err::<Option<MatRecord>, PacError>(e),
        plain is Ok ==> (r is Ok <==> parsed is Ok),
        plain is Ok && r is Ok ==> (r matches Ok(Some(m)) && m@ == parsed->Ok_0@),
        plain is Ok ==> (r matches Err(e) ==> e == PacError::BadRecord),
{
}

/// A missing file holds no record and needs no clearing; any other failure to read, write
/// or remove one is reported with its kind. The sealer is not asked where nothing was
/// read.
pub proof fn law_file_errors_keep_their_kind<S: Sealer>(
    store: FileMatStore<S>,
    kind: std::io::ErrorKind,
    read: Result<Option<MatRecord>, PacError>,
    written: Result<(), PacError>,
    removed: Result<(), PacError>,
    none: Result<Option<MatRecord>, PacError>,
)
    requires
        call_ensures(
            FileMatStore::<S>::loaded,
            (&store, Err::<Vec<u8>, std::io::ErrorKind>(kind)),
            read,
        ),
        call_ensures(
            FileMatStore::<S>::saved,
            (&store, Err::<(), std::io::ErrorKind>(kind)),
            written,
        ),
        call_ensures(
            FileMatStore::<S>::cleared,
            (&store, Err::<(), std::io::ErrorKind>(kind)),
            removed,
        ),
        call_ensures(FileMatStore::<S>::from_sealed, (&store, None::<Vec<u8>>), none),
    ensures
        is_missing(kind) ==> (read matches Ok(None)) && removed is Ok,
        !is_missing(kind) ==> (read matches Err(PacError::Io(k)) && k == kind) && (
        removed matches Err(PacError::Io(k)) && k == kind),
        written matches Err(PacError::Io(k)) && k == kind,
        none matches Ok(None),
{
}

/// Writing and removing without an error are successes.
pub proof fn law_file_success_is_success<S: Sealer>(
    store: FileMatStore<S>,
    written: Result<(), PacError>,
    removed: Result<(), PacError>,
)
    requires
        call_ensures(FileMatStore::<S>::saved, (&store, Ok::<(), std::io::ErrorKind>(())), written),
        call_ensures(
            FileMatStore::<S>::cleared,
            (&store, Ok::<(), std::io::ErrorKind>(())),
            removed,
        ),
    ensures
        written is Ok,
        removed is Ok,
{
}

/// An oversized ticket is refused before it is sealed, and a file store keeps its path and
/// its sealer.
pub proof fn law_oversized_ticket_is_not_sealed<S: Sealer>(
    path: std::path::PathBuf,
    sealer: S,
    store: FileMatStore<S>,
    p: &std::path::PathBuf,
    record: MatRecord,
    r: Result<Vec<u8>, PacError>,
)
    requires
        call_ensures(FileMatStore::<S>::new, (path, sealer), store),
        call_ensures(FileMatStore::<S>::path, (&store,), p),
        call_ensures(FileMatStore::<S>::to_sealed, (&store, &record), r),
    ensures
        *p == path,
        store.seals_with() == sealer,
        record.ticket@.len() > 65536 ==> (r matches Err(PacError::TooLarge { len }) && len
            == record.ticket@.len()),
{
}

} // verus!
