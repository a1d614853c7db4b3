//! Ticket record framing, store round-trips, and freshness.
use std::io::ErrorKind::{NotFound, PermissionDenied};
use usg_supplicant::pac::error::{seal_failure, PacError};
use usg_supplicant::pac::record::MatRecord;
use usg_supplicant::pac::store::{
    fresh_ticket, open_plain, ticket_if_fresh, FileMatStore, InMemoryMatStore, MatStore, Sealer,
};

fn rec(ticket: &[u8], stored_at: u64) -> MatRecord {
    MatRecord {
        ticket: ticket.to_vec(),
        stored_at_unix: stored_at,
    }
}

#[test]
fn record_roundtrips() {
    let r = rec(b"opaque-server-ticket", 1_700_000_000);
    let bytes = r.encode().unwrap();
    assert!(MatRecord::decode(&bytes).unwrap() == r);
}

#[test]
fn empty_ticket_roundtrips() {
    let r = rec(b"", 42);
    let bytes = r.encode().unwrap();
    let back = MatRecord::decode(&bytes).unwrap();
    assert!(back == r);
    assert!(back.ticket.is_empty());
}

#[test]
fn decode_rejects_bad_magic_and_truncation() {
    assert!(matches!(
        MatRecord::decode(b"XXXX"),
        Err(PacError::BadRecord)
    ));
    assert!(matches!(MatRecord::decode(&[]), Err(PacError::BadRecord)));
    // Valid header claiming 10 ticket bytes, but none supplied.
    let mut bytes = b"MAT1".to_vec();
    bytes.extend_from_slice(&7u64.to_be_bytes());
    bytes.extend_from_slice(&10u32.to_be_bytes());
    assert!(matches!(
        MatRecord::decode(&bytes),
        Err(PacError::BadRecord)
    ));
}

#[test]
fn decode_rejects_trailing_garbage() {
    let mut bytes = rec(b"abc", 1).encode().unwrap();
    bytes.push(0xFF); // extra byte beyond the declared ticket
    assert!(matches!(
        MatRecord::decode(&bytes),
        Err(PacError::BadRecord)
    ));
}

#[test]
fn oversized_ticket_is_rejected() {
    let big = vec![0u8; 64 * 1024 + 1];
    assert!(matches!(
        rec(&big, 1).encode(),
        Err(PacError::TooLarge { .. })
    ));
}

#[test]
fn freshness_window() {
    let r = rec(b"t", 1000);
    assert!(r.is_fresh(1000, 60)); // same instant
    assert!(r.is_fresh(1060, 60)); // at the boundary
    assert!(!r.is_fresh(1061, 60)); // just past
    assert!(!r.is_fresh(999, 60)); // clock moved backwards -> not fresh
}

#[test]
fn in_memory_store_save_load_clear() {
    let mut store = InMemoryMatStore::default();
    assert!(store.load().unwrap().is_none());

    let r = rec(b"ticket-1", 5);
    store.save(&r).unwrap();
    assert!(store.load().unwrap().unwrap() == r);

    store.clear().unwrap();
    assert!(store.load().unwrap().is_none());
}

#[test]
fn fresh_ticket_returns_only_when_fresh() {
    let mut store = InMemoryMatStore::default();
    store.save(&rec(b"present-me", 1000)).unwrap();

    assert_eq!(
        fresh_ticket(&store, 1030, 60).unwrap().as_deref(),
        Some(&b"present-me"[..])
    );
    // Stale -> not returned (server would reject anyway; we skip presenting).
    assert_eq!(fresh_ticket(&store, 2000, 60).unwrap(), None);
    // Empty store -> none.
    store.clear().unwrap();
    assert_eq!(fresh_ticket(&store, 1030, 60).unwrap(), None);
}

#[test]
fn framed_form_is_exact() {
    let bytes = rec(&[0xAA, 0xBB], 0x0102_0304_0506_0708).encode().unwrap();
    assert_eq!(
        bytes,
        [b'M', b'A', b'T', b'1', 1, 2, 3, 4, 5, 6, 7, 8, 0, 0, 0, 2, 0xAA, 0xBB]
    );
    // The largest ticket is accepted, both ways.
    let largest = rec(&vec![3u8; 64 * 1024], 9);
    let bytes = largest.encode().unwrap();
    assert!(MatRecord::decode(&bytes).unwrap() == largest);
}

#[test]
fn an_oversized_save_keeps_what_was_there() {
    let mut store = InMemoryMatStore::default();
    store.save(&rec(b"kept", 1)).unwrap();
    let big = rec(&vec![0u8; 64 * 1024 + 1], 2);
    assert!(matches!(store.save(&big), Err(PacError::TooLarge { len: 65537 })));
    assert!(store.load().unwrap().unwrap() == rec(b"kept", 1));
}

/// Flips every octet, and refuses what does not start with the flipped magic.
struct Flip;

impl Sealer for Flip {
    fn seal(&self, plaintext: &[u8]) -> Result<Vec<u8>, PacError> {
        Ok(plaintext.iter().map(|b| !b).collect())
    }
    fn unseal(&self, ciphertext: &[u8]) -> Result<Vec<u8>, PacError> {
        if ciphertext.first() == Some(&!b'M') {
            Ok(ciphertext.iter().map(|b| !b).collect())
        } else {
            Err(seal_failure(false, -5))
        }
    }
}

#[test]
fn file_store_seals_what_it_writes_and_unseals_what_it_reads() {
    let store = FileMatStore::new("some/path".into(), Flip);
    assert_eq!(store.path(), &std::path::PathBuf::from("some/path"));
    let record = rec(b"ticket-on-disk", 12345);
    let sealed = store.to_sealed(&record).unwrap();
    assert_eq!(sealed[0], !b'M');
    assert!(store.from_sealed(Some(sealed)).unwrap().unwrap() == record);
    // No file, no record.
    assert!(store.from_sealed(None).unwrap().is_none());
    // Tampered bytes fail to unseal; unsealed rubbish is no record.
    assert!(matches!(
        store.from_sealed(Some(vec![1, 2])),
        Err(PacError::Unseal { detail: -5 })
    ));
    assert!(matches!(
        store.from_sealed(Some(vec![!b'M', 0])),
        Err(PacError::BadRecord)
    ));
    let big = rec(&vec![0u8; 64 * 1024 + 1], 2);
    assert!(matches!(store.to_sealed(&big), Err(PacError::TooLarge { .. })));
}

#[test]
fn loaded_results_decide_what_is_presented() {
    assert!(matches!(
        ticket_if_fresh(Err(PacError::Locked), 5, 5),
        Err(PacError::Locked)
    ));
    assert_eq!(ticket_if_fresh(Ok(None), 5, 5).unwrap(), None);
    assert_eq!(
        ticket_if_fresh(Ok(Some(rec(b"x", 5))), 5, 0).unwrap(),
        Some(b"x".to_vec())
    );
    assert!(matches!(open_plain(Err(PacError::BadRecord)), Err(PacError::BadRecord)));
}

#[test]
fn ticket_errors_in_words() {
    assert_eq!(
        PacError::TooLarge { len: 70000 }.message(),
        "MAT ticket length 70000 exceeds maximum"
    );
    assert_eq!(
        seal_failure(true, 13).message(),
        "DPAPI protect failed (status 13)"
    );
    assert_eq!(
        seal_failure(false, -1).message(),
        "DPAPI unprotect failed (status -1)"
    );
    assert_eq!(
        PacError::Io(std::io::ErrorKind::PermissionDenied).message(),
        "MAT storage I/O error: PermissionDenied"
    );
    assert_eq!(PacError::BadRecord.message(), "stored MAT record is malformed");
    assert_eq!(PacError::Locked.message(), "MAT store lock poisoned");
}

#[test]
fn a_shown_record_hides_its_ticket() {
    let shown = rec(b"ticket", 12345).redacted();
    assert_eq!(shown, "MatRecord { ticket_len: 6, stored_at_unix: 12345 }");
    assert_eq!(rec(b"secret", 12345).redacted(), shown);
}

#[test]
fn file_results_decide_what_the_store_gives() {
    let store = FileMatStore::new("some/path".into(), Flip);
    let record = rec(b"ticket-on-disk", 12345);
    let sealed = store.to_sealed(&record).unwrap();
    assert!(store.loaded(Ok(sealed)).unwrap().unwrap() == record);
    assert!(store.loaded(Err(NotFound)).unwrap().is_none());
    assert!(matches!(
        store.loaded(Err(PermissionDenied)),
        Err(PacError::Io(PermissionDenied))
    ));
    assert!(store.saved(Ok(())).is_ok());
    assert!(matches!(store.saved(Err(NotFound)), Err(PacError::Io(NotFound))));
    assert!(store.cleared(Ok(())).is_ok());
    assert!(store.cleared(Err(NotFound)).is_ok());
    assert!(matches!(
        store.cleared(Err(PermissionDenied)),
        Err(PacError::Io(PermissionDenied))
    ));
}
