//! Errors of ticket persistence.
use crate::text::{
    decimal, joined, law_contained_text_stands_inside, lemma_contains_around, lemma_contains_at, signed,
    stands, text_contains,
};
use vstd::prelude::*;
use vstd::string::StringExecFns;

verus! {

/// `std::io::ErrorKind`, carried through as it is.
#[verifier::external_type_specification]
#[verifier::external_body]
pub struct ExErrorKind(std::io::ErrorKind);

/// Errors from storing, loading, sealing or decoding a ticket.
#[derive(Debug)]
pub enum PacError {
    /// The stored bytes are not a valid record.
    BadRecord,
    /// The ticket exceeds the largest encodable size.
    TooLarge {
        /// The oversized length.
        len: usize,
    },
    /// Sealing failed.
    Seal {
        /// The platform's status.
        detail: i32,
    },
    /// Unsealing failed: wrong machine, tampered or corrupt.
    Unseal {
        /// The platform's status.
        detail: i32,
    },
    /// Filesystem error.
    Io(std::io::ErrorKind),
    /// The store's lock was poisoned by a panic in another thread.
    Locked,
}

/// How Rust's `Debug` shows an I/O error kind.
pub uninterp spec fn kind_text(kind: std::io::ErrorKind) -> Seq<char>;

/// `format!("{kind:?}")`: the name of an I/O error kind, which the kind alone
/// decides.
#[verifier::external_body]
fn show_kind(kind: &std::io::ErrorKind) -> (t: String)
    ensures
        t@ == kind_text(*kind),
{
    format!("{kind:?}")
}

impl PacError {
    /// What the error says, in words.
    pub open spec fn words(self) -> Seq<char> {
        match self {
            PacError::BadRecord => "stored MAT record is malformed"@,
            PacError::TooLarge { len } => "MAT ticket length "@ + crate::text::decimal_text(
                len as nat,
            ) + " exceeds maximum"@,
            PacError::Seal { detail } => "DPAPI protect failed (status "@
                + crate::text::signed_text(detail as int) + ")"@,
            PacError::Unseal { detail } => "DPAPI unprotect failed (status "@
                + crate::text::signed_text(detail as int) + ")"@,
            PacError::Io(kind) => "MAT storage I/O error: "@ + kind_text(kind),
            PacError::Locked => "MAT store lock poisoned"@,
        }
    }

    /// What the error says, in words.
    pub fn message(&self) -> (t: String)
        ensures
            t@ == self.words(),
    {
        match self {
            PacError::BadRecord => "stored MAT record is malformed".to_owned(),
            PacError::TooLarge { len } => joined(
                "MAT ticket length ",
                decimal(*len as u64).as_str(),
                " exceeds maximum",
            ),
            PacError::Seal { detail } => joined(
                "DPAPI protect failed (status ",
                signed(*detail).as_str(),
                ")",
            ),
            PacError::Unseal { detail } => joined(
                "DPAPI unprotect failed (status ",
                signed(*detail).as_str(),
                ")",
            ),
            PacError::Io(kind) => {
                let mut t: String = "MAT storage I/O error: ".to_owned();
                t.append(show_kind(kind).as_str());
                t
            },
            PacError::Locked => "MAT store lock poisoned".to_owned(),
        }
    }
}

/// The error of a failed seal (`protect`) or unseal call.
pub fn seal_failure(protect: bool, detail: i32) -> (e: PacError)
    ensures
        e == (if protect {
            PacError::Seal { detail }
        } else {
            PacError::Unseal { detail }
        }),
{
    if protect {
        PacError::Seal { detail }
    } else {
        PacError::Unseal { detail }
    }
}

/// A failed seal and a failed unseal are told apart, each with its status.
pub proof fn law_sealing_and_unsealing_fail_apart(protect: bool, detail: i32, e: PacError)
    requires
        call_ensures(seal_failure, (protect, detail), e),
    ensures
        protect ==> (e matches PacError::Seal { detail: d } && d == detail),
        !protect ==> (e matches PacError::Unseal { detail: d } && d == detail),
{
}

/// Each message names what went wrong, and tells the length, the status or the kind that
/// comes with it.
pub proof fn law_ticket_messages_name_the_failure(e: PacError, t: String)
    requires
        call_ensures(PacError::message, (&e,), t),
    ensures
        e is BadRecord ==> text_contains(t@, "malformed"@),
        e matches PacError::TooLarge { len } ==> text_contains(t@, "exceeds maximum"@) && text_contains(t@, crate::text::decimal_text(len as nat)),
        e matches PacError::Seal { detail } ==> text_contains(t@, " protect failed"@) && text_contains(t@, crate::text::signed_text(detail as int)),
        e matches PacError::Unseal { detail } ==> text_contains(t@, "unprotect failed"@) && text_contains(t@, crate::text::signed_text(detail as int)),
        e matches PacError::Io(kind) ==> text_contains(t@, "I/O error"@) && text_contains(t@, kind_text(kind)),
        e is Locked ==> text_contains(t@, "lock poisoned"@),
{
    match e {
        PacError::BadRecord => {
            reveal_strlit("stored MAT record is malformed");
            reveal_strlit("malformed");
            assert(stands("stored MAT record is malformed"@, 21, "malformed"@, 9)) by {
                reveal_with_fuel(stands, 10);
            }
            lemma_contains_at("stored MAT record is malformed"@, 21, "malformed"@);
        },
        PacError::TooLarge { len } => {
            reveal_strlit(" exceeds maximum");
            reveal_strlit("exceeds maximum");
            assert(stands(" exceeds maximum"@, 1, "exceeds maximum"@, 15)) by {
                reveal_with_fuel(stands, 16);
            }
            lemma_contains_at(" exceeds maximum"@, 1, "exceeds maximum"@);
            let part = crate::text::decimal_text(len as nat);
            let pre = "MAT ticket length "@;
            let post = " exceeds maximum"@;
            assert(t@ =~= pre + part + post);
            law_contained_text_stands_inside(pre, part, post);
            lemma_contains_around(pre + part, post, Seq::empty(), "exceeds maximum"@);
            assert(t@ =~= (pre + part) + post + Seq::<char>::empty());
        },
        PacError::Seal { detail } => {
            reveal_strlit("DPAPI protect failed (status ");
            reveal_strlit(" protect failed");
            assert(stands("DPAPI protect failed (status "@, 5, " protect failed"@, 15)) by {
                reveal_with_fuel(stands, 16);
            }
            lemma_contains_at("DPAPI protect failed (status "@, 5, " protect failed"@);
            let part = crate::text::signed_text(detail as int);
            let pre = "DPAPI protect failed (status "@;
            let post = ")"@;
            assert(t@ =~= pre + part + post);
            law_contained_text_stands_inside(pre, part, post);
            lemma_contains_around(Seq::empty(), pre, part + post, " protect failed"@);
            assert(t@ =~= Seq::<char>::empty() + pre + (part + post));
        },
        PacError::Unseal { detail } => {
            reveal_strlit("DPAPI unprotect failed (status ");
            reveal_strlit("unprotect failed");
            assert(stands("DPAPI unprotect failed (status "@, 6, "unprotect failed"@, 16)) by {
                reveal_with_fuel(stands, 17);
            }
            lemma_contains_at("DPAPI unprotect failed (status "@, 6, "unprotect failed"@);
            let part = crate::text::signed_text(detail as int);
            let pre = "DPAPI unprotect failed (status "@;
            let post = ")"@;
            assert(t@ =~= pre + part + post);
            law_contained_text_stands_inside(pre, part, post);
            lemma_contains_around(Seq::empty(), pre, part + post, "unprotect failed"@);
            assert(t@ =~= Seq::<char>::empty() + pre + (part + post));
        },
        PacError::Io(kind) => {
            reveal_strlit("MAT storage I/O error: ");
            reveal_strlit("I/O error");
            assert(stands("MAT storage I/O error: "@, 12, "I/O error"@, 9)) by {
                reveal_with_fuel(stands, 10);
            }
            lemma_contains_at("MAT storage I/O error: "@, 12, "I/O error"@);
            let part = kind_text(kind);
            let pre = "MAT storage I/O error: "@;
            let post = Seq::<char>::empty();
            assert(t@ =~= pre + part + post);
            law_contained_text_stands_inside(pre, part, post);
            lemma_contains_around(Seq::empty(), pre, part + post, "I/O error"@);
            assert(t@ =~= Seq::<char>::empty() + pre + (part + post));
        },
        PacError::Locked => {
            reveal_strlit("MAT store lock poisoned");
            reveal_strlit("lock poisoned");
            assert(stands("MAT store lock poisoned"@, 10, "lock poisoned"@, 13)) by {
                reveal_with_fuel(stands, 14);
            }
            lemma_contains_at("MAT store lock poisoned"@, 10, "lock poisoned"@);
        },
    }
}

} // verus!
