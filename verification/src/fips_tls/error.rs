//! Errors of the FIPS TLS backend.
use crate::text::{
    joined, law_contained_text_stands_inside, lemma_contains_around, lemma_contains_at, stands,
    text_contains,
};
use vstd::prelude::*;
use vstd::string::StringExecFns;

verus! {

/// `rustls::Error`, carried through as it is.
#[verifier::external_type_specification]
#[verifier::external_body]
pub struct ExRustlsError(rustls::Error);

/// Errors from configuring or running the TLS 1.3 backend.
#[derive(Debug)]
pub enum FipsTlsError {
    /// The active provider is not the validated module.
    NotFips,
    /// A negotiated parameter fell outside the allow-list.
    DisallowedParameter {
        /// What was rejected.
        what: &'static str,
    },
    /// The expected server name is not a valid name.
    BadServerName,
    /// The handshake completed without negotiated parameters.
    NoNegotiatedParameters,
    /// The handshake was to be finished while it was still in progress.
    HandshakeIncomplete,
    /// A secret-producing method was called before the parameters were verified.
    NotEstablished,
    /// An error of the TLS library.
    Rustls(rustls::Error),
}

/// How `rustls::Error` is shown.
pub uninterp spec fn tls_error_text(e: rustls::Error) -> Seq<char>;

/// `rustls::Error` as its `Display` shows it: a text that the error alone decides.
#[verifier::external_body]
fn show_tls_error(e: &rustls::Error) -> (t: String)
    ensures
        t@ == tls_error_text(*e),
{
    e.to_string()
}

impl FipsTlsError {
    /// What the error says, in words.
    pub open spec fn words(self) -> Seq<char> {
        match self {
            FipsTlsError::NotFips =>
                "crypto provider is not the FIPS-validated AWS-LC module (build without the `fips` feature)"@,
            FipsTlsError::DisallowedParameter { what } => "negotiated "@ + what@
                + " is outside the FIPS allow-list"@,
            FipsTlsError::BadServerName => "expected server name is not a valid DNS name"@,
            FipsTlsError::NoNegotiatedParameters => "handshake produced no negotiated parameters"@,
            FipsTlsError::HandshakeIncomplete => "handshake is not yet complete"@,
            FipsTlsError::NotEstablished => "tunnel not finalized: call finish_handshake first"@,
            FipsTlsError::Rustls(e) => "rustls error: "@ + tls_error_text(e),
        }
    }

    /// What the error says, in words.
    pub fn message(&self) -> (t: String)
        ensures
            t@ == self.words(),
    {
        match self {
            FipsTlsError::NotFips =>
                "crypto provider is not the FIPS-validated AWS-LC module (build without the `fips` feature)".to_owned(),
            FipsTlsError::DisallowedParameter { what } => joined(
                "negotiated ",
                what,
                " is outside the FIPS allow-list",
            ),
            FipsTlsError::BadServerName => "expected server name is not a valid DNS name".to_owned(),
            FipsTlsError::NoNegotiatedParameters =>
                "handshake produced no negotiated parameters".to_owned(),
            FipsTlsError::HandshakeIncomplete => "handshake is not yet complete".to_owned(),
            FipsTlsError::NotEstablished =>
                "tunnel not finalized: call finish_handshake first".to_owned(),
            FipsTlsError::Rustls(e) => {
                let shown: String = show_tls_error(e);
                let mut t: String = "rustls error: ".to_owned();
                t.append(shown.as_str());
                t
            },
        }
    }
}

/// Each message names what went wrong, and tells the parameter or the error that comes
/// with it.
pub proof fn law_tls_messages_name_the_failure(e: FipsTlsError, t: String)
    requires
        call_ensures(FipsTlsError::message, (&e,), t),
    ensures
        e is NotFips ==> text_contains(t@, "not the FIPS-validated"@),
        e matches FipsTlsError::DisallowedParameter { what } ==> text_contains(t@, "outside the FIPS allow-list"@) && text_contains(t@, what@),
        e is BadServerName ==> text_contains(t@, "not a valid DNS name"@),
        e is NoNegotiatedParameters ==> text_contains(t@, "no negotiated parameters"@),
        e is HandshakeIncomplete ==> text_contains(t@, "not yet complete"@),
        e is NotEstablished ==> text_contains(t@, "not finalized"@),
        e matches FipsTlsError::Rustls(inner) ==> text_contains(t@, "rustls error"@) && text_contains(t@, tls_error_text(inner)),
{
    match e {
        FipsTlsError::NotFips => {
            reveal_strlit("crypto provider is not the FIPS-validated AWS-LC module (build without the `fips` feature)");
            reveal_strlit("not the FIPS-validated");
            assert(stands("crypto provider is not the FIPS-validated AWS-LC module (build without the `fips` feature)"@, 19, "not the FIPS-validated"@, 22)) by {
                reveal_with_fuel(stands, 23);
            }
            lemma_contains_at("crypto provider is not the FIPS-validated AWS-LC module (build without the `fips` feature)"@, 19, "not the FIPS-validated"@);
        },
        FipsTlsError::DisallowedParameter { what } => {
            reveal_strlit(" is outside the FIPS allow-list");
            reveal_strlit("outside the FIPS allow-list");
            assert(stands(" is outside the FIPS allow-list"@, 4, "outside the FIPS allow-list"@, 27)) by {
                reveal_with_fuel(stands, 28);
            }
            lemma_contains_at(" is outside the FIPS allow-list"@, 4, "outside the FIPS allow-list"@);
            let part = what@;
            let pre = "negotiated "@;
            let post = " is outside the FIPS allow-list"@;
            assert(t@ =~= pre + part + post);
            law_contained_text_stands_inside(pre, part, post);
            lemma_contains_around(pre + part, post, Seq::empty(), "outside the FIPS allow-list"@);
            assert(t@ =~= (pre + part) + post + Seq::<char>::empty());
        },
        FipsTlsError::BadServerName => {
            reveal_strlit("expected server name is not a valid DNS name");
            reveal_strlit("not a valid DNS name");
            assert(stands("expected server name is not a valid DNS name"@, 24, "not a valid DNS name"@, 20)) by {
                reveal_with_fuel(stands, 21);
            }
            lemma_contains_at("expected server name is not a valid DNS name"@, 24, "not a valid DNS name"@);
        },
        FipsTlsError::NoNegotiatedParameters => {
            reveal_strlit("handshake produced no negotiated parameters");
            reveal_strlit("no negotiated parameters");
            assert(stands("handshake produced no negotiated parameters"@, 19, "no negotiated parameters"@, 24)) by {
                reveal_with_fuel(stands, 25);
            }
            lemma_contains_at("handshake produced no negotiated parameters"@, 19, "no negotiated parameters"@);
        },
        FipsTlsError::HandshakeIncomplete => {
            reveal_strlit("handshake is not yet complete");
            reveal_strlit("not yet complete");
            assert(stands("handshake is not yet complete"@, 13, "not yet complete"@, 16)) by {
                reveal_with_fuel(stands, 17);
            }
            lemma_contains_at("handshake is not yet complete"@, 13, "not yet complete"@);
        },
        FipsTlsError::NotEstablished => {
            reveal_strlit("tunnel not finalized: call finish_handshake first");
            reveal_strlit("not finalized");
            assert(stands("tunnel not finalized: call finish_handshake first"@, 7, "not finalized"@, 13)) by {
                reveal_with_fuel(stands, 14);
            }
            lemma_contains_at("tunnel not finalized: call finish_handshake first"@, 7, "not finalized"@);
        },
        FipsTlsError::Rustls(inner) => {
            reveal_strlit("rustls error: ");
            reveal_strlit("rustls error");
            assert(stands("rustls error: "@, 0, "rustls error"@, 12)) by {
                reveal_with_fuel(stands, 13);
            }
            lemma_contains_at("rustls error: "@, 0, "rustls error"@);
            let part = tls_error_text(inner);
            let pre = "rustls error: "@;
            let post = Seq::<char>::empty();
            assert(t@ =~= pre + part + post);
            law_contained_text_stands_inside(pre, part, post);
            lemma_contains_around(Seq::empty(), pre, part + post, "rustls error"@);
            assert(t@ =~= Seq::<char>::empty() + pre + (part + post));
        },
    }
}

} // verus!
