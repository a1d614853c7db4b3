//! Errors of credential discovery, selection and signing.
use crate::text::{
    decimal, joined, law_contained_text_stands_inside, lemma_contains_around, lemma_contains_at, signed,
    stands, text_contains,
};
use vstd::prelude::*;
use vstd::string::StringExecFns;

verus! {

/// Errors from the credential providers.
#[derive(Debug, Clone, Copy, PartialEq, Eq, Structural)]
pub enum CredError {
    /// No certificate in the store matched the criteria.
    NoMatchingCert,
    /// More than one certificate matched.
    AmbiguousMatch {
        /// How many certificates matched.
        count: usize,
    },
    /// A certificate could not be parsed as X.509.
    BadCertificate,
    /// The selected certificate has no usable signing key in the store.
    NoSigningKey,
    /// The key store failed.
    StoreFailure {
        /// The platform's status.
        detail: i32,
    },
    /// A raw ECDSA signature could not be DER-encoded.
    BadSignature,
    /// The certificate's key algorithm or curve is not supported.
    UnsupportedKey,
}

impl CredError {
    /// What the error says, in words.
    pub open spec fn words(self) -> Seq<char> {
        match self {
            CredError::NoMatchingCert => "no certificate matched the selection criteria"@,
            CredError::AmbiguousMatch { count } => crate::text::decimal_text(
                count as nat,
            ) + " certificates matched; criteria not unique"@,
            CredError::BadCertificate => "certificate could not be parsed as X.509"@,
            CredError::NoSigningKey => "selected certificate has no usable signing key"@,
            CredError::StoreFailure { detail } => "key store failure (status "@
                + crate::text::signed_text(detail as int) + ")"@,
            CredError::BadSignature => "raw ECDSA signature could not be DER-encoded"@,
            CredError::UnsupportedKey => "unsupported certificate key algorithm/curve"@,
        }
    }

    /// What the error says, in words.
    pub fn message(&self) -> (t: String)
        ensures
            t@ == self.words(),
    {
        match self {
            CredError::NoMatchingCert => "no certificate matched the selection criteria".to_owned(),
            CredError::AmbiguousMatch { count } => {
                let mut t: String = decimal(*count as u64);
                t.append(" certificates matched; criteria not unique");
                t
            },
            CredError::BadCertificate => "certificate could not be parsed as X.509".to_owned(),
            CredError::NoSigningKey => "selected certificate has no usable signing key".to_owned(),
            CredError::StoreFailure { detail } => joined(
                "key store failure (status ",
                signed(*detail).as_str(),
                ")",
            ),
            CredError::BadSignature => "raw ECDSA signature could not be DER-encoded".to_owned(),
            CredError::UnsupportedKey => "unsupported certificate key algorithm/curve".to_owned(),
        }
    }
}

/// Each message names what went wrong, and tells the number that comes with it.
pub proof fn law_messages_name_the_failure(e: CredError, t: String)
    requires
        call_ensures(CredError::message, (&e,), t),
    ensures
        e is NoMatchingCert ==> text_contains(t@, "no certificate matched"@),
        e matches CredError::AmbiguousMatch { count } ==> text_contains(t@, "not unique"@) && text_contains(t@, crate::text::decimal_text(count as nat)),
        e is BadCertificate ==> text_contains(t@, "could not be parsed"@),
        e is NoSigningKey ==> text_contains(t@, "no usable signing key"@),
        e matches CredError::StoreFailure { detail } ==> text_contains(t@, "key store failure"@) && text_contains(t@, crate::text::signed_text(detail as int)),
        e is BadSignature ==> text_contains(t@, "could not be DER-encoded"@),
        e is UnsupportedKey ==> text_contains(t@, "unsupported certificate key"@),
{
    match e {
        CredError::NoMatchingCert => {
            reveal_strlit("no certificate matched the selection criteria");
            reveal_strlit("no certificate matched");
            assert(stands("no certificate matched the selection criteria"@, 0, "no certificate matched"@, 22)) by {
                reveal_with_fuel(stands, 23);
            }
            lemma_contains_at("no certificate matched the selection criteria"@, 0, "no certificate matched"@);
        },
        CredError::AmbiguousMatch { count } => {
            reveal_strlit(" certificates matched; criteria not unique");
            reveal_strlit("not unique");
            assert(stands(" certificates matched; criteria not unique"@, 32, "not unique"@, 10)) by {
                reveal_with_fuel(stands, 11);
            }
            lemma_contains_at(" certificates matched; criteria not unique"@, 32, "not unique"@);
            let part = crate::text::decimal_text(count as nat);
            let pre = Seq::<char>::empty();
            let post = " certificates matched; criteria not unique"@;
            assert(t@ =~= pre + part + post);
            law_contained_text_stands_inside(pre, part, post);
            lemma_contains_around(pre + part, post, Seq::empty(), "not unique"@);
            assert(t@ =~= (pre + part) + post + Seq::<char>::empty());
        },
        CredError::BadCertificate => {
            reveal_strlit("certificate could not be parsed as X.509");
            reveal_strlit("could not be parsed");
            assert(stands("certificate could not be parsed as X.509"@, 12, "could not be parsed"@, 19)) by {
                reveal_with_fuel(stands, 20);
            }
            lemma_contains_at("certificate could not be parsed as X.509"@, 12, "could not be parsed"@);
        },
        CredError::NoSigningKey => {
            reveal_strlit("selected certificate has no usable signing key");
            reveal_strlit("no usable signing key");
            assert(stands("selected certificate has no usable signing key"@, 25, "no usable signing key"@, 21)) by {
                reveal_with_fuel(stands, 22);
            }
            lemma_contains_at("selected certificate has no usable signing key"@, 25, "no usable signing key"@);
        },
        CredError::StoreFailure { detail } => {
            reveal_strlit("key store failure (status ");
            reveal_strlit("key store failure");
            assert(stands("key store failure (status "@, 0, "key store failure"@, 17)) by {
                reveal_with_fuel(stands, 18);
            }
            lemma_contains_at("key store failure (status "@, 0, "key store failure"@);
            let part = crate::text::signed_text(detail as int);
            let pre = "key store failure (status "@;
            let post = ")"@;
            assert(t@ =~= pre + part + post);
            law_contained_text_stands_inside(pre, part, post);
            lemma_contains_around(Seq::empty(), pre, part + post, "key store failure"@);
            assert(t@ =~= Seq::<char>::empty() + pre + (part + post));
        },
        CredError::BadSignature => {
            reveal_strlit("raw ECDSA signature could not be DER-encoded");
            reveal_strlit("could not be DER-encoded");
            assert(stands("raw ECDSA signature could not be DER-encoded"@, 20, "could not be DER-encoded"@, 24)) by {
                reveal_with_fuel(stands, 25);
            }
            lemma_contains_at("raw ECDSA signature could not be DER-encoded"@, 20, "could not be DER-encoded"@);
        },
        CredError::UnsupportedKey => {
            reveal_strlit("unsupported certificate key algorithm/curve");
            reveal_strlit("unsupported certificate key");
            assert(stands("unsupported certificate key algorithm/curve"@, 0, "unsupported certificate key"@, 27)) by {
                reveal_with_fuel(stands, 28);
            }
            lemma_contains_at("unsupported certificate key algorithm/curve"@, 0, "unsupported certificate key"@);
        },
    }
}

} // verus!
