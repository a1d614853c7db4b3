//! Errors of the host integration.
use crate::creds::error::CredError;
use crate::text::{
    decimal, joined, law_contained_text_stands_inside, lemma_contains_around, lemma_contains_at, stands,
    text_contains,
};
use vstd::prelude::*;

verus! {

/// Why a connection profile was refused.
#[derive(Debug, Clone, Copy, PartialEq, Eq, Structural)]
pub enum ConfigError {
    /// A field runs past the end of the profile.
    Truncated,
    /// The profile does not start with our magic.
    BadMagic,
    /// The format version is not the one we write.
    BadVersion,
    /// A text field is not UTF-8.
    BadUtf8,
    /// Octets are left over behind the last field.
    TrailingData,
}

/// Why a session's driver could not be built.
#[derive(Debug, Clone, PartialEq, Eq)]
pub enum BuildError {
    /// The certificate could not be selected, or its key not acquired.
    Credential(CredError),
    /// The driver could not be assembled; its own words.
    Driver(String),
}

/// Errors from the host's policy guard and the method's registration.
#[derive(Debug, Clone, Copy, PartialEq, Eq, Structural)]
pub enum EapHostError {
    /// The host's FIPS policy is not enabled.
    OsFipsDisabled,
    /// A platform call failed.
    Win32 {
        /// The platform's status.
        code: u32,
    },
    /// The operation is only supported on Windows.
    NotWindows,
}

impl EapHostError {
    /// What the error says, in words.
    pub open spec fn words(self) -> Seq<char> {
        match self {
            EapHostError::OsFipsDisabled => "OS FIPS policy is not enabled (FipsAlgorithmPolicy)"@,
            EapHostError::Win32 { code } => "Win32 error (status "@ + crate::text::decimal_text(
                code as nat,
            ) + ")"@,
            EapHostError::NotWindows => "operation supported only on Windows"@,
        }
    }

    /// What the error says, in words.
    pub fn message(&self) -> (t: String)
        ensures
            t@ == self.words(),
    {
        match self {
            EapHostError::OsFipsDisabled =>
                "OS FIPS policy is not enabled (FipsAlgorithmPolicy)".to_owned(),
            EapHostError::Win32 { code } => joined(
                "Win32 error (status ",
                decimal(*code as u64).as_str(),
                ")",
            ),
            EapHostError::NotWindows => "operation supported only on Windows".to_owned(),
        }
    }
}

/// Each message names what went wrong, and tells the status that comes with it.
pub proof fn law_host_messages_name_the_failure(e: EapHostError, t: String)
    requires
        call_ensures(EapHostError::message, (&e,), t),
    ensures
        e is OsFipsDisabled ==> text_contains(t@, "policy is not enabled"@),
        e matches EapHostError::Win32 { code } ==> text_contains(t@, "Win32 error"@) && text_contains(t@, crate::text::decimal_text(code as nat)),
        e is NotWindows ==> text_contains(t@, "only on Windows"@),
{
    match e {
        EapHostError::OsFipsDisabled => {
            reveal_strlit("OS FIPS policy is not enabled (FipsAlgorithmPolicy)");
            reveal_strlit("policy is not enabled");
            assert(stands("OS FIPS policy is not enabled (FipsAlgorithmPolicy)"@, 8, "policy is not enabled"@, 21)) by {
                reveal_with_fuel(stands, 22);
            }
            lemma_contains_at("OS FIPS policy is not enabled (FipsAlgorithmPolicy)"@, 8, "policy is not enabled"@);
        },
        EapHostError::Win32 { code } => {
            reveal_strlit("Win32 error (status ");
            reveal_strlit("Win32 error");
            assert(stands("Win32 error (status "@, 0, "Win32 error"@, 11)) by {
                reveal_with_fuel(stands, 12);
            }
            lemma_contains_at("Win32 error (status "@, 0, "Win32 error"@);
            let part = crate::text::decimal_text(code as nat);
            let pre = "Win32 error (status "@;
            let post = ")"@;
            assert(t@ =~= pre + part + post);
            law_contained_text_stands_inside(pre, part, post);
            lemma_contains_around(Seq::empty(), pre, part + post, "Win32 error"@);
            assert(t@ =~= Seq::<char>::empty() + pre + (part + post));
        },
        EapHostError::NotWindows => {
            reveal_strlit("operation supported only on Windows");
            reveal_strlit("only on Windows");
            assert(stands("operation supported only on Windows"@, 20, "only on Windows"@, 15)) by {
                reveal_with_fuel(stands, 16);
            }
            lemma_contains_at("operation supported only on Windows"@, 20, "only on Windows"@);
        },
    }
}

} // verus!
