//! Driver errors.
use crate::fips_tls::error::FipsTlsError;
use crate::text::{
    law_contained_text_stands_inside, lemma_contains_around, lemma_contains_at, stands, text_contains,
};
use vstd::prelude::*;
use vstd::string::StringExecFns;

verus! {

/// Errors from the authentication driver.
#[derive(Debug)]
pub enum DriverError {
    /// The framing layer could not decode or encode; its own words.
    Decode(String),
    /// The TLS backend failed (handshake, parameter guard, exporter).
    Tls(FipsTlsError),
    /// The Phase-2 session failed; its own words.
    Session(String),
    /// A packet that does not fit the current phase.
    Protocol(&'static str),
}

impl DriverError {
    /// What the error says, in words.
    pub open spec fn words(self) -> Seq<char> {
        match self {
            DriverError::Decode(e) => "framing/decode error: "@ + e@,
            DriverError::Tls(e) => "TLS error: "@ + e.words(),
            DriverError::Session(e) => "session error: "@ + e@,
            DriverError::Protocol(m) => "protocol violation: "@ + m@,
        }
    }

    /// What the error says, in words.
    pub fn message(&self) -> (t: String)
        ensures
            t@ == self.words(),
    {
        match self {
            DriverError::Decode(e) => {
                let mut t: String = "framing/decode error: ".to_owned();
                t.append(e.as_str());
                t
            },
            DriverError::Tls(e) => {
                let inner: String = e.message();
                let mut t: String = "TLS error: ".to_owned();
                t.append(inner.as_str());
                t
            },
            DriverError::Session(e) => {
                let mut t: String = "session error: ".to_owned();
                t.append(e.as_str());
                t
            },
            DriverError::Protocol(m) => {
                let mut t: String = "protocol violation: ".to_owned();
                t.append(m);
                t
            },
        }
    }
}

/// Each message names the layer that failed, and tells what that layer says.
pub proof fn law_driver_messages_name_the_failure(e: DriverError, t: String)
    requires
        call_ensures(DriverError::message, (&e,), t),
    ensures
        e matches DriverError::Decode(words) ==> text_contains(t@, "framing/decode error"@) && text_contains(t@, words@),
        e matches DriverError::Tls(inner) ==> text_contains(t@, "TLS error"@) && text_contains(t@, inner.words()),
        e matches DriverError::Session(words) ==> text_contains(t@, "session error"@) && text_contains(t@, words@),
        e matches DriverError::Protocol(m) ==> text_contains(t@, "protocol violation"@) && text_contains(t@, m@),
{
    match e {
        DriverError::Decode(words) => {
            reveal_strlit("framing/decode error: ");
            reveal_strlit("framing/decode error");
            assert(stands("framing/decode error: "@, 0, "framing/decode error"@, 20)) by {
                reveal_with_fuel(stands, 21);
            }
            lemma_contains_at("framing/decode error: "@, 0, "framing/decode error"@);
            let part = words@;
            let pre = "framing/decode error: "@;
            let post = Seq::<char>::empty();
            assert(t@ =~= pre + part + post);
            law_contained_text_stands_inside(pre, part, post);
            lemma_contains_around(Seq::empty(), pre, part + post, "framing/decode error"@);
            assert(t@ =~= Seq::<char>::empty() + pre + (part + post));
        },
        DriverError::Tls(inner) => {
            reveal_strlit("TLS error: ");
            reveal_strlit("TLS error");
            assert(stands("TLS error: "@, 0, "TLS error"@, 9)) by {
                reveal_with_fuel(stands, 10);
            }
            lemma_contains_at("TLS error: "@, 0, "TLS error"@);
            let part = inner.words();
            let pre = "TLS error: "@;
            let post = Seq::<char>::empty();
            assert(t@ =~= pre + part + post);
            law_contained_text_stands_inside(pre, part, post);
            lemma_contains_around(Seq::empty(), pre, part + post, "TLS error"@);
            assert(t@ =~= Seq::<char>::empty() + pre + (part + post));
        },
        DriverError::Session(words) => {
            reveal_strlit("session error: ");
            reveal_strlit("session error");
            assert(stands("session error: "@, 0, "session error"@, 13)) by {
                reveal_with_fuel(stands, 14);
            }
            lemma_contains_at("session error: "@, 0, "session error"@);
            let part = words@;
            let pre = "session error: "@;
            let post = Seq::<char>::empty();
            assert(t@ =~= pre + part + post);
            law_contained_text_stands_inside(pre, part, post);
            lemma_contains_around(Seq::empty(), pre, part + post, "session error"@);
            assert(t@ =~= Seq::<char>::empty() + pre + (part + post));
        },
        DriverError::Protocol(m) => {
            reveal_strlit("protocol violation: ");
            reveal_strlit("protocol violation");
            assert(stands("protocol violation: "@, 0, "protocol violation"@, 18)) by {
                reveal_with_fuel(stands, 19);
            }
            lemma_contains_at("protocol violation: "@, 0, "protocol violation"@);
            let part = m@;
            let pre = "protocol violation: "@;
            let post = Seq::<char>::empty();
            assert(t@ =~= pre + part + post);
            law_contained_text_stands_inside(pre, part, post);
            lemma_contains_around(Seq::empty(), pre, part + post, "protocol violation"@);
            assert(t@ =~= Seq::<char>::empty() + pre + (part + post));
        },
    }
}

} // verus!
