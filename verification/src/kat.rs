//! Hexadecimal helpers and canonical TLV vectors for known-answer tests.
use crate::text::{
    append_hex, chars_of, digit_value, law_contained_text_stands_inside, lemma_contains_around,
    lemma_contains_at, pair_up, stands, text_contains,
};
use vstd::prelude::*;
use vstd::string::StringExecFns;

verus! {

/// Why a hexadecimal string was refused.
#[derive(Debug, Clone, Copy, PartialEq, Eq, Structural)]
pub enum HexError {
    /// The string had an odd number of hexadecimal digits.
    OddLength,
    /// A character that is neither a hexadecimal digit nor white space.
    BadDigit(char),
}

/// ASCII white space: space, tab, line feed, form feed, carriage return.
pub open spec fn is_ascii_space(c: char) -> bool {
    c == ' ' || c == '\t' || c == '\n' || c as u32 == 0x0c || c == '\r'
}

/// `s` without its ASCII white space.
pub open spec fn stripped(s: Seq<char>) -> Seq<char>
    decreases s.len(),
{
    if s.len() == 0 {
        Seq::empty()
    } else if is_ascii_space(s.last()) {
        stripped(s.drop_last())
    } else {
        stripped(s.drop_last()).push(s.last())
    }
}

/// The first character that is neither a hexadecimal digit nor white space.
pub open spec fn first_bad(s: Seq<char>) -> Option<char>
    decreases s.len(),
{
    if s.len() == 0 {
        None
    } else {
        match first_bad(s.drop_last()) {
            Some(c) => Some(c),
            None => if is_ascii_space(s.last()) || crate::text::hex_value(s.last()) is Some {
                None
            } else {
                Some(s.last())
            },
        }
    }
}

/// What a hexadecimal string means.
pub open spec fn hex_meaning(s: Seq<char>) -> Result<Seq<u8>, HexError> {
    match first_bad(s) {
        Some(c) => Err(HexError::BadDigit(c)),
        None => if stripped(s).len() % 2 == 1 {
            Err(HexError::OddLength)
        } else {
            Ok(crate::text::hex_octets(stripped(s)))
        },
    }
}

/// Decode a hexadecimal string, ignoring ASCII white space.
pub fn from_hex(s: &str) -> (r: Result<Vec<u8>, HexError>)
    ensures
        match r {
            Ok(b) => hex_meaning(s@) == Ok::<Seq<u8>, HexError>(b@),
            Err(e) => hex_meaning(s@) == Err::<Seq<u8>, HexError>(e),
        },
{
    let all: Vec<char> = chars_of(s);
    let mut digits: Vec<char> = Vec::new();
    let mut i: usize = 0;
    while i < all.len()
        invariant
            i <= all@.len(),
            all@ == s@,
            digits@ == stripped(all@.take(i as int)),
            crate::text::all_hex(digits@),
            first_bad(all@.take(i as int)) is None,
        decreases all@.len() - i,
    {
        let c: char = all[i];
        assert(all@.take(i + 1).drop_last() =~= all@.take(i as int));
        i = i + 1;
        let space: bool = c == ' ' || c == '\t' || c == '\n' || c as u32 == 0x0c || c == '\r';
        if !space {
            match digit_value(c) {
                Some(_) => {
                    digits.push(c);
                },
                None => {
                    proof {
                        lemma_first_bad_stays(all@, i as int);
                    }
                    return Err(HexError::BadDigit(c));
                },
            }
        }
    }
    assert(all@.take(i as int) =~= all@);
    if digits.len() % 2 != 0 {
        return Err(HexError::OddLength);
    }
    Ok(pair_up(&digits))
}

proof fn lemma_first_bad_stays(s: Seq<char>, n: int)
    requires
        0 <= n <= s.len(),
        first_bad(s.take(n)) is Some,
    ensures
        first_bad(s) == first_bad(s.take(n)),
    decreases s.len() - n,
{
    if n < s.len() {
        assert(s.take(n + 1).drop_last() =~= s.take(n));
        lemma_first_bad_stays(s, n + 1);
    } else {
        assert(s.take(n) =~= s);
    }
}

/// Encode bytes as lowercase hexadecimal.
pub fn to_hex(bytes: &[u8]) -> (t: String)
    ensures
        t@ == crate::text::hex_text(bytes@),
{
    let mut t: String = String::new();
    append_hex(&mut t, bytes);
    assert(t@ =~= crate::text::hex_text(bytes@));
    t
}

proof fn lemma_clean(s: Seq<char>)
    requires
        crate::text::all_hex(s),
    ensures
        stripped(s) == s,
        first_bad(s) is None,
    decreases s.len(),
{
    if s.len() > 0 {
        let front = s.drop_last();
        assert forall|i: int| 0 <= i < front.len() implies crate::text::hex_value(
            #[trigger] front[i],
        ) is Some by {
            assert(front[i] == s[i]);
        }
        lemma_clean(front);
        assert(crate::text::hex_value(s[s.len() - 1]) is Some);
        assert(front.push(s.last()) =~= s);
    } else {
        assert(stripped(s) =~= s);
    }
}

/// Decoding an encoded byte string gives it back.
pub proof fn law_hex_round_trips(b: Seq<u8>)
    ensures
        hex_meaning(crate::text::hex_text(b)) == Ok::<Seq<u8>, HexError>(b),
{
    crate::text::lemma_hex_round_trip(b);
    lemma_clean(crate::text::hex_text(b));
}

proof fn lemma_concat(a: Seq<char>, b: Seq<char>)
    ensures
        stripped(a + b) == stripped(a) + stripped(b),
        first_bad(a + b) == (match first_bad(a) {
            Some(c) => Some(c),
            None => first_bad(b),
        }),
    decreases b.len(),
{
    if b.len() == 0 {
        assert(a + b =~= a);
        assert(stripped(a) + stripped(b) =~= stripped(a));
    } else {
        assert((a + b).drop_last() =~= a + b.drop_last());
        lemma_concat(a, b.drop_last());
        assert(stripped(a + b) =~= stripped(a) + stripped(b));
    }
}

/// ASCII white space anywhere in a hexadecimal string changes nothing.
pub proof fn law_white_space_is_ignored(a: Seq<char>, w: char, b: Seq<char>)
    requires
        is_ascii_space(w),
    ensures
        hex_meaning(a + seq![w] + b) == hex_meaning(a + b),
{
    let blank = seq![w];
    assert(blank.drop_last() =~= Seq::empty());
    reveal_with_fuel(stripped, 2);
    reveal_with_fuel(first_bad, 2);
    assert(stripped(blank) =~= Seq::empty());
    assert(first_bad(blank) is None);
    lemma_concat(a, blank);
    lemma_concat(a + blank, b);
    lemma_concat(a, b);
    assert(stripped(a) + Seq::<char>::empty() + stripped(b) =~= stripped(a) + stripped(b));
}

/// How Rust's `Debug` shows a character, as `format!("{c:?}")` renders it.
pub uninterp spec fn shown_char(c: char) -> Seq<char>;

/// `format!("{c:?}")`: the quoted, escaped form of a character. Nothing is
/// claimed of it but that the character alone decides it.
#[verifier::external_body]
fn show_char(c: char) -> (t: String)
    ensures
        t@ == shown_char(c),
{
    format!("{c:?}")
}

impl HexError {
    /// What the error says, in words.
    pub fn message(&self) -> (t: String)
        ensures
            t@ == (match *self {
                HexError::OddLength => "hex string has an odd number of digits"@,
                HexError::BadDigit(c) => "invalid hex digit "@ + shown_char(c),
            }),
    {
        match self {
            HexError::OddLength => "hex string has an odd number of digits".to_owned(),
            HexError::BadDigit(c) => {
                let mut t: String = "invalid hex digit ".to_owned();
                t.append(show_char(*c).as_str());
                t
            },
        }
    }
}

/// Result TLV, mandatory, status Success.
pub const RESULT_SUCCESS: [u8; 6] = [0x80, 0x03, 0x00, 0x02, 0x00, 0x01];

/// Result TLV, mandatory, status Failure.
pub const RESULT_FAILURE: [u8; 6] = [0x80, 0x03, 0x00, 0x02, 0x00, 0x02];

/// Identity-Type TLV, mandatory, Machine.
pub const IDENTITY_TYPE_MACHINE: [u8; 6] = [0x80, 0x02, 0x00, 0x02, 0x00, 0x02];

/// Identity-Type TLV, mandatory, User.
pub const IDENTITY_TYPE_USER: [u8; 6] = [0x80, 0x02, 0x00, 0x02, 0x00, 0x01];

/// Error TLV, mandatory, code 2001.
pub const ERROR_2001: [u8; 8] = [0x80, 0x05, 0x00, 0x04, 0x00, 0x00, 0x07, 0xD1];

/// EAP-Payload TLV, mandatory, carrying a minimal EAP Response/Identity `ab`.
pub const EAP_PAYLOAD_IDENTITY: [u8; 12] = [
    0x80, 0x0B, 0x00, 0x08, 0x02, 0x01, 0x00, 0x08, 0x01, 0x61, 0x62, 0x00,
];

/// Uppercase digits are read like lowercase ones.
pub proof fn law_uppercase_is_read_too(b: Seq<u8>)
    ensures
        hex_meaning(crate::text::upper_hex_text(b)) == Ok::<Seq<u8>, HexError>(b),
{
    crate::text::law_uppercase_hexadecimal_round_trips(b);
    lemma_clean(crate::text::upper_hex_text(b));
}

/// A string is refused for a character exactly if it has one that is neither a
/// hexadecimal digit nor ASCII white space, and the first such character is reported.
pub proof fn law_first_bad_character_is_reported(s: &str, r: Result<Vec<u8>, HexError>, i: int)
    requires
        call_ensures(from_hex, (s,), r),
        0 <= i < s@.len(),
        crate::text::hex_value(s@[i]) is None,
        !(s@[i] == ' ' || s@[i] == '\t' || s@[i] == '\n' || s@[i] as u32 == 0x0c || s@[i] == '\r'),
        forall|j: int|
            0 <= j < i ==> crate::text::hex_value(#[trigger] s@[j]) is Some || s@[j] == ' ' || s@[j]
                == '\t' || s@[j] == '\n' || s@[j] as u32 == 0x0c || s@[j] == '\r',
    ensures
        r == Err::<Vec<u8>, HexError>(HexError::BadDigit(s@[i])),
{
    lemma_good_prefix(s@.take(i));
    assert(s@.take(i + 1).drop_last() =~= s@.take(i));
    lemma_first_bad_stays(s@, i + 1);
}

proof fn lemma_good_prefix(s: Seq<char>)
    requires
        forall|j: int|
            0 <= j < s.len() ==> crate::text::hex_value(#[trigger] s[j]) is Some || s[j] == ' '
                || s[j] == '\t' || s[j] == '\n' || s[j] as u32 == 0x0c || s[j] == '\r',
    ensures
        first_bad(s) is None,
    decreases s.len(),
{
    if s.len() > 0 {
        assert forall|j: int| 0 <= j < s.drop_last().len() implies crate::text::hex_value(
            #[trigger] s.drop_last()[j],
        ) is Some || is_ascii_space(s.drop_last()[j]) by {
            assert(s.drop_last()[j] == s[j]);
        }
        lemma_good_prefix(s.drop_last());
        assert(s.last() == s[s.len() - 1]);
    }
}

/// Where every character is a digit or white space, an odd number of digits is refused,
/// and an even one is read: two digits for each octet.
pub proof fn law_digits_must_come_in_pairs(s: &str, r: Result<Vec<u8>, HexError>)
    requires
        call_ensures(from_hex, (s,), r),
        forall|j: int|
            0 <= j < s@.len() ==> crate::text::hex_value(#[trigger] s@[j]) is Some || s@[j] == ' '
                || s@[j] == '\t' || s@[j] == '\n' || s@[j] as u32 == 0x0c || s@[j] == '\r',
    ensures
        ({
            let digits = s@.filter(|c: char| crate::text::hex_value(c) is Some).len();
            &&& digits % 2 == 1 ==> r == Err::<Vec<u8>, HexError>(HexError::OddLength)
            &&& digits % 2 == 0 ==> (r matches Ok(b) && 2 * b@.len() == digits)
        }),
{
    lemma_good_prefix(s@);
    lemma_stripped_is_filter(s@);
}

proof fn lemma_stripped_is_filter(s: Seq<char>)
    requires
        first_bad(s) is None,
    ensures
        stripped(s) == s.filter(|c: char| crate::text::hex_value(c) is Some),
    decreases s.len(),
{
    reveal(Seq::filter);
    if s.len() > 0 {
        lemma_stripped_is_filter(s.drop_last());
    } else {
        assert(stripped(s) =~= Seq::empty());
    }
}

/// The written form of octets reads back as those octets.
pub proof fn law_written_octets_read_back(
    bytes: &[u8],
    t: String,
    s: &str,
    r: Result<Vec<u8>, HexError>,
)
    requires
        call_ensures(to_hex, (bytes,), t),
        s@ == t@,
        call_ensures(from_hex, (s,), r),
    ensures
        r matches Ok(b) && b@ == bytes@,
        t@.len() == 2 * bytes@.len(),
        forall|i: int| 0 <= i < t@.len() ==> '0' <= #[trigger] t@[i] <= '9' || 'a' <= t@[i] <= 'f',
{
    law_hex_round_trips(bytes@);
    crate::text::lemma_hex_round_trip(bytes@);
}

/// Each message names what went wrong, and shows the character that was refused.
pub proof fn law_hex_messages_name_the_failure(e: HexError, t: String)
    requires
        call_ensures(HexError::message, (&e,), t),
    ensures
        e is OddLength ==> text_contains(t@, "odd number"@),
        e matches HexError::BadDigit(c) ==> text_contains(t@, "invalid hex digit"@) && text_contains(t@, shown_char(c)),
{
    match e {
        HexError::OddLength => {
            reveal_strlit("hex string has an odd number of digits");
            reveal_strlit("odd number");
            assert(stands("hex string has an odd number of digits"@, 18, "odd number"@, 10)) by {
                reveal_with_fuel(stands, 11);
            }
            lemma_contains_at("hex string has an odd number of digits"@, 18, "odd number"@);
        },
        HexError::BadDigit(c) => {
            reveal_strlit("invalid hex digit ");
            reveal_strlit("invalid hex digit");
            assert(stands("invalid hex digit "@, 0, "invalid hex digit"@, 17)) by {
                reveal_with_fuel(stands, 18);
            }
            lemma_contains_at("invalid hex digit "@, 0, "invalid hex digit"@);
            let part = shown_char(c);
            let pre = "invalid hex digit "@;
            let post = Seq::<char>::empty();
            assert(t@ =~= pre + part + post);
            law_contained_text_stands_inside(pre, part, post);
            lemma_contains_around(Seq::empty(), pre, part + post, "invalid hex digit"@);
            assert(t@ =~= Seq::<char>::empty() + pre + (part + post));
        },
    }
}

} // verus!
