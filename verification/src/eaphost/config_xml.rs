//! The XML envelope of the connection profile.
//!
//! A host keeps a method's connection data inside an XML connection profile and
//! passes it through the method's configuration entry points. The profile is
//! carried verbatim as one hexadecimal element.
use crate::text::{append_hex, digit_value, pair_up, trim};
use vstd::prelude::*;
use vstd::string::StringExecFns;

verus! {

/// The element that holds the hexadecimal profile.
pub const BLOB_ELEMENT: &'static str = "UsgTeapConfigBlob";

/// What the text of a document means: hexadecimal octets, white space around
/// them ignored; nothing if a character is no digit or a digit is left over.
pub open spec fn text_meaning(t: Seq<char>) -> Option<Seq<u8>> {
    let digits = crate::text::trimmed(t);
    if digits.len() % 2 == 0 && crate::text::all_hex(digits) {
        Some(crate::text::hex_octets(digits))
    } else {
        None
    }
}

/// The envelope around a profile: `<UsgTeapConfigBlob>HEX</UsgTeapConfigBlob>`.
pub open spec fn envelope(blob: Seq<u8>) -> Seq<char> {
    "<"@ + BLOB_ELEMENT@ + ">"@ + crate::text::hex_text(blob) + "</"@ + BLOB_ELEMENT@ + ">"@
}

/// Lowercase hexadecimal, no separators.
pub fn to_hex(bytes: &[u8]) -> (t: String)
    ensures
        t@ == crate::text::hex_text(bytes@),
{
    let mut t: String = String::new();
    append_hex(&mut t, bytes);
    assert(t@ =~= crate::text::hex_text(bytes@));
    t
}

/// Decode hexadecimal text in either case, white space around it ignored.
/// `None` on an odd number of digits or a character that is no digit.
pub fn from_hex(s: &str) -> (r: Option<Vec<u8>>)
    ensures
        match r {
            Some(b) => text_meaning(s@) == Some(b@),
            None => text_meaning(s@) is None,
        },
{
    let digits: Vec<char> = trim(s);
    if digits.len() % 2 != 0 {
        return None;
    }
    let mut i: usize = 0;
    while i < digits.len()
        invariant
            i <= digits@.len(),
            digits@ == crate::text::trimmed(s@),
            forall|j: int| 0 <= j < i ==> crate::text::hex_value(#[trigger] digits@[j]) is Some,
        decreases digits@.len() - i,
    {
        if digit_value(digits[i]).is_none() {
            return None;
        }
        i = i + 1;
    }
    Some(pair_up(&digits))
}

/// Wrap a profile as the document that the configuration entry points emit.
/// Hexadecimal digits need no XML escaping.
pub fn blob_to_xml(blob: &[u8]) -> (xml: String)
    ensures
        xml@ == envelope(blob@),
{
    let mut xml: String = String::new();
    xml.append("<");
    xml.append(BLOB_ELEMENT);
    xml.append(">");
    append_hex(&mut xml, blob);
    xml.append("</");
    xml.append(BLOB_ELEMENT);
    xml.append(">");
    assert(xml@ =~= envelope(blob@));
    xml
}

/// Recover the profile from a document's text content.
pub fn xml_text_to_blob(doc_text: &str) -> (r: Option<Vec<u8>>)
    ensures
        match r {
            Some(b) => text_meaning(doc_text@) == Some(b@),
            None => text_meaning(doc_text@) is None,
        },
{
    from_hex(doc_text)
}

/// The text between the envelope's tags is the profile's hexadecimal form, and
/// reading it gives the profile back, whatever white space stands around it.
pub proof fn law_envelope_round_trips(blob: Seq<u8>, before: Seq<char>, after: Seq<char>)
    requires
        forall|i: int| 0 <= i < before.len() ==> crate::text::is_space(#[trigger] before[i]),
        forall|i: int| 0 <= i < after.len() ==> crate::text::is_space(#[trigger] after[i]),
    ensures
        text_meaning(before + crate::text::hex_text(blob) + after) == Some(blob),
        envelope(blob) == ("<"@ + BLOB_ELEMENT@ + ">"@) + crate::text::hex_text(blob) + ("</"@
            + BLOB_ELEMENT@ + ">"@),
{
    let t = crate::text::hex_text(blob);
    crate::text::lemma_hex_round_trip(blob);
    if t.len() > 0 {
        assert('0' <= t[0] <= '9' || 'a' <= t[0] <= 'f');
        assert('0' <= t[t.len() - 1] <= '9' || 'a' <= t[t.len() - 1] <= 'f');
    }
    crate::text::lemma_trimmed(before, t, after);
    assert(envelope(blob) =~= ("<"@ + BLOB_ELEMENT@ + ">"@) + t + ("</"@ + BLOB_ELEMENT@ + ">"@));
}

/// The written form uses the digits `0` to `9` and `a` to `f` only.
pub proof fn law_hex_is_lowercase(blob: Seq<u8>)
    ensures
        forall|i: int|
            0 <= i < crate::text::hex_text(blob).len() ==> '0' <= #[trigger] crate::text::hex_text(
                blob,
            )[i] <= '9' || 'a' <= crate::text::hex_text(blob)[i] <= 'f',
{
    crate::text::lemma_hex_round_trip(blob);
}

/// The envelope is the element around the lowercase hexadecimal form of the profile, which
/// reads back as the profile.
pub proof fn law_envelope_holds_the_profile(
    blob: &[u8],
    xml: String,
    inside: &str,
    r: Option<Vec<u8>>,
)
    requires
        call_ensures(blob_to_xml, (blob,), xml),
        xml@ == "<UsgTeapConfigBlob>"@ + inside@ + "</UsgTeapConfigBlob>"@,
        call_ensures(xml_text_to_blob, (inside,), r),
    ensures
        r matches Some(b) && b@ == blob@,
{
    let digits = crate::text::hex_text(blob@);
    lemma_envelope_tags();
    let front = "<UsgTeapConfigBlob>"@;
    let back = "</UsgTeapConfigBlob>"@;
    assert(xml@ =~= front + digits + back);
    assert(xml@.len() == front.len() + digits.len() + back.len());
    assert(inside@ =~= xml@.subrange(front.len() as int, (front.len() + inside@.len()) as int));
    assert(digits =~= xml@.subrange(front.len() as int, (front.len() + digits.len()) as int));
    law_envelope_round_trips(blob@, Seq::empty(), Seq::empty());
    assert(Seq::<char>::empty() + digits + Seq::<char>::empty() =~= digits);
}

proof fn lemma_envelope_tags()
    ensures
        "<"@ + BLOB_ELEMENT@ + ">"@ == "<UsgTeapConfigBlob>"@,
        "</"@ + BLOB_ELEMENT@ + ">"@ == "</UsgTeapConfigBlob>"@,
{
    reveal_strlit("<");
    reveal_strlit("</");
    reveal_strlit(">");
    reveal_strlit("UsgTeapConfigBlob");
    reveal_strlit("<UsgTeapConfigBlob>");
    reveal_strlit("</UsgTeapConfigBlob>");
    let open = "<"@ + BLOB_ELEMENT@ + ">"@;
    let close = "</"@ + BLOB_ELEMENT@ + ">"@;
    assert(open.len() == 19);
    assert(close.len() == 20);
    assert(crate::text::stands(open, 0, "<UsgTeapConfigBlob>"@, 19)) by {
        reveal_with_fuel(crate::text::stands, 20);
    }
    assert(crate::text::stands(close, 0, "</UsgTeapConfigBlob>"@, 20)) by {
        reveal_with_fuel(crate::text::stands, 21);
    }
    crate::eaphost::markup::lemma_cut(open, 0, "<UsgTeapConfigBlob>"@);
    crate::eaphost::markup::lemma_cut(close, 0, "</UsgTeapConfigBlob>"@);
    assert(open =~= "<UsgTeapConfigBlob>"@);
    assert(close =~= "</UsgTeapConfigBlob>"@);
}

/// A text is read as a profile exactly if, white space around it aside, it is an even
/// number of hexadecimal digits in either case; each pair of digits is one octet.
pub proof fn law_text_is_read_as_pairs_of_digits(
    before: Seq<char>,
    digits: Seq<char>,
    after: Seq<char>,
    s: &str,
    r: Option<Vec<u8>>,
)
    requires
        forall|i: int| 0 <= i < before.len() ==> crate::text::is_space(#[trigger] before[i]),
        forall|i: int| 0 <= i < after.len() ==> crate::text::is_space(#[trigger] after[i]),
        digits.len() > 0 ==> !crate::text::is_space(digits[0]) && !crate::text::is_space(
            digits.last(),
        ),
        s@ == before + digits + after,
        call_ensures(from_hex, (s,), r),
    ensures
        r is Some <==> digits.len() % 2 == 0 && forall|i: int|
            0 <= i < digits.len() ==> crate::text::hex_value(#[trigger] digits[i]) is Some,
        r matches Some(b) ==> 2 * b@.len() == digits.len() && forall|i: int|
            0 <= i < b@.len() ==> #[trigger] b@[i] == 16 * crate::text::hex_value(digits[2 * i])->0
                + crate::text::hex_value(digits[2 * i + 1])->0,
{
    crate::text::lemma_trimmed(before, digits, after);
    if let Some(b) = r {
        assert(b@ == crate::text::hex_octets(digits));
        assert forall|i: int| 0 <= i < b@.len() implies #[trigger] b@[i] == 16
            * crate::text::hex_value(digits[2 * i])->0 + crate::text::hex_value(
            digits[2 * i + 1],
        )->0 by {
            assert(crate::text::hex_value(digits[2 * i]) is Some);
            assert(crate::text::hex_value(digits[2 * i + 1]) is Some);
        }
    }
}

/// The hexadecimal form of octets reads back as those octets.
pub proof fn law_hex_form_reads_back(bytes: &[u8], t: String, s: &str, r: Option<Vec<u8>>)
    requires
        call_ensures(to_hex, (bytes,), t),
        s@ == t@,
        call_ensures(from_hex, (s,), r),
    ensures
        r matches Some(b) && b@ == bytes@,
        t@.len() == 2 * bytes@.len(),
{
    law_envelope_round_trips(bytes@, Seq::empty(), Seq::empty());
    assert(Seq::<char>::empty() + t@ + Seq::<char>::empty() =~= t@);
}

} // verus!
