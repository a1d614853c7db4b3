//! From a raw fixed-width ECDSA signature (`r || s`, what a key store returns) to
//! the DER `SEQUENCE { r, s }` that TLS expects.
use crate::bytes::put_all;
use crate::creds::error::CredError;
use vstd::prelude::*;

verus! {

/// Coordinate length of P-256, in octets.
pub const P256_COORD_LEN: usize = 32;

/// Coordinate length of P-384, in octets.
pub const P384_COORD_LEN: usize = 48;

/// The digits of `n` in base 256, most significant first, without leading zeros.
pub open spec fn base256(n: nat) -> Seq<u8>
    decreases n,
{
    if n < 256 {
        seq![n as u8]
    } else {
        base256(n / 256).push((n % 256) as u8)
    }
}

/// A DER length: one octet below 128, otherwise the number of length octets and
/// the length itself.
pub open spec fn der_length(n: nat) -> Seq<u8> {
    if n < 128 {
        seq![n as u8]
    } else {
        seq![(128 + base256(n).len()) as u8] + base256(n)
    }
}

/// `c` without its leading zero octets.
pub open spec fn without_zeros(c: Seq<u8>) -> Seq<u8>
    decreases c.len(),
{
    if c.len() > 0 && c[0] == 0 {
        without_zeros(c.skip(1))
    } else {
        c
    }
}

/// The shortest big-endian form of an unsigned number; zero keeps one octet.
pub open spec fn magnitude(c: Seq<u8>) -> Seq<u8> {
    if without_zeros(c).len() == 0 {
        seq![0u8]
    } else {
        without_zeros(c)
    }
}

/// The content octets of a non-negative DER INTEGER: a zero octet keeps a number
/// positive whose highest bit is set.
pub open spec fn integer_content(c: Seq<u8>) -> Seq<u8> {
    if magnitude(c)[0] >= 128 {
        seq![0u8] + magnitude(c)
    } else {
        magnitude(c)
    }
}

/// A DER value: tag, length, content.
pub open spec fn der_value(tag: u8, content: Seq<u8>) -> Seq<u8> {
    seq![tag] + der_length(content.len()) + content
}

/// A DER INTEGER.
pub open spec fn der_integer_of(c: Seq<u8>) -> Seq<u8> {
    der_value(0x02, integer_content(c))
}

/// The DER `SEQUENCE` of two INTEGERs.
pub open spec fn der_signature(r: Seq<u8>, s: Seq<u8>) -> Seq<u8> {
    der_value(0x30, der_integer_of(r) + der_integer_of(s))
}

/// Append the digits of `n` in base 256.
fn put_base256(n: usize, out: &mut Vec<u8>)
    ensures
        final(out)@ == old(out)@ + base256(n as nat),
    decreases n,
{
    if n < 256 {
        out.push(n as u8);
        assert(out@ =~= old(out)@ + base256(n as nat));
    } else {
        put_base256(n / 256, out);
        out.push((n % 256) as u8);
        assert(out@ =~= old(out)@ + base256(n as nat));
    }
}

/// 256 to the power `k`.
spec fn pow256(k: nat) -> nat
    decreases k,
{
    if k == 0 {
        1
    } else {
        256 * pow256((k - 1) as nat)
    }
}

proof fn lemma_base256_len(n: nat, k: nat)
    requires
        k >= 1,
        n < pow256(k),
    ensures
        1 <= base256(n).len() <= k,
    decreases k,
{
    if n >= 256 {
        if k == 1 {
            reveal_with_fuel(pow256, 2);
        } else {
            assert(n / 256 < pow256((k - 1) as nat)) by (nonlinear_arith)
                requires
                    n < 256 * pow256((k - 1) as nat),
            ;
            lemma_base256_len(n / 256, (k - 1) as nat);
        }
    }
}

/// How many digits `n` has in base 256.
fn base256_len(n: usize) -> (k: u8)
    ensures
        k == base256(n as nat).len(),
        1 <= k <= 8,
    decreases n,
{
    proof {
        assert(pow256(8) == 0x1_0000_0000_0000_0000) by {
            reveal_with_fuel(pow256, 9);
        }
        lemma_base256_len(n as nat, 8);
    }
    if n < 256 {
        1
    } else {
        base256_len(n / 256) + 1
    }
}

/// Append a DER length (definite form, short or long).
fn der_len(n: usize, out: &mut Vec<u8>)
    ensures
        final(out)@ == old(out)@ + der_length(n as nat),
{
    if n < 0x80 {
        out.push(n as u8);
        assert(out@ =~= old(out)@ + der_length(n as nat));
        return;
    }
    out.push(128 + base256_len(n));
    put_base256(n, out);
    assert(out@ =~= old(out)@ + der_length(n as nat));
}

/// Append one big-endian unsigned number as a DER INTEGER.
fn der_integer(coord: &[u8], out: &mut Vec<u8>)
    requires
        coord@.len() < usize::MAX,
    ensures
        final(out)@ == old(out)@ + der_integer_of(coord@),
{
    let mut first: usize = 0;
    assert(coord@.skip(0) =~= coord@);
    while first < coord.len() && coord[first] == 0
        invariant
            first <= coord@.len(),
            without_zeros(coord@) == without_zeros(coord@.skip(first as int)),
        decreases coord@.len() - first,
    {
        assert(coord@.skip(first as int).skip(1) =~= coord@.skip(first + 1));
        first = first + 1;
    }
    let mut content: Vec<u8> = Vec::new();
    if first == coord.len() {
        content.push(0);
        assert(content@ =~= integer_content(coord@));
    } else {
        if coord[first] >= 0x80 {
            content.push(0);
        }
        crate::bytes::put_range(&mut content, coord, first, coord.len());
        assert(coord@.subrange(first as int, coord@.len() as int) =~= coord@.skip(first as int));
        assert(magnitude(coord@)[0] == coord@[first as int]);
        assert(content@ =~= integer_content(coord@));
    }
    out.push(0x02);
    der_len(content.len(), out);
    put_all(out, content.as_slice());
    assert(out@ =~= old(out)@ + der_integer_of(coord@));
}

/// Convert `r || s` (each `coord_len` octets, big-endian) to DER.
///
/// `coord_len` must be that of an approved curve (P-256 or P-384), and `raw`
/// twice as long; anything else is a bad signature.
pub fn raw_to_der(raw: &[u8], coord_len: usize) -> (r: Result<Vec<u8>, CredError>)
    ensures
        r is Ok <==> (coord_len == P256_COORD_LEN || coord_len == P384_COORD_LEN) && raw@.len() == 2
            * coord_len,
        r matches Ok(der) ==> der@ == der_signature(
            raw@.take(coord_len as int),
            raw@.skip(coord_len as int),
        ),
        r matches Err(e) ==> e == CredError::BadSignature,
{
    if coord_len != P256_COORD_LEN && coord_len != P384_COORD_LEN {
        return Err(CredError::BadSignature);
    }
    if raw.len() != 2 * coord_len {
        return Err(CredError::BadSignature);
    }
    let r: Vec<u8> = crate::bytes::copy_range(raw, 0, coord_len);
    let s: Vec<u8> = crate::bytes::copy_range(raw, coord_len, raw.len());
    assert(r@ =~= raw@.take(coord_len as int));
    assert(s@ =~= raw@.skip(coord_len as int));
    let mut body: Vec<u8> = Vec::new();
    der_integer(r.as_slice(), &mut body);
    der_integer(s.as_slice(), &mut body);
    let mut out: Vec<u8> = Vec::new();
    out.push(0x30);
    der_len(body.len(), &mut out);
    put_all(&mut out, body.as_slice());
    assert(body@ =~= der_integer_of(r@) + der_integer_of(s@));
    assert(out@ =~= der_signature(r@, s@));
    Ok(out)
}

/// The number that big-endian octets stand for.
pub open spec fn octets_value(c: Seq<u8>) -> nat
    decreases c.len(),
{
    if c.len() == 0 {
        0
    } else {
        256 * octets_value(c.drop_last()) + c.last() as nat
    }
}

proof fn lemma_leading_zero(c: Seq<u8>)
    requires
        c.len() > 0,
        c[0] == 0,
    ensures
        octets_value(c) == octets_value(c.skip(1)),
    decreases c.len(),
{
    if c.len() == 1 {
        reveal_with_fuel(octets_value, 2);
    } else {
        lemma_leading_zero(c.drop_last());
        assert(c.drop_last().skip(1) =~= c.skip(1).drop_last());
    }
}

proof fn lemma_without_zeros(c: Seq<u8>)
    ensures
        octets_value(without_zeros(c)) == octets_value(c),
        without_zeros(c).len() <= c.len(),
        without_zeros(c).len() > 0 ==> without_zeros(c)[0] != 0,
    decreases c.len(),
{
    if c.len() > 0 && c[0] == 0 {
        lemma_leading_zero(c);
        lemma_without_zeros(c.skip(1));
    }
}

/// The content of a DER INTEGER stands for the same number as the coordinate, is
/// not negative, and is the shortest such form.
pub proof fn law_integer_is_exact_and_minimal(c: Seq<u8>)
    ensures
        octets_value(integer_content(c)) == octets_value(c),
        integer_content(c).len() >= 1,
        integer_content(c)[0] < 128,
        integer_content(c).len() > 1 && integer_content(c)[0] == 0 ==> integer_content(c)[1] >= 128,
        c.len() >= 1 ==> integer_content(c).len() <= c.len() + 1,
{
    lemma_without_zeros(c);
    let m = magnitude(c);
    reveal_with_fuel(octets_value, 2);
    if m[0] >= 128 {
        let padded = seq![0u8] + m;
        lemma_leading_zero(padded);
        assert(padded.skip(1) =~= m);
    }
}

/// What stands behind `tag` in a DER value with a one-octet length: its content
/// and what follows it.
pub open spec fn read_der(tag: u8, d: Seq<u8>) -> Option<(Seq<u8>, Seq<u8>)> {
    if d.len() >= 2 && d[0] == tag && d[1] < 128 && 2 + d[1] <= d.len() {
        Some((d.subrange(2, 2 + d[1]), d.skip(2 + d[1])))
    } else {
        None
    }
}

/// The two numbers of a DER `SEQUENCE` of two INTEGERs, nothing left over.
pub open spec fn signature_numbers(d: Seq<u8>) -> Option<(nat, nat)> {
    match read_der(0x30, d) {
        Some((body, end)) => match read_der(0x02, body) {
            Some((r, tail)) => match read_der(0x02, tail) {
                Some((s, last)) => if end.len() == 0 && last.len() == 0 {
                    Some((octets_value(r), octets_value(s)))
                } else {
                    None
                },
                None => None,
            },
            None => None,
        },
        None => None,
    }
}

proof fn lemma_read_der_value(tag: u8, content: Seq<u8>, rest: Seq<u8>)
    requires
        content.len() < 128,
    ensures
        read_der(tag, der_value(tag, content) + rest) == Some((content, rest)),
        der_value(tag, content).len() == 2 + content.len(),
{
    let d = der_value(tag, content) + rest;
    assert(d.subrange(2, 2 + content.len() as int) =~= content);
    assert(d.skip(2 + content.len() as int) =~= rest);
}

/// The encoding loses nothing: the two numbers of the DER form are the two halves
/// of the raw signature.
pub proof fn law_der_keeps_both_numbers(r: Seq<u8>, s: Seq<u8>)
    requires
        r.len() == s.len(),
        r.len() == P256_COORD_LEN || r.len() == P384_COORD_LEN,
    ensures
        signature_numbers(der_signature(r, s)) == Some((octets_value(r), octets_value(s))),
{
    law_integer_is_exact_and_minimal(r);
    law_integer_is_exact_and_minimal(s);
    let ri = der_integer_of(r);
    let si = der_integer_of(s);
    lemma_read_der_value(0x02, integer_content(s), Seq::empty());
    lemma_read_der_value(0x02, integer_content(r), si);
    assert(si + Seq::<u8>::empty() =~= si);
    lemma_read_der_value(0x30, ri + si, Seq::empty());
    assert(der_signature(r, s) + Seq::<u8>::empty() =~= der_signature(r, s));
}

/// A raw signature is encoded exactly if it is two coordinates of 32 or of 48 octets, and
/// the two numbers of the DER form are those of its halves, in order.
pub proof fn law_raw_signature_keeps_its_numbers(
    raw: &[u8],
    coord_len: usize,
    r: Result<Vec<u8>, CredError>,
)
    requires
        call_ensures(raw_to_der, (raw, coord_len), r),
    ensures
        r is Ok <==> (coord_len == 32 || coord_len == 48) && raw@.len() == 2 * coord_len,
        r matches Ok(der) ==> signature_numbers(der@) == Some(
            (
                octets_value(raw@.take(coord_len as int)),
                octets_value(raw@.skip(coord_len as int)),
            ),
        ),
        r matches Err(e) ==> e == CredError::BadSignature,
{
    if r is Ok {
        law_der_keeps_both_numbers(raw@.take(coord_len as int), raw@.skip(coord_len as int));
    }
}

/// Octets stand for a number in base 256, the highest first: one more octet multiplies
/// what stood before by 256 and adds the octet.
pub proof fn law_octets_are_positional(c: Seq<u8>, b: u8)
    ensures
        octets_value(c.push(b)) == 256 * octets_value(c) + b as nat,
        octets_value(Seq::empty()) == 0,
{
    assert(c.push(b).drop_last() =~= c);
}

} // verus!
