//! Fixed-width integers as byte strings, and plain byte-string helpers.
use vstd::prelude::*;

verus! {

/// The four little-endian octets of `n`.
pub open spec fn le32(n: u32) -> Seq<u8> {
    seq![
        (n % 256) as u8,
        ((n / 256) % 256) as u8,
        ((n / 65536) % 256) as u8,
        (n / 16777216) as u8,
    ]
}

/// The number that four little-endian octets stand for.
pub open spec fn le32_value(s: Seq<u8>) -> u32 {
    (s[0] + 256 * s[1] + 65536 * s[2] + 16777216 * s[3]) as u32
}

/// The four big-endian octets of `n`.
pub open spec fn be32(n: u32) -> Seq<u8> {
    seq![
        (n / 16777216) as u8,
        ((n / 65536) % 256) as u8,
        ((n / 256) % 256) as u8,
        (n % 256) as u8,
    ]
}

/// The number that four big-endian octets stand for.
pub open spec fn be32_value(s: Seq<u8>) -> u32 {
    (16777216 * s[0] + 65536 * s[1] + 256 * s[2] + s[3]) as u32
}

/// The eight big-endian octets of `n`.
pub open spec fn be64(n: u64) -> Seq<u8> {
    be32((n / 0x1_0000_0000) as u32) + be32((n % 0x1_0000_0000) as u32)
}

/// The number that eight big-endian octets stand for.
pub open spec fn be64_value(s: Seq<u8>) -> u64 {
    (0x1_0000_0000 * be32_value(s.subrange(0, 4)) + be32_value(s.subrange(4, 8))) as u64
}

/// The base-256 digits of a number are the octets it was put together from.
proof fn lemma_digits(n: u32, a: u8, b: u8, c: u8, d: u8)
    requires
        n == 16777216 * a + 65536 * b + 256 * c + d,
    ensures
        n / 16777216 == a,
        (n / 65536) % 256 == b,
        (n / 256) % 256 == c,
        n % 256 == d,
{
    assert(n / 256 == 65536 * a + 256 * b + c);
    assert(n / 65536 == 256 * a + b);
}

/// A number is put together from its base-256 digits.
proof fn lemma_put_together(n: u32)
    ensures
        16777216 * (n / 16777216) + 65536 * ((n / 65536) % 256) + 256 * ((n / 256) % 256) + n % 256
            == n,
        n / 16777216 < 256,
{
    assert(n == 256 * (n / 256) + n % 256);
    assert(n / 65536 == (n / 256) / 256);
    assert(n / 256 == 256 * (n / 65536) + (n / 256) % 256);
    assert(n / 16777216 == (n / 65536) / 256);
    assert(n / 65536 == 256 * (n / 16777216) + (n / 65536) % 256);
}

/// Reading back four little-endian octets gives the number they were written from.
pub proof fn lemma_le32_round_trip(n: u32)
    ensures
        le32(n).len() == 4,
        le32_value(le32(n)) == n,
{
    lemma_put_together(n);
}

/// Four octets are the little-endian octets of the number they stand for.
pub proof fn lemma_le32_canonical(s: Seq<u8>)
    requires
        s.len() == 4,
    ensures
        le32(le32_value(s)) == s,
{
    let (a, b, c, d) = (s[0], s[1], s[2], s[3]);
    let n = le32_value(s);
    lemma_digits(n, d, c, b, a);
    assert(le32(n) =~= s);
}

/// Reading back four big-endian octets gives the number they were written from.
pub proof fn lemma_be32_round_trip(n: u32)
    ensures
        be32(n).len() == 4,
        be32_value(be32(n)) == n,
{
    lemma_put_together(n);
}

/// Four octets are the big-endian octets of the number they stand for.
pub proof fn lemma_be32_canonical(s: Seq<u8>)
    requires
        s.len() == 4,
    ensures
        be32(be32_value(s)) == s,
{
    let (a, b, c, d) = (s[0], s[1], s[2], s[3]);
    let n = be32_value(s);
    lemma_digits(n, a, b, c, d);
    assert(be32(n) =~= s);
}

/// Reading back eight big-endian octets gives the number they were written from.
pub proof fn lemma_be64_round_trip(n: u64)
    ensures
        be64(n).len() == 8,
        be64_value(be64(n)) == n,
{
    let hi = (n / 0x1_0000_0000) as u32;
    let lo = (n % 0x1_0000_0000) as u32;
    lemma_be32_round_trip(hi);
    lemma_be32_round_trip(lo);
    assert(be64(n).subrange(0, 4) =~= be32(hi));
    assert(be64(n).subrange(4, 8) =~= be32(lo));
}

/// Eight octets are the big-endian octets of the number they stand for.
pub proof fn lemma_be64_canonical(s: Seq<u8>)
    requires
        s.len() == 8,
    ensures
        be64(be64_value(s)) == s,
{
    let hi = be32_value(s.subrange(0, 4));
    let lo = be32_value(s.subrange(4, 8));
    let n = be64_value(s);
    assert(n == 0x1_0000_0000 * hi + lo);
    assert(n / 0x1_0000_0000 == hi);
    assert(n % 0x1_0000_0000 == lo);
    lemma_be32_canonical(s.subrange(0, 4));
    lemma_be32_canonical(s.subrange(4, 8));
    assert(be64(n) =~= s);
}

/// The octets of each byte vector, in order.
pub open spec fn octets_of(v: Seq<Vec<u8>>) -> Seq<Seq<u8>> {
    Seq::new(v.len(), |i: int| v[i]@)
}

/// Append the little-endian octets of `n`.
pub(crate) fn put_le32(out: &mut Vec<u8>, n: u32)
    ensures
        final(out)@ == old(out)@ + le32(n),
{
    out.push((n % 256) as u8);
    out.push(((n / 256) % 256) as u8);
    out.push(((n / 65536) % 256) as u8);
    out.push((n / 16777216) as u8);
    assert(out@ =~= old(out)@ + le32(n));
}

/// Append the big-endian octets of `n`.
pub(crate) fn put_be32(out: &mut Vec<u8>, n: u32)
    ensures
        final(out)@ == old(out)@ + be32(n),
{
    out.push((n / 16777216) as u8);
    out.push(((n / 65536) % 256) as u8);
    out.push(((n / 256) % 256) as u8);
    out.push((n % 256) as u8);
    assert(out@ =~= old(out)@ + be32(n));
}

/// Append the big-endian octets of `n`.
pub(crate) fn put_be64(out: &mut Vec<u8>, n: u64)
    ensures
        final(out)@ == old(out)@ + be64(n),
{
    put_be32(out, (n / 0x1_0000_0000) as u32);
    put_be32(out, (n % 0x1_0000_0000) as u32);
    assert(out@ =~= old(out)@ + be64(n));
}

/// The little-endian number at `at`.
pub(crate) fn get_le32(b: &[u8], at: usize) -> (n: u32)
    requires
        at + 4 <= b@.len(),
    ensures
        n == le32_value(b@.subrange(at as int, at + 4)),
{
    (b[at] as u32) + 256 * (b[at + 1] as u32) + 65536 * (b[at + 2] as u32) + 16777216 * (b[at + 3] as u32)
}

/// The big-endian number at `at`.
pub(crate) fn get_be32(b: &[u8], at: usize) -> (n: u32)
    requires
        at + 4 <= b@.len(),
    ensures
        n == be32_value(b@.subrange(at as int, at + 4)),
{
    16777216 * (b[at] as u32) + 65536 * (b[at + 1] as u32) + 256 * (b[at + 2] as u32) + (b[at + 3] as u32)
}

/// The big-endian number at `at`.
pub(crate) fn get_be64(b: &[u8], at: usize) -> (n: u64)
    requires
        at + 8 <= b@.len(),
    ensures
        n == be64_value(b@.subrange(at as int, at + 8)),
{
    proof {
        let s = b@.subrange(at as int, at + 8);
        assert(s.subrange(0, 4) =~= b@.subrange(at as int, at + 4));
        assert(s.subrange(4, 8) =~= b@.subrange(at + 4, at + 8));
    }
    let end: usize = b.len();
    assert(at + 8 <= end);
    0x1_0000_0000 * (get_be32(b, at) as u64) + (get_be32(b, at + 4) as u64)
}

/// Append the octets of `b` from `from` up to `to`.
pub(crate) fn put_range(out: &mut Vec<u8>, b: &[u8], from: usize, to: usize)
    requires
        from <= to <= b@.len(),
    ensures
        final(out)@ == old(out)@ + b@.subrange(from as int, to as int),
{
    let mut i: usize = from;
    assert(out@ =~= old(out)@ + b@.subrange(from as int, from as int));
    while i < to
        invariant
            from <= i <= to <= b@.len(),
            out@ == old(out)@ + b@.subrange(from as int, i as int),
        decreases to - i,
    {
        out.push(b[i]);
        i = i + 1;
        assert(out@ =~= old(out)@ + b@.subrange(from as int, i as int));
    }
}

/// Append all octets of `b`.
pub(crate) fn put_all(out: &mut Vec<u8>, b: &[u8])
    ensures
        final(out)@ == old(out)@ + b@,
{
    put_range(out, b, 0, b.len());
    assert(b@.subrange(0, b@.len() as int) =~= b@);
}

/// An owned copy of `b`.
pub(crate) fn copy_of(b: &[u8]) -> (out: Vec<u8>)
    ensures
        out@ == b@,
{
    let mut out: Vec<u8> = Vec::new();
    put_all(&mut out, b);
    assert(out@ =~= b@);
    out
}

/// An owned copy of the octets of `b` from `from` up to `to`.
pub(crate) fn copy_range(b: &[u8], from: usize, to: usize) -> (out: Vec<u8>)
    requires
        from <= to <= b@.len(),
    ensures
        out@ == b@.subrange(from as int, to as int),
{
    let mut out: Vec<u8> = Vec::new();
    put_range(&mut out, b, from, to);
    assert(out@ =~= b@.subrange(from as int, to as int));
    out
}

/// Whether two byte strings are equal.
pub(crate) fn same_bytes(a: &[u8], b: &[u8]) -> (same: bool)
    ensures
        same == (a@ == b@),
{
    if a.len() != b.len() {
        return false;
    }
    let mut i: usize = 0;
    while i < a.len()
        invariant
            i <= a@.len(),
            a@.len() == b@.len(),
            forall|j: int| 0 <= j < i ==> a@[j] == b@[j],
        decreases a@.len() - i,
    {
        if a[i] != b[i] {
            return false;
        }
        i = i + 1;
    }
    assert(a@ =~= b@);
    true
}

} // verus!
