//! Text as sequences of characters: substrings, hexadecimal, numbers, white space.
use vstd::prelude::*;
use vstd::string::StringExecFns;

verus! {

/// The characters of `s`, in order.
pub(crate) fn chars_of(s: &str) -> (out: Vec<char>)
    ensures
        out@ == s@,
{
    let mut out: Vec<char> = Vec::new();
    for c in it: s.chars()
        invariant
            out@ == s@.take(it.index()),
            it.seq() == s@,
    {
        out.push(c);
        assert(out@ =~= s@.take(it.index() + 1));
    }
    assert(s@.take(s@.len() as int) =~= s@);
    out
}

/// Whether two pieces of text hold the same characters.
pub(crate) fn same_text(a: &str, b: &str) -> (same: bool)
    ensures
        same == (a@ == b@),
{
    let x: Vec<char> = chars_of(a);
    let y: Vec<char> = chars_of(b);
    if x.len() != y.len() {
        return false;
    }
    let mut i: usize = 0;
    while i < x.len()
        invariant
            i <= x@.len(),
            x@ == a@,
            y@ == b@,
            x@.len() == y@.len(),
            forall|j: int| 0 <= j < i ==> x@[j] == y@[j],
        decreases x@.len() - i,
    {
        if x[i] != y[i] {
            return false;
        }
        i = i + 1;
    }
    assert(x@ =~= y@);
    true
}

/// `part` stands in `whole` starting at `at`.
pub open spec fn occurs_at(whole: Seq<char>, part: Seq<char>, at: int) -> bool {
    0 <= at && at + part.len() <= whole.len() && whole.subrange(at, at + part.len()) == part
}

/// `part` stands somewhere in `whole`.
pub open spec fn text_contains(whole: Seq<char>, part: Seq<char>) -> bool {
    exists|at: int| occurs_at(whole, part, at)
}

/// Whether `part` stands in `whole` at `at`.
fn stands_at(whole: &Vec<char>, part: &Vec<char>, at: usize) -> (found: bool)
    requires
        at + part@.len() <= whole@.len(),
    ensures
        found == occurs_at(whole@, part@, at as int),
{
    let end: usize = whole.len();
    let mut i: usize = 0;
    while i < part.len()
        invariant
            i <= part@.len(),
            end == whole@.len(),
            at + part@.len() <= end,
            forall|j: int| 0 <= j < i ==> whole@[at + j] == part@[j],
        decreases part@.len() - i,
    {
        if whole[at + i] != part[i] {
            assert(whole@.subrange(at as int, at + part@.len())[i as int] != part@[i as int]);
            return false;
        }
        i = i + 1;
    }
    assert(whole@.subrange(at as int, at + part@.len()) =~= part@);
    true
}

/// Whether `part` occurs in `whole` (case-sensitive; the empty text always does).
pub(crate) fn contains(whole: &str, part: &str) -> (found: bool)
    ensures
        found == text_contains(whole@, part@),
{
    let w: Vec<char> = chars_of(whole);
    let p: Vec<char> = chars_of(part);
    if p.len() > w.len() {
        return false;
    }
    let last: usize = w.len() - p.len();
    let mut at: usize = 0;
    loop
        invariant
            w@ == whole@,
            p@ == part@,
            at <= last,
            last == w@.len() - p@.len(),
            forall|j: int| 0 <= j < at ==> !occurs_at(w@, p@, j),
        decreases last - at,
    {
        if stands_at(&w, &p, at) {
            assert(occurs_at(whole@, part@, at as int));
            return true;
        }
        if at == last {
            assert forall|j: int| !occurs_at(whole@, part@, j) by {
                if occurs_at(whole@, part@, j) {
                    assert(j <= last);
                }
            }
            return false;
        }
        at = at + 1;
    }
}

/// The lowercase hexadecimal digit of `n`.
pub open spec fn hex_digit(n: int) -> char {
    if n < 10 {
        (n + 48) as char
    } else {
        (n + 87) as char
    }
}

/// The value of a hexadecimal digit, in either case.
pub open spec fn hex_value(c: char) -> Option<u8> {
    if '0' <= c <= '9' {
        Some((c as int - 48) as u8)
    } else if 'a' <= c <= 'f' {
        Some((c as int - 87) as u8)
    } else if 'A' <= c <= 'F' {
        Some((c as int - 55) as u8)
    } else {
        None
    }
}

/// Two lowercase hexadecimal digits for each octet.
pub open spec fn hex_text(b: Seq<u8>) -> Seq<char> {
    Seq::new(
        2 * b.len(),
        |i: int|
            if i % 2 == 0 {
                hex_digit((b[i / 2] / 16) as int)
            } else {
                hex_digit((b[i / 2] % 16) as int)
            },
    )
}

/// Every character is a hexadecimal digit.
pub open spec fn all_hex(s: Seq<char>) -> bool {
    forall|i: int| 0 <= i < s.len() ==> hex_value(#[trigger] s[i]) is Some
}

/// One octet for each pair of hexadecimal digits.
pub open spec fn hex_octets(s: Seq<char>) -> Seq<u8> {
    Seq::new(
        s.len() / 2,
        |i: int| (16 * hex_value(s[2 * i])->0 + hex_value(s[2 * i + 1])->0) as u8,
    )
}

/// The digit's value, if it is a hexadecimal digit.
pub(crate) fn digit_value(c: char) -> (v: Option<u8>)
    ensures
        v == hex_value(c),
        v matches Some(n) ==> n < 16,
{
    let code: u32 = c as u32;
    if '0' <= c && c <= '9' {
        Some((code - 48) as u8)
    } else if 'a' <= c && c <= 'f' {
        Some((code - 87) as u8)
    } else if 'A' <= c && c <= 'F' {
        Some((code - 55) as u8)
    } else {
        None
    }
}

/// The lowercase hexadecimal digit of `n`, as text.
pub(crate) fn digit_text(n: u8) -> (t: &'static str)
    requires
        n < 16,
    ensures
        t@ == seq![hex_digit(n as int)],
{
    proof {
        reveal_strlit("0");
        reveal_strlit("1");
        reveal_strlit("2");
        reveal_strlit("3");
        reveal_strlit("4");
        reveal_strlit("5");
        reveal_strlit("6");
        reveal_strlit("7");
        reveal_strlit("8");
        reveal_strlit("9");
        reveal_strlit("a");
        reveal_strlit("b");
        reveal_strlit("c");
        reveal_strlit("d");
        reveal_strlit("e");
        reveal_strlit("f");
    }
    let t: &'static str = match n {
        0 => "0",
        1 => "1",
        2 => "2",
        3 => "3",
        4 => "4",
        5 => "5",
        6 => "6",
        7 => "7",
        8 => "8",
        9 => "9",
        10 => "a",
        11 => "b",
        12 => "c",
        13 => "d",
        14 => "e",
        _ => "f",
    };
    assert(t@ =~= seq![hex_digit(n as int)]);
    t
}

/// Append two lowercase hexadecimal digits for each octet.
pub(crate) fn append_hex(out: &mut String, b: &[u8])
    ensures
        final(out)@ == old(out)@ + hex_text(b@),
{
    let mut i: usize = 0;
    assert(out@ =~= old(out)@ + hex_text(b@.take(0)));
    while i < b.len()
        invariant
            i <= b@.len(),
            out@ == old(out)@ + hex_text(b@.take(i as int)),
        decreases b@.len() - i,
    {
        out.append(digit_text(b[i] / 16));
        out.append(digit_text(b[i] % 16));
        i = i + 1;
        assert(hex_text(b@.take(i as int)) =~= hex_text(b@.take(i - 1)).push(
            hex_digit((b@[i - 1] / 16) as int),
        ).push(hex_digit((b@[i - 1] % 16) as int)));
        assert(out@ =~= old(out)@ + hex_text(b@.take(i as int)));
    }
    assert(b@.take(i as int) =~= b@);
}

/// One octet for each pair of hexadecimal digits.
pub(crate) fn pair_up(digits: &Vec<char>) -> (out: Vec<u8>)
    requires
        digits@.len() % 2 == 0,
        all_hex(digits@),
    ensures
        out@ == hex_octets(digits@),
{
    let mut out: Vec<u8> = Vec::new();
    let mut i: usize = 0;
    while i < digits.len()
        invariant
            i <= digits@.len(),
            i % 2 == 0,
            digits@.len() % 2 == 0,
            all_hex(digits@),
            out@ == hex_octets(digits@.take(i as int)),
        decreases digits@.len() - i,
    {
        let hi: u8 = match digit_value(digits[i]) {
            Some(v) => v,
            None => 0,
        };
        let lo: u8 = match digit_value(digits[i + 1]) {
            Some(v) => v,
            None => 0,
        };
        out.push(16 * hi + lo);
        i = i + 2;
        assert(out@ =~= hex_octets(digits@.take(i as int))) by {
            let short = digits@.take(i - 2);
            let long = digits@.take(i as int);
            assert forall|j: int| 0 <= j < out@.len() implies #[trigger] out@[j] == hex_octets(
                long,
            )[j] by {
                if j < out@.len() - 1 {
                    assert(short[2 * j] == long[2 * j] && short[2 * j + 1] == long[2 * j + 1]);
                }
            }
        }
    }
    assert(digits@.take(i as int) =~= digits@);
    out
}

/// Hexadecimal text is made of hexadecimal digits and pairs up to its octets again.
pub proof fn lemma_hex_round_trip(b: Seq<u8>)
    ensures
        hex_text(b).len() == 2 * b.len(),
        all_hex(hex_text(b)),
        hex_octets(hex_text(b)) == b,
        forall|i: int|
            0 <= i < hex_text(b).len() ==> '0' <= #[trigger] hex_text(b)[i] <= '9' || 'a'
                <= hex_text(b)[i] <= 'f',
{
    let t = hex_text(b);
    assert forall|i: int| 0 <= i < t.len() implies hex_value(#[trigger] t[i]) is Some && ('0' <= t[i]
        <= '9' || 'a' <= t[i] <= 'f') by {
        let v = b[i / 2];
        assert(v / 16 < 16 && v % 16 < 16);
    }
    assert forall|i: int| 0 <= i < b.len() implies #[trigger] hex_octets(t)[i] == b[i] by {
        assert((2 * i) / 2 == i && (2 * i + 1) / 2 == i);
        assert((2 * i) % 2 == 0 && (2 * i + 1) % 2 == 1);
        let v = b[i];
        assert(hex_value(t[2 * i]) == Some((v / 16) as u8));
        assert(hex_value(t[2 * i + 1]) == Some((v % 16) as u8));
    }
    assert(hex_octets(t) =~= b);
}

/// The decimal digits of `n`.
pub open spec fn decimal_text(n: nat) -> Seq<char>
    decreases n,
{
    if n < 10 {
        seq![hex_digit(n as int)]
    } else {
        decimal_text(n / 10).push(hex_digit((n % 10) as int))
    }
}

/// The decimal form of `n`.
pub open spec fn signed_text(n: int) -> Seq<char> {
    if n < 0 {
        seq!['-'] + decimal_text((-n) as nat)
    } else {
        decimal_text(n as nat)
    }
}

/// The decimal digits of `n`.
pub(crate) fn decimal(n: u64) -> (t: String)
    ensures
        t@ == decimal_text(n as nat),
    decreases n,
{
    if n < 10 {
        let mut t: String = String::new();
        t.append(digit_text(n as u8));
        assert(t@ =~= decimal_text(n as nat));
        t
    } else {
        let mut t: String = decimal(n / 10);
        t.append(digit_text((n % 10) as u8));
        assert(t@ =~= decimal_text(n as nat));
        t
    }
}

/// The decimal form of `n`.
pub(crate) fn signed(n: i32) -> (t: String)
    ensures
        t@ == signed_text(n as int),
{
    if n < 0 {
        proof {
            reveal_strlit("-");
        }
        let mut t: String = String::new();
        t.append("-");
        let magnitude: u64 = (-(n as i64)) as u64;
        t.append(decimal(magnitude).as_str());
        assert(t@ =~= signed_text(n as int));
        t
    } else {
        decimal(n as u64)
    }
}

/// The pieces of text one behind the other.
pub(crate) fn joined(a: &str, b: &str, c: &str) -> (t: String)
    ensures
        t@ == a@ + b@ + c@,
{
    let mut t: String = String::new();
    t.append(a);
    t.append(b);
    t.append(c);
    assert(t@ =~= a@ + b@ + c@);
    t
}

/// The name of a truth value.
pub open spec fn truth_text(b: bool) -> Seq<char> {
    if b {
        "true"@
    } else {
        "false"@
    }
}

/// The name of a truth value.
pub(crate) fn truth(b: bool) -> (t: &'static str)
    ensures
        t@ == truth_text(b),
{
    if b {
        "true"
    } else {
        "false"
    }
}

/// How Rust's `Debug` shows a text.
pub uninterp spec fn shown_text(s: Seq<char>) -> Seq<char>;

/// `format!("{s:?}")`: the quoted, escaped form of a text. Nothing is claimed of it
/// but that the text alone decides it.
#[verifier::external_body]
pub(crate) fn show_text(s: &str) -> (t: String)
    ensures
        t@ == shown_text(s@),
{
    format!("{s:?}")
}

/// The characters with the Unicode `White_Space` property.
pub open spec fn is_space(c: char) -> bool {
    let n = c as u32;
    ||| 0x09 <= n <= 0x0d
    ||| n == 0x20
    ||| n == 0x85
    ||| n == 0xa0
    ||| n == 0x1680
    ||| 0x2000 <= n <= 0x200a
    ||| n == 0x2028
    ||| n == 0x2029
    ||| n == 0x202f
    ||| n == 0x205f
    ||| n == 0x3000
}

/// Whether `c` has the Unicode `White_Space` property.
pub(crate) fn space(c: char) -> (r: bool)
    ensures
        r == is_space(c),
{
    let n: u32 = c as u32;
    (0x09 <= n && n <= 0x0d) || n == 0x20 || n == 0x85 || n == 0xa0 || n == 0x1680 || (0x2000 <= n
        && n <= 0x200a) || n == 0x2028 || n == 0x2029 || n == 0x202f || n == 0x205f || n == 0x3000
}

/// `s` without the white space in front.
pub open spec fn trim_front(s: Seq<char>) -> Seq<char>
    decreases s.len(),
{
    if s.len() > 0 && is_space(s[0]) {
        trim_front(s.skip(1))
    } else {
        s
    }
}

/// `s` without the white space at its end.
pub open spec fn trim_back(s: Seq<char>) -> Seq<char>
    decreases s.len(),
{
    if s.len() > 0 && is_space(s.last()) {
        trim_back(s.drop_last())
    } else {
        s
    }
}

/// `s` without the white space around it.
pub open spec fn trimmed(s: Seq<char>) -> Seq<char> {
    trim_back(trim_front(s))
}

/// The characters of `s` without the white space around them.
pub(crate) fn trim(s: &str) -> (out: Vec<char>)
    ensures
        out@ == trimmed(s@),
{
    let all: Vec<char> = chars_of(s);
    let mut from: usize = 0;
    assert(all@.skip(0) =~= all@);
    while from < all.len() && space(all[from])
        invariant
            from <= all@.len(),
            trim_front(all@) == trim_front(all@.skip(from as int)),
        decreases all@.len() - from,
    {
        assert(all@.skip(from as int).skip(1) =~= all@.skip(from + 1));
        from = from + 1;
    }
    let ghost kept = all@.skip(from as int);
    assert(trim_front(all@) == kept);
    let mut to: usize = all.len();
    assert(all@.subrange(from as int, to as int) =~= kept);
    while from < to && space(all[to - 1])
        invariant
            from <= to <= all@.len(),
            trim_back(kept) == trim_back(all@.subrange(from as int, to as int)),
        decreases to,
    {
        assert(all@.subrange(from as int, to as int).drop_last() =~= all@.subrange(
            from as int,
            to - 1,
        ));
        to = to - 1;
    }
    let mut out: Vec<char> = Vec::new();
    let mut i: usize = from;
    while i < to
        invariant
            from <= i <= to <= all@.len(),
            out@ == all@.subrange(from as int, i as int),
        decreases to - i,
    {
        out.push(all[i]);
        i = i + 1;
        assert(out@ =~= all@.subrange(from as int, i as int));
    }
    out
}

/// Trimming gives back a text that white space was put around.
pub proof fn lemma_trimmed(before: Seq<char>, t: Seq<char>, after: Seq<char>)
    requires
        forall|i: int| 0 <= i < before.len() ==> is_space(#[trigger] before[i]),
        forall|i: int| 0 <= i < after.len() ==> is_space(#[trigger] after[i]),
        t.len() > 0 ==> !is_space(t[0]) && !is_space(t.last()),
    ensures
        trimmed(before + t + after) == t,
{
    if t.len() == 0 {
        let all = before + t + after;
        assert forall|i: int| 0 <= i < all.len() implies is_space(#[trigger] all[i]) by {
            if i >= before.len() {
                assert(all[i] == after[i - before.len()]);
            }
        }
        lemma_trim_front_all(all);
        assert(t =~= Seq::empty());
    } else {
        assert(before + t + after =~= before + (t + after));
        lemma_trim_front(before, t + after);
        lemma_trim_back(t, after);
    }
}

proof fn lemma_trim_front_all(s: Seq<char>)
    requires
        forall|i: int| 0 <= i < s.len() ==> is_space(#[trigger] s[i]),
    ensures
        trim_front(s) == Seq::<char>::empty(),
    decreases s.len(),
{
    if s.len() > 0 {
        lemma_trim_front_all(s.skip(1));
    } else {
        assert(s =~= Seq::empty());
    }
}

proof fn lemma_trim_front(before: Seq<char>, t: Seq<char>)
    requires
        forall|i: int| 0 <= i < before.len() ==> is_space(#[trigger] before[i]),
        t.len() > 0,
        !is_space(t[0]),
    ensures
        trim_front(before + t) == t,
    decreases before.len(),
{
    if before.len() == 0 {
        assert(before + t =~= t);
    } else {
        assert((before + t)[0] == before[0]);
        assert((before + t).skip(1) =~= before.skip(1) + t);
        lemma_trim_front(before.skip(1), t);
    }
}

proof fn lemma_trim_back(t: Seq<char>, after: Seq<char>)
    requires
        forall|i: int| 0 <= i < after.len() ==> is_space(#[trigger] after[i]),
        t.len() > 0,
        !is_space(t.last()),
    ensures
        trim_back(t + after) == t,
    decreases after.len(),
{
    if after.len() == 0 {
        assert(t + after =~= t);
    } else {
        assert((t + after).last() == after.last());
        assert((t + after).drop_last() =~= t + after.drop_last());
        lemma_trim_back(t, after.drop_last());
    }
}

/// The uppercase hexadecimal digit of `n`.
pub open spec fn upper_digit(n: int) -> char {
    if n < 10 {
        (n + 48) as char
    } else {
        (n + 55) as char
    }
}

/// Two uppercase hexadecimal digits for each octet.
pub open spec fn upper_hex_text(b: Seq<u8>) -> Seq<char> {
    Seq::new(
        2 * b.len(),
        |i: int|
            if i % 2 == 0 {
                upper_digit((b[i / 2] / 16) as int)
            } else {
                upper_digit((b[i / 2] % 16) as int)
            },
    )
}

/// The uppercase hexadecimal digit of `n`, as text.
fn upper_digit_text(n: u8) -> (t: &'static str)
    requires
        n < 16,
    ensures
        t@ == seq![upper_digit(n as int)],
{
    proof {
        reveal_strlit("A");
        reveal_strlit("B");
        reveal_strlit("C");
        reveal_strlit("D");
        reveal_strlit("E");
        reveal_strlit("F");
    }
    let t: &'static str = match n {
        10 => "A",
        11 => "B",
        12 => "C",
        13 => "D",
        14 => "E",
        15 => "F",
        _ => digit_text(n),
    };
    assert(t@ =~= seq![upper_digit(n as int)]);
    t
}

/// Append two uppercase hexadecimal digits for each octet.
pub(crate) fn append_upper_hex(out: &mut String, b: &[u8])
    ensures
        final(out)@ == old(out)@ + upper_hex_text(b@),
{
    let mut i: usize = 0;
    assert(out@ =~= old(out)@ + upper_hex_text(b@.take(0)));
    while i < b.len()
        invariant
            i <= b@.len(),
            out@ == old(out)@ + upper_hex_text(b@.take(i as int)),
        decreases b@.len() - i,
    {
        out.append(upper_digit_text(b[i] / 16));
        out.append(upper_digit_text(b[i] % 16));
        i = i + 1;
        assert(upper_hex_text(b@.take(i as int)) =~= upper_hex_text(b@.take(i - 1)).push(
            upper_digit((b@[i - 1] / 16) as int),
        ).push(upper_digit((b@[i - 1] % 16) as int)));
        assert(out@ =~= old(out)@ + upper_hex_text(b@.take(i as int)));
    }
    assert(b@.take(i as int) =~= b@);
}

/// The value of a digit in a base of at most 16.
pub open spec fn digit_in(c: char, radix: nat) -> Option<nat> {
    match hex_value(c) {
        Some(v) => if (v as nat) < radix {
            Some(v as nat)
        } else {
            None
        },
        None => None,
    }
}

/// The number that digits stand for; nothing if one of them is no digit.
pub open spec fn digits_value(s: Seq<char>, radix: nat) -> Option<nat>
    decreases s.len(),
{
    if s.len() == 0 {
        Some(0)
    } else {
        match (digits_value(s.drop_last(), radix), digit_in(s.last(), radix)) {
            (Some(v), Some(d)) => Some(v * radix + d),
            _ => None,
        }
    }
}

/// The 32-bit number that a text stands for: at least one digit, behind an
/// optional plus sign.
pub open spec fn number_value(s: Seq<char>, radix: nat) -> Option<u32> {
    let body = if s.len() > 0 && s[0] == '+' {
        s.skip(1)
    } else {
        s
    };
    if body.len() == 0 {
        None
    } else {
        match digits_value(body, radix) {
            Some(v) => if v <= u32::MAX {
                Some(v as u32)
            } else {
                None
            },
            None => None,
        }
    }
}

proof fn lemma_bad_digit_stays(s: Seq<char>, n: int, radix: nat)
    requires
        0 <= n <= s.len(),
        digits_value(s.take(n), radix) is None,
    ensures
        digits_value(s, radix) is None,
    decreases s.len() - n,
{
    if n < s.len() {
        assert(s.take(n + 1).drop_last() =~= s.take(n));
        lemma_bad_digit_stays(s, n + 1, radix);
    } else {
        assert(s.take(n) =~= s);
    }
}

/// The 32-bit number that characters from `from` on stand for, in base `radix`.
pub(crate) fn parse_number(text: &Vec<char>, from: usize, radix: u32) -> (r: Option<u32>)
    requires
        from <= text@.len(),
        radix == 10 || radix == 16,
    ensures
        r == number_value(text@.skip(from as int), radix as nat),
{
    let ghost all = text@.skip(from as int);
    let mut start: usize = from;
    if start < text.len() && text[start] == '+' {
        start = start + 1;
        assert(all.skip(1) =~= text@.skip(start as int));
    }
    let ghost body = text@.skip(start as int);
    if start == text.len() {
        return None;
    }
    let mut value: u64 = 0;
    let mut too_big: bool = false;
    let mut i: usize = start;
    assert(body.take(0) =~= Seq::empty());
    while i < text.len()
        invariant
            start <= i <= text@.len(),
            all == text@.skip(from as int),
            body == text@.skip(start as int),
            body == (if all.len() > 0 && all[0] == '+' {
                all.skip(1)
            } else {
                all
            }),
            radix == 10 || radix == 16,
            digits_value(body.take(i - start), radix as nat) is Some,
            !too_big ==> digits_value(body.take(i - start), radix as nat) == Some(value as nat)
                && value <= u32::MAX,
            too_big ==> digits_value(body.take(i - start), radix as nat)->0 > u32::MAX,
        decreases text@.len() - i,
    {
        let c: char = text[i];
        proof {
            assert(body.take(i - start + 1).drop_last() =~= body.take(i - start));
            assert(body.take(i - start + 1).last() == c);
        }
        let d: u8 = match digit_value(c) {
            Some(v) => v,
            None => {
                proof {
                    lemma_bad_digit_stays(body, i - start + 1, radix as nat);
                }
                return None;
            },
        };
        if d as u32 >= radix {
            proof {
                lemma_bad_digit_stays(body, i - start + 1, radix as nat);
            }
            return None;
        }
        let ghost v = digits_value(body.take(i - start), radix as nat)->0;
        assert(v * radix >= v && v * radix <= v * 16) by (nonlinear_arith)
            requires
                10 <= radix <= 16,
        ;
        if !too_big {
            assert(value * radix <= 0xffff_ffff * 16) by (nonlinear_arith)
                requires
                    value <= u32::MAX,
                    radix <= 16,
            ;
            value = value * (radix as u64) + d as u64;
            if value > 0xffff_ffff {
                too_big = true;
            }
        }
        i = i + 1;
    }
    assert(body.take(i - start) =~= body);
    if too_big {
        None
    } else {
        Some(value as u32)
    }
}

/// A text contains another exactly if it is that text with something, or nothing, in
/// front of it and behind it.
pub proof fn law_contained_text_stands_inside(front: Seq<char>, part: Seq<char>, back: Seq<char>)
    ensures
        text_contains(front + part + back, part),
{
    let whole = front + part + back;
    assert(whole.subrange(front.len() as int, (front.len() + part.len()) as int) =~= part);
    assert(occurs_at(whole, part, front.len() as int));
}

/// Where a text contains another, the characters of that other stand in it in a row; a
/// shorter text never contains a longer one.
pub proof fn law_contained_text_is_found(whole: Seq<char>, part: Seq<char>) -> (at: int)
    requires
        text_contains(whole, part),
    ensures
        0 <= at,
        at + part.len() <= whole.len(),
        forall|i: int| 0 <= i < part.len() ==> whole[at + i] == #[trigger] part[i],
        part.len() <= whole.len(),
{
    let at = choose|at: int| occurs_at(whole, part, at);
    assert forall|i: int| 0 <= i < part.len() implies whole[at + i] == #[trigger] part[i] by {
        assert(whole.subrange(at, at + part.len())[i] == part[i]);
    }
    at
}

/// A hexadecimal digit has one value in both cases, and each value below 16 has its digit:
/// the decimal digits first, then the letters from `a` and from `A` on.
pub proof fn law_hexadecimal_digits(n: int)
    requires
        0 <= n < 16,
    ensures
        hex_value(hex_digit(n)) == Some(n as u8),
        hex_value(upper_digit(n)) == Some(n as u8),
        n < 10 ==> hex_digit(n) as int == '0' as int + n && upper_digit(n) == hex_digit(n),
        n >= 10 ==> hex_digit(n) as int == 'a' as int + n - 10 && upper_digit(n) as int == 'A' as int + n
            - 10,
{
}

/// A character without a value is no hexadecimal digit, and one with a value is the digit
/// of that value, in one of the two cases.
pub proof fn law_hexadecimal_value_is_of_a_digit(c: char)
    ensures
        hex_value(c) matches Some(v) ==> v < 16 && (c == hex_digit(v as int) || c == upper_digit(
            v as int,
        )),
        hex_value(c) is None ==> forall|n: int|
            0 <= n < 16 ==> c != #[trigger] hex_digit(n) && c != upper_digit(n),
{
}

/// Two digits for each octet, the high half first: reading the text gives the octets back.
pub proof fn law_uppercase_hexadecimal_round_trips(b: Seq<u8>)
    ensures
        upper_hex_text(b).len() == 2 * b.len(),
        all_hex(upper_hex_text(b)),
        hex_octets(upper_hex_text(b)) == b,
        forall|i: int|
            0 <= i < upper_hex_text(b).len() ==> '0' <= #[trigger] upper_hex_text(b)[i] <= '9' || 'A'
                <= upper_hex_text(b)[i] <= 'F',
{
    let t = upper_hex_text(b);
    assert forall|i: int| 0 <= i < b.len() implies hex_octets(t)[i] == #[trigger] b[i] by {
        let v = b[i];
        assert(t[2 * i] == upper_digit((v / 16) as int));
        assert(t[2 * i + 1] == upper_digit((v % 16) as int));
        law_hexadecimal_digits((v / 16) as int);
        law_hexadecimal_digits((v % 16) as int);
    }
    assert(hex_octets(t) =~= b);
}

/// The decimal form of a number stands for it: its digits read back give the number, and
/// it begins with a zero only if it is zero.
pub proof fn law_decimal_form_reads_back(n: nat)
    ensures
        digits_value(decimal_text(n), 10) == Some(n),
        decimal_text(n).len() > 0,
        n > 0 ==> decimal_text(n)[0] != '0',
        forall|i: int|
            0 <= i < decimal_text(n).len() ==> '0' <= #[trigger] decimal_text(n)[i] <= '9',
    decreases n,
{
    let t = decimal_text(n);
    if n < 10 {
        reveal_with_fuel(digits_value, 2);
        assert(t.drop_last() =~= Seq::empty());
    } else {
        law_decimal_form_reads_back(n / 10);
        assert(t.drop_last() =~= decimal_text(n / 10));
        assert(t[0] == decimal_text(n / 10)[0]);
        assert((n / 10) * 10 + n % 10 == n);
    }
}

/// The decimal form of a signed number has a minus sign in front exactly if it is
/// negative, and then the digits of its magnitude.
pub proof fn law_signed_form_has_its_sign(n: int)
    ensures
        n < 0 <==> signed_text(n)[0] == '-',
        n >= 0 ==> digits_value(signed_text(n), 10) == Some(n as nat),
        n < 0 ==> digits_value(signed_text(n).skip(1), 10) == Some((-n) as nat),
{
    if n < 0 {
        law_decimal_form_reads_back((-n) as nat);
        assert(signed_text(n).skip(1) =~= decimal_text((-n) as nat));
    } else {
        law_decimal_form_reads_back(n as nat);
    }
}

/// Every number of 32 bits is read from its decimal form, and no larger one is.
pub proof fn law_numbers_are_read_from_their_decimal_form(n: nat)
    ensures
        n <= u32::MAX ==> number_value(decimal_text(n), 10) == Some(n as u32),
        n > u32::MAX ==> number_value(decimal_text(n), 10) is None,
{
    law_decimal_form_reads_back(n);
}

/// A plus sign in front of a number changes nothing; a sign alone, or nothing at all, is
/// no number.
pub proof fn law_plus_sign_changes_nothing(s: Seq<char>, radix: nat)
    ensures
        s.len() > 0 && s[0] != '+' ==> number_value(seq!['+'] + s, radix) == number_value(s, radix),
        s.len() == 0 ==> number_value(seq!['+'] + s, radix) is None && number_value(s, radix) is None,
{
    assert((seq!['+'] + s).skip(1) =~= s);
}

/// Digits are positional: one more digit multiplies what stood before by the base and adds
/// the digit's value.
pub proof fn law_digits_are_positional(s: Seq<char>, c: char, radix: nat)
    ensures
        digits_value(s.push(c), radix) == match (digits_value(s, radix), hex_value(c)) {
            (Some(v), Some(d)) => if d < radix {
                Some(v * radix + d as nat)
            } else {
                None
            },
            _ => None,
        },
        digits_value(Seq::empty(), radix) == Some(0nat),
{
    assert(s.push(c).drop_last() =~= s);
}

/// A text with a character that is no digit of the base, wherever it stands but for a plus
/// sign in front, is no number.
pub proof fn law_stray_character_is_no_number(s: Seq<char>, i: int, radix: nat)
    requires
        0 <= i < s.len(),
        i > 0 || s[0] != '+',
        hex_value(s[i]) matches Some(d) ==> d >= radix,
    ensures
        number_value(s, radix) is None,
{
    let body = if s[0] == '+' {
        s.skip(1)
    } else {
        s
    };
    let at = if s[0] == '+' {
        i - 1
    } else {
        i
    };
    assert(body[at] == s[i]);
    assert(body.take(at + 1).last() == s[i]);
    lemma_bad_digit_stays(body, at + 1, radix);
}

/// Trimming cuts white space off both ends, and nothing else: what is left neither begins
/// nor ends with it.
pub proof fn law_trimming_cuts_white_space_alone(s: Seq<char>) -> (cut: (int, int))
    ensures
        0 <= cut.0 <= cut.1 <= s.len(),
        trimmed(s) == s.subrange(cut.0, cut.1),
        forall|i: int| 0 <= i < cut.0 ==> is_space(#[trigger] s[i]),
        forall|i: int| cut.1 <= i < s.len() ==> is_space(#[trigger] s[i]),
        trimmed(s).len() > 0 ==> !is_space(trimmed(s)[0]) && !is_space(trimmed(s).last()),
{
    let a = lemma_front_cut(s);
    let kept = s.skip(a);
    let b = lemma_back_cut(kept);
    assert(trimmed(s) =~= s.subrange(a, a + b));
    assert forall|i: int| a + b <= i < s.len() implies is_space(#[trigger] s[i]) by {
        assert(kept[i - a] == s[i]);
    }
    if trimmed(s).len() > 0 {
        assert(trimmed(s)[0] == kept[0]);
    }
    (a, a + b)
}

proof fn lemma_front_cut(s: Seq<char>) -> (a: int)
    ensures
        0 <= a <= s.len(),
        trim_front(s) == s.skip(a),
        forall|i: int| 0 <= i < a ==> is_space(#[trigger] s[i]),
        a < s.len() ==> !is_space(s[a]),
    decreases s.len(),
{
    if s.len() > 0 && is_space(s[0]) {
        let rest = s.skip(1);
        let b = lemma_front_cut(rest);
        assert(rest.skip(b) =~= s.skip(b + 1));
        assert forall|i: int| 0 <= i < b + 1 implies is_space(#[trigger] s[i]) by {
            if i > 0 {
                assert(rest[i - 1] == s[i]);
            }
        }
        if b + 1 < s.len() {
            assert(rest[b] == s[b + 1]);
        }
        b + 1
    } else {
        assert(s.skip(0) =~= s);
        0
    }
}

proof fn lemma_back_cut(s: Seq<char>) -> (b: int)
    ensures
        0 <= b <= s.len(),
        trim_back(s) == s.take(b),
        forall|i: int| b <= i < s.len() ==> is_space(#[trigger] s[i]),
        b > 0 ==> !is_space(s[b - 1]),
    decreases s.len(),
{
    if s.len() > 0 && is_space(s.last()) {
        let rest = s.drop_last();
        let b = lemma_back_cut(rest);
        assert(rest.take(b) =~= s.take(b));
        assert forall|i: int| b <= i < s.len() implies is_space(#[trigger] s[i]) by {
            if i < rest.len() {
                assert(rest[i] == s[i]);
            }
        }
        if b > 0 {
            assert(rest[b - 1] == s[b - 1]);
        }
        b
    } else {
        assert(s.take(s.len() as int) =~= s);
        s.len() as int
    }
}

/// The first `n` characters of `part` stand in `whole` from `at` on.
pub open spec fn stands(whole: Seq<char>, at: int, part: Seq<char>, n: nat) -> bool
    decreases n,
{
    n == 0 || (whole[at + n - 1] == part[n - 1] && stands(whole, at, part, (n - 1) as nat))
}

pub(crate) proof fn lemma_stands(whole: Seq<char>, at: int, part: Seq<char>, n: nat)
    requires
        stands(whole, at, part, n),
    ensures
        forall|i: int| 0 <= i < n ==> whole[at + i] == #[trigger] part[i],
    decreases n,
{
    if n > 0 {
        lemma_stands(whole, at, part, (n - 1) as nat);
    }
}

/// What stands in a text is contained in it.
pub(crate) proof fn lemma_contains_at(whole: Seq<char>, at: int, part: Seq<char>)
    requires
        0 <= at,
        at + part.len() <= whole.len(),
        stands(whole, at, part, part.len()),
    ensures
        text_contains(whole, part),
{
    lemma_stands(whole, at, part, part.len());
    assert(whole.subrange(at, at + part.len()) =~= part);
    assert(occurs_at(whole, part, at));
}

/// What a text contains, a longer one around it contains too.
pub(crate) proof fn lemma_contains_around(
    front: Seq<char>,
    whole: Seq<char>,
    back: Seq<char>,
    part: Seq<char>,
)
    requires
        text_contains(whole, part),
    ensures
        text_contains(front + whole + back, part),
{
    let at = choose|at: int| occurs_at(whole, part, at);
    let all = front + whole + back;
    assert(all.subrange(front.len() + at, front.len() + at + part.len()) =~= whole.subrange(
        at,
        at + part.len(),
    ));
    assert(occurs_at(all, part, front.len() + at));
}

/// A text without a sign is the number that its digits stand for, whenever there is one
/// and it fits in 32 bits, in any base.
pub proof fn law_number_is_what_its_digits_say(s: Seq<char>, radix: nat)
    requires
        s.len() > 0,
        s[0] != '+',
    ensures
        number_value(s, radix) matches Some(n) ==> digits_value(s, radix) == Some(n as nat),
        number_value(s, radix) is None ==> (digits_value(s, radix) matches Some(v) ==> v > u32::MAX),
{
}

/// White space is what Unicode counts as such, 25 characters in all.
pub proof fn law_white_space_characters(c: char)
    ensures
        is_space(c) <==> seq![
            9u32, 10u32, 11u32, 12u32, 13u32, 32u32, 133u32, 160u32, 5760u32, 8192u32, 8193u32, 8194u32,
            8195u32, 8196u32, 8197u32, 8198u32, 8199u32, 8200u32, 8201u32, 8202u32, 8232u32, 8233u32,
            8239u32, 8287u32, 12288u32,
        ].contains(c as u32),
{
    let all = seq![
        9u32, 10u32, 11u32, 12u32, 13u32, 32u32, 133u32, 160u32, 5760u32, 8192u32, 8193u32, 8194u32,
        8195u32, 8196u32, 8197u32, 8198u32, 8199u32, 8200u32, 8201u32, 8202u32, 8232u32, 8233u32,
        8239u32, 8287u32, 12288u32,
    ];
    let n = c as u32;
    if is_space(c) {
        let at = if n <= 13 {
            n - 9
        } else if n == 32 {
            5
        } else if n == 133 {
            6
        } else if n == 160 {
            7
        } else if n == 5760 {
            8
        } else if n <= 8202 {
            n - 8192 + 9
        } else if n == 8232 {
            20
        } else if n == 8233 {
            21
        } else if n == 8239 {
            22
        } else if n == 8287 {
            23
        } else {
            24
        };
        assert(all[at as int] == n);
    }
}

} // verus!
