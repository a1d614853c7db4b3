//! What the method's registration writes. The host discovers peer methods under
//! the methods key, by author id and type id.
use crate::bytes::put_le32;
use crate::eaphost::error::EapHostError;
use crate::eaphost::{USG_AUTHOR_ID, USG_TYPE_ID};
use crate::text::{chars_of, decimal};
use vstd::prelude::*;
use vstd::string::StringExecFns;

verus! {

/// Friendly name shown for the method.
pub const FRIENDLY_NAME: &'static str = "usg-TEAP/1.3";

/// What the method advertises: MPPE keys, a tunnel method, configuration, machine
/// authentication, user authentication, identity privacy. A zero mask would make
/// the host treat the method as capable of nothing.
pub const METHOD_PROPERTIES: u32 = 0x0008_0000 + 0x0010_0000 + 0x0020_0000 + 0x0100_0000
    + 0x0200_0000 + 0x0400_0000;

/// The method's key below `base`: author id, then type id, in decimal.
pub open spec fn subkey_text(base: Seq<char>) -> Seq<char> {
    base + "\\"@ + crate::text::decimal_text(USG_AUTHOR_ID as nat) + "\\"@
        + crate::text::decimal_text(USG_TYPE_ID as nat)
}

/// The method's key below `base`.
pub fn method_subkey(base: &str) -> (t: String)
    ensures
        t@ == subkey_text(base@),
{
    let mut t: String = base.to_owned();
    t.append("\\");
    t.append(decimal(USG_AUTHOR_ID as u64).as_str());
    t.append("\\");
    t.append(decimal(USG_TYPE_ID as u64).as_str());
    t
}

/// The data of a registry value.
#[derive(Debug, Clone, PartialEq, Eq)]
pub enum RegistryData {
    /// A text.
    Text(String),
    /// A number.
    Number(u32),
}

/// One registry value.
#[derive(Debug, Clone, PartialEq, Eq)]
pub struct RegistryValue {
    /// The value's name.
    pub name: &'static str,
    /// The value's data.
    pub data: RegistryData,
}

impl RegistryValue {
    /// The value is the text `t` under `n`.
    pub open spec fn is_text(self, n: Seq<char>, t: Seq<char>) -> bool {
        self.name@ == n && (self.data matches RegistryData::Text(s) && s@ == t)
    }

    /// The value is the number `v` under `n`.
    pub open spec fn is_number(self, n: Seq<char>, v: u32) -> bool {
        self.name@ == n && self.data == RegistryData::Number(v)
    }
}

/// The values of the method's registration, in order: the DLL in its three roles,
/// the friendly name, no credential dialogs, and the properties.
pub fn registry_values(dll_path: &str) -> (v: Vec<RegistryValue>)
    ensures
        v@.len() == 7,
        v@[0].is_text("PeerDllPath"@, dll_path@),
        v@[1].is_text("PeerIdentityPath"@, dll_path@),
        v@[2].is_text("PeerConfigUIPath"@, dll_path@),
        v@[3].is_text("PeerFriendlyName"@, FRIENDLY_NAME@),
        v@[4].is_number("PeerInvokeUsernameDialog"@, 0),
        v@[5].is_number("PeerInvokePasswordDialog"@, 0),
        v@[6].is_number("Properties"@, METHOD_PROPERTIES),
{
    let mut v: Vec<RegistryValue> = Vec::new();
    v.push(RegistryValue { name: "PeerDllPath", data: RegistryData::Text(dll_path.to_owned()) });
    v.push(
        RegistryValue { name: "PeerIdentityPath", data: RegistryData::Text(dll_path.to_owned()) },
    );
    v.push(
        RegistryValue { name: "PeerConfigUIPath", data: RegistryData::Text(dll_path.to_owned()) },
    );
    v.push(
        RegistryValue {
            name: "PeerFriendlyName",
            data: RegistryData::Text(FRIENDLY_NAME.to_owned()),
        },
    );
    v.push(RegistryValue { name: "PeerInvokeUsernameDialog", data: RegistryData::Number(0) });
    v.push(RegistryValue { name: "PeerInvokePasswordDialog", data: RegistryData::Number(0) });
    v.push(
        RegistryValue { name: "Properties", data: RegistryData::Number(METHOD_PROPERTIES) },
    );
    v
}

/// The UTF-16 code units of a character: one, or a surrogate pair.
pub open spec fn utf16_units(c: char) -> Seq<u16> {
    let n = c as u32;
    if n < 0x10000 {
        seq![n as u16]
    } else {
        seq![(0xd800 + (n - 0x10000) / 1024) as u16, (0xdc00 + (n - 0x10000) % 1024) as u16]
    }
}

/// The UTF-16 code units of a text.
pub open spec fn utf16(s: Seq<char>) -> Seq<u16>
    decreases s.len(),
{
    if s.len() == 0 {
        Seq::empty()
    } else {
        utf16(s.drop_last()) + utf16_units(s.last())
    }
}

/// The wide form of a text: its UTF-16 code units and a terminating zero.
pub fn wide(s: &str) -> (w: Vec<u16>)
    ensures
        w@ == utf16(s@).push(0),
{
    let chars: Vec<char> = chars_of(s);
    let mut w: Vec<u16> = Vec::new();
    let mut i: usize = 0;
    assert(chars@.take(0) =~= Seq::empty());
    while i < chars.len()
        invariant
            i <= chars@.len(),
            w@ == utf16(chars@.take(i as int)),
        decreases chars@.len() - i,
    {
        let n: u32 = chars[i] as u32;
        if n < 0x10000 {
            w.push(n as u16);
        } else {
            w.push((0xd800 + (n - 0x10000) / 1024) as u16);
            w.push((0xdc00 + (n - 0x10000) % 1024) as u16);
        }
        i = i + 1;
        assert(chars@.take(i as int).drop_last() =~= chars@.take(i - 1));
        assert(w@ =~= utf16(chars@.take(i as int)));
    }
    assert(chars@.take(i as int) =~= chars@);
    w.push(0);
    w
}

/// The little-endian octets of code units.
pub open spec fn unit_octets(w: Seq<u16>) -> Seq<u8> {
    Seq::new(
        2 * w.len(),
        |i: int|
            if i % 2 == 0 {
                (w[i / 2] % 256) as u8
            } else {
                (w[i / 2] / 256) as u8
            },
    )
}

/// The octets of code units, as a text value stores them.
pub fn u16_bytes(w: &[u16]) -> (b: Vec<u8>)
    ensures
        b@ == unit_octets(w@),
{
    let mut b: Vec<u8> = Vec::new();
    let mut i: usize = 0;
    while i < w.len()
        invariant
            i <= w@.len(),
            b@ == unit_octets(w@.take(i as int)),
        decreases w@.len() - i,
    {
        b.push((w[i] % 256) as u8);
        b.push((w[i] / 256) as u8);
        i = i + 1;
        assert(b@ =~= unit_octets(w@.take(i as int)));
    }
    assert(w@.take(i as int) =~= w@);
    b
}

/// The octets that the registry stores for a value: the wide text, or the number
/// in little-endian order.
pub fn data_octets(data: &RegistryData) -> (b: Vec<u8>)
    ensures
        b@ == (match *data {
            RegistryData::Text(t) => unit_octets(utf16(t@).push(0)),
            RegistryData::Number(n) => crate::bytes::le32(n),
        }),
{
    match data {
        RegistryData::Text(t) => u16_bytes(wide(t.as_str()).as_slice()),
        RegistryData::Number(n) => {
            let mut b: Vec<u8> = Vec::new();
            put_le32(&mut b, *n);
            assert(b@ =~= crate::bytes::le32(*n));
            b
        },
    }
}

/// What a platform status means: zero is success.
pub fn win32(code: u32) -> (r: Result<(), EapHostError>)
    ensures
        r == (if code == 0 {
            Ok::<(), EapHostError>(())
        } else {
            Err(EapHostError::Win32 { code })
        }),
{
    if code == 0 {
        Ok(())
    } else {
        Err(EapHostError::Win32 { code })
    }
}

/// The text that UTF-16 code units stand for, read from the back.
pub open spec fn from_utf16(w: Seq<u16>) -> Seq<char>
    decreases w.len(),
{
    if w.len() == 0 {
        Seq::empty()
    } else if w.len() >= 2 && 0xdc00 <= w.last() <= 0xdfff {
        from_utf16(w.drop_last().drop_last()).push(
            (0x10000 + (w[w.len() - 2] - 0xd800) * 1024 + (w.last() - 0xdc00)) as char,
        )
    } else {
        from_utf16(w.drop_last()).push(w.last() as char)
    }
}

/// The wide form loses nothing: its code units stand for the text.
pub proof fn law_wide_keeps_the_text(s: Seq<char>)
    ensures
        from_utf16(utf16(s)) == s,
    decreases s.len(),
{
    if s.len() == 0 {
        assert(from_utf16(utf16(s)) =~= s);
    } else {
        let front = s.drop_last();
        let c = s.last();
        law_wide_keeps_the_text(front);
        let w = utf16(s);
        let units = utf16_units(c);
        vstd::utf8::char_is_scalar(c);
        vstd::utf8::char_u32_cast(c, c as u32);
        assert(w == utf16(front) + units);
        if (c as u32) < 0x10000 {
            assert(w.drop_last() =~= utf16(front));
            assert(w.last() == units[0]);
            assert(!(0xd800 <= c as u32 && c as u32 <= 0xdfff));
            assert(w.last() as char == c);
        } else {
            let v = (c as u32 - 0x10000) as u32;
            assert(v < 0x100000);
            assert(units[0] == 0xd800 + v / 1024);
            assert(units[1] == 0xdc00 + v % 1024);
            assert(w.drop_last().drop_last() =~= utf16(front));
            assert(w.last() == units[1]);
            assert(w[w.len() - 2] == units[0]);
            assert(0x10000 + (v / 1024) * 1024 + v % 1024 == c as u32);
        }
        assert(from_utf16(w) =~= front.push(c));
        assert(front.push(c) =~= s);
    }
}

/// The method's key ends with the author id and the type id below the given key.
pub proof fn law_method_key_names_author_and_type(base: &str, t: String)
    requires
        call_ensures(method_subkey, (base,), t),
    ensures
        t@ == base@ + "\\192000\\55"@,
{
    reveal_with_fuel(crate::text::decimal_text, 6);
    reveal_strlit("\\192000\\55");
    reveal_strlit("\\");
    assert(crate::text::decimal_text(192000) =~= seq!['1', '9', '2', '0', '0', '0']);
    assert(crate::text::decimal_text(55) =~= seq!['5', '5']);
    assert("\\192000\\55"@ =~= seq!['\\', '1', '9', '2', '0', '0', '0', '\\', '5', '5']) by {
        assert("\\192000\\55"@.len() == 10);
    }
    assert(t@ =~= base@ + "\\192000\\55"@);
}

/// The registration names the same library in its three roles and nothing else of the
/// caller's; it shows no credential dialog, and no name occurs twice.
pub proof fn law_registration_points_at_the_library(
    one: &str,
    other: &str,
    v: Vec<RegistryValue>,
    w: Vec<RegistryValue>,
    i: int,
    j: int,
)
    requires
        call_ensures(registry_values, (one,), v),
        call_ensures(registry_values, (other,), w),
        0 <= i < v@.len(),
        0 <= j < v@.len(),
        i != j,
    ensures
        v@.len() == w@.len(),
        v@[i].name@ == w@[i].name@,
        v@[i].name@ != v@[j].name@,
        v@[i].name@ == "PeerDllPath"@ || v@[i].name@ == "PeerIdentityPath"@ || v@[i].name@
            == "PeerConfigUIPath"@ <==> (v@[i].data matches RegistryData::Text(t) && t@ == one@
            && i < 3),
        v@[i].name@ == "PeerInvokeUsernameDialog"@ || v@[i].name@ == "PeerInvokePasswordDialog"@
            ==> v@[i].data == RegistryData::Number(0),
        v@[i].name@ == "Properties"@ ==> v@[i].data == RegistryData::Number(0x0738_0000),
        v@[i].name@ == "PeerFriendlyName"@ ==> (v@[i].data matches RegistryData::Text(t) && t@
            == "usg-TEAP/1.3"@),
        exists|k: int| 0 <= k < v@.len() && (#[trigger] v@[k]).name@ == "PeerDllPath"@,
        exists|k: int| 0 <= k < v@.len() && (#[trigger] v@[k]).name@ == "PeerFriendlyName"@,
        exists|k: int| 0 <= k < v@.len() && (#[trigger] v@[k]).name@ == "Properties"@,
        exists|k: int| 0 <= k < v@.len() && (#[trigger] v@[k]).name@ == "PeerInvokeUsernameDialog"@,
        exists|k: int| 0 <= k < v@.len() && (#[trigger] v@[k]).name@ == "PeerInvokePasswordDialog"@,
{
    reveal_strlit("PeerDllPath");
    reveal_strlit("PeerIdentityPath");
    reveal_strlit("PeerConfigUIPath");
    reveal_strlit("PeerFriendlyName");
    reveal_strlit("PeerInvokeUsernameDialog");
    reveal_strlit("PeerInvokePasswordDialog");
    reveal_strlit("Properties");
    assert(v@[0].name@ == "PeerDllPath"@);
    assert(v@[1].name@ == "PeerIdentityPath"@);
    assert(v@[2].name@ == "PeerConfigUIPath"@);
    assert(v@[3].name@ == "PeerFriendlyName"@);
    assert(v@[4].name@ == "PeerInvokeUsernameDialog"@);
    assert(v@[5].name@ == "PeerInvokePasswordDialog"@);
    assert(v@[6].name@ == "Properties"@);
    assert("PeerInvokeUsernameDialog"@[10] != "PeerInvokePasswordDialog"@[10]);
    assert("PeerIdentityPath"@[4] != "PeerConfigUIPath"@[4]);
    assert("PeerFriendlyName"@[4] != "PeerConfigUIPath"@[4]);
    assert("PeerFriendlyName"@[4] != "PeerIdentityPath"@[4]);
    assert(v@[0].name@.len() == 11);
    assert(v@[1].name@.len() == 16);
    assert(v@[2].name@.len() == 16);
    assert(v@[3].name@.len() == 16);
    assert(v@[4].name@.len() == 24);
    assert(v@[5].name@.len() == 24);
    assert(v@[6].name@.len() == 10);
    assert(METHOD_PROPERTIES == 0x0738_0000);
    assert(i == 0 || i == 1 || i == 2 || i == 3 || i == 4 || i == 5 || i == 6);
    assert(j == 0 || j == 1 || j == 2 || j == 3 || j == 4 || j == 5 || j == 6);
    assert(i <= 2 ==> v@[i].is_text(v@[i].name@, one@));
}

/// The wide form of a text is its code units and one terminating zero: the units before it
/// stand for the text.
pub proof fn law_wide_form_is_terminated(s: &str, w: Vec<u16>)
    requires
        call_ensures(wide, (s,), w),
    ensures
        w@.len() >= 1,
        w@.last() == 0,
        from_utf16(w@.drop_last()) == s@,
        s@.len() + 1 <= w@.len() <= 2 * s@.len() + 1,
{
    law_wide_keeps_the_text(s@);
    assert(w@.drop_last() =~= utf16(s@));
    lemma_units_count(s@);
}

proof fn lemma_units_count(s: Seq<char>)
    ensures
        s.len() <= utf16(s).len() <= 2 * s.len(),
    decreases s.len(),
{
    if s.len() > 0 {
        lemma_units_count(s.drop_last());
    }
}

/// Each code unit is stored as two octets, the low one first.
pub proof fn law_units_are_little_endian(w: &[u16], b: Vec<u8>, i: int)
    requires
        call_ensures(u16_bytes, (w,), b),
        0 <= i < w@.len(),
    ensures
        b@.len() == 2 * w@.len(),
        b@[2 * i] + 256 * b@[2 * i + 1] == w@[i],
{
    assert(b@[2 * i] == (w@[i] % 256) as u8);
    assert(b@[2 * i + 1] == (w@[i] / 256) as u8);
}

proof fn lemma_unit_read(w: Seq<u16>, i: int)
    requires
        0 <= i < w.len(),
    ensures
        unit_octets(w).len() == 2 * w.len(),
        unit_octets(w)[2 * i] + 256 * unit_octets(w)[2 * i + 1] == w[i],
{
    assert(unit_octets(w)[2 * i] == (w[i] % 256) as u8);
    assert(unit_octets(w)[2 * i + 1] == (w[i] / 256) as u8);
}

/// A number is stored as four octets, the lowest first.
pub proof fn law_stored_number_reads_back(n: u32, b: Vec<u8>)
    requires
        call_ensures(data_octets, (&RegistryData::Number(n),), b),
    ensures
        b@.len() == 4,
        b@[0] + 256 * b@[1] + 65536 * b@[2] + 16777216 * b@[3] == n,
{
    crate::bytes::lemma_le32_round_trip(n);
    assert(b@ == crate::bytes::le32(n));
}

/// The code units that octets stand for, the low octet of each first.
pub open spec fn read_units(b: Seq<u8>) -> Seq<u16> {
    Seq::new(b.len() / 2, |i: int| (b[2 * i] + 256 * b[2 * i + 1]) as u16)
}

proof fn lemma_units_read_back(w: Seq<u16>)
    ensures
        read_units(unit_octets(w)) == w,
        unit_octets(w).len() == 2 * w.len(),
{
    assert forall|i: int| 0 <= i < w.len() implies read_units(unit_octets(w))[i] == #[trigger] w[i] by {
        lemma_unit_read(w, i);
    }
    assert(read_units(unit_octets(w)) =~= w);
}

/// A text is stored as its wide form: the octets stand for code units that end with a
/// zero, and those before it stand for the text.
pub proof fn law_stored_text_reads_back(t: String, b: Vec<u8>)
    requires
        call_ensures(data_octets, (&RegistryData::Text(t),), b),
    ensures
        b@.len() >= 2 * t@.len() + 2,
        read_units(b@).len() >= 1,
        read_units(b@).last() == 0,
        from_utf16(read_units(b@).drop_last()) == t@,
{
    let units = utf16(t@);
    lemma_units_count(t@);
    law_wide_keeps_the_text(t@);
    lemma_units_read_back(units.push(0));
    assert(units.push(0).drop_last() =~= units);
}

/// A platform status of zero is success and every other one the error with that status.
pub proof fn law_status_zero_is_success(code: u32, r: Result<(), EapHostError>)
    requires
        call_ensures(win32, (code,), r),
    ensures
        r is Ok <==> code == 0,
        r matches Err(e) ==> e == (EapHostError::Win32 { code }),
{
}

} // verus!
