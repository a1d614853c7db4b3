//! The command line of the provisioning tool: which command, and the profile that
//! its options describe.
use crate::eaphost::config::SessionConfigBlob;
use crate::text::{chars_of, joined, parse_number, same_text};
use vstd::prelude::*;
use vstd::string::StringExecFns;

verus! {

/// What the tool is asked to do.
#[derive(Debug, Clone, PartialEq, Eq)]
pub enum Command {
    /// Print the `EapHostConfig` document.
    EmitConfig,
    /// Print the LAN profile.
    EmitProfile,
    /// Register the method.
    Register,
    /// Remove the registration.
    Unregister,
    /// Install the LAN profile on an interface.
    InstallProfile,
    /// Show the help.
    Help,
    /// Anything else.
    Unknown(String),
}

/// The command of a first argument; without one, help.
pub open spec fn command_of(args: Seq<String>) -> Command {
    if args.len() == 0 {
        Command::Help
    } else {
        let t = args[0]@;
        if t == "emit-config"@ {
            Command::EmitConfig
        } else if t == "emit-profile"@ {
            Command::EmitProfile
        } else if t == "register"@ {
            Command::Register
        } else if t == "unregister"@ {
            Command::Unregister
        } else if t == "install-profile"@ {
            Command::InstallProfile
        } else if t == "help"@ || t == "-h"@ || t == "--help"@ {
            Command::Help
        } else {
            Command::Unknown(args[0])
        }
    }
}

/// The command that the arguments start with.
pub fn command(args: &Vec<String>) -> (c: Command)
    ensures
        c == command_of(args@),
{
    if args.len() == 0 {
        return Command::Help;
    }
    let t: &str = args[0].as_str();
    if same_text(t, "emit-config") {
        Command::EmitConfig
    } else if same_text(t, "emit-profile") {
        Command::EmitProfile
    } else if same_text(t, "register") {
        Command::Register
    } else if same_text(t, "unregister") {
        Command::Unregister
    } else if same_text(t, "install-profile") {
        Command::InstallProfile
    } else if same_text(t, "help") || same_text(t, "-h") || same_text(t, "--help") {
        Command::Help
    } else {
        Command::Unknown(args[0].clone())
    }
}

/// What stands behind the first `name` from `from` on, if anything does.
pub open spec fn value_from(args: Seq<String>, name: Seq<char>, from: int) -> Option<Seq<char>>
    decreases args.len() - from,
{
    if from >= args.len() {
        None
    } else if args[from]@ == name {
        if from + 1 < args.len() {
            Some(args[from + 1]@)
        } else {
            None
        }
    } else {
        value_from(args, name, from + 1)
    }
}

/// The value of an option: what stands behind its first occurrence.
pub open spec fn option_value(args: Seq<String>, name: Seq<char>) -> Option<Seq<char>> {
    value_from(args, name, 0)
}

/// The values of a repeatable option from `from` on; a value is not taken for a
/// further occurrence.
pub open spec fn values_from(args: Seq<String>, name: Seq<char>, from: int) -> Seq<Seq<char>>
    decreases args.len() - from,
{
    if from >= args.len() {
        Seq::empty()
    } else if args[from]@ == name {
        if from + 1 < args.len() {
            seq![args[from + 1]@] + values_from(args, name, from + 2)
        } else {
            Seq::empty()
        }
    } else {
        values_from(args, name, from + 1)
    }
}

/// The option occurs.
pub open spec fn occurs(args: Seq<String>, name: Seq<char>) -> bool {
    exists|i: int| 0 <= i < args.len() && (#[trigger] args[i])@ == name
}

/// The characters of each text, in order.
pub open spec fn texts_of(v: Seq<String>) -> Seq<Seq<char>> {
    Seq::new(v.len(), |i: int| v[i]@)
}

/// The value behind the first occurrence of an option, if there is one.
pub fn flag(args: &Vec<String>, name: &str) -> (r: Option<String>)
    ensures
        match r {
            Some(v) => option_value(args@, name@) == Some(v@),
            None => option_value(args@, name@) is None,
        },
{
    let mut i: usize = 0;
    while i < args.len()
        invariant
            i <= args@.len(),
            option_value(args@, name@) == value_from(args@, name@, i as int),
        decreases args@.len() - i,
    {
        if same_text(args[i].as_str(), name) {
            if i + 1 < args.len() {
                return Some(args[i + 1].clone());
            }
            return None;
        }
        i = i + 1;
    }
    None
}

/// The values behind each occurrence of a repeatable option.
pub fn repeated(args: &Vec<String>, name: &str) -> (out: Vec<String>)
    ensures
        texts_of(out@) == values_from(args@, name@, 0),
{
    let mut out: Vec<String> = Vec::new();
    let mut i: usize = 0;
    assert(texts_of(out@) + values_from(args@, name@, 0) =~= values_from(args@, name@, 0));
    while i < args.len()
        invariant
            values_from(args@, name@, 0) == texts_of(out@) + values_from(args@, name@, i as int),
        decreases args@.len() - i,
    {
        let ghost before = texts_of(out@);
        if same_text(args[i].as_str(), name) {
            if i + 1 < args.len() {
                let v: String = args[i + 1].clone();
                out.push(v);
                assert(texts_of(out@) =~= before.push(args@[i + 1]@));
                assert(texts_of(out@) + values_from(args@, name@, i + 2) =~= before + (seq![
                    args@[i + 1]@,
                ] + values_from(args@, name@, i + 2)));
                i = i + 2;
            } else {
                assert(before + values_from(args@, name@, i as int) =~= before);
                return out;
            }
        } else {
            i = i + 1;
        }
    }
    assert(texts_of(out@) + values_from(args@, name@, i as int) =~= texts_of(out@));
    out
}

/// Whether an option occurs.
pub fn present(args: &Vec<String>, name: &str) -> (r: bool)
    ensures
        r == occurs(args@, name@),
{
    let mut i: usize = 0;
    while i < args.len()
        invariant
            i <= args@.len(),
            forall|j: int| 0 <= j < i ==> (#[trigger] args@[j])@ != name@,
        decreases args@.len() - i,
    {
        if same_text(args[i].as_str(), name) {
            assert(args@[i as int]@ == name@);
            return true;
        }
        i = i + 1;
    }
    false
}

/// The value of an option that must be given.
pub fn required(args: &Vec<String>, name: &str) -> (r: Result<String, String>)
    ensures
        match r {
            Ok(v) => option_value(args@, name@) == Some(v@),
            Err(m) => option_value(args@, name@) is None && m@ == "missing required option "@ + name@,
        },
{
    match flag(args, name) {
        Some(v) => Ok(v),
        None => {
            let mut m: String = "missing required option ".to_owned();
            m.append(name);
            Err(m)
        },
    }
}

/// `s` without any `0x` in front.
pub open spec fn without_prefix(s: Seq<char>) -> Seq<char>
    decreases s.len(),
{
    if s.len() >= 2 && s[0] == '0' && s[1] == 'x' {
        without_prefix(s.skip(2))
    } else {
        s
    }
}

/// The vendor number of a `--mat-vendor-id` value: hexadecimal, behind any `0x`.
pub open spec fn vendor_value(s: Seq<char>) -> Option<u32> {
    crate::text::number_value(without_prefix(s), 16)
}

fn parse_vendor(s: &str) -> (r: Option<u32>)
    ensures
        r == vendor_value(s@),
{
    let all: Vec<char> = chars_of(s);
    let mut from: usize = 0;
    let end: usize = all.len();
    assert(all@.skip(0) =~= all@);
    while end - from >= 2 && all[from] == '0' && all[from + 1] == 'x'
        invariant
            from <= end,
            end == all@.len(),
            without_prefix(all@) == without_prefix(all@.skip(from as int)),
        decreases end - from,
    {
        assert(all@.skip(from as int).skip(2) =~= all@.skip(from + 2));
        from = from + 2;
    }
    parse_number(&all, from, 16)
}

fn parse_fragment(s: &str) -> (r: Option<u32>)
    ensures
        r == crate::text::number_value(s@, 10),
{
    let all: Vec<char> = chars_of(s);
    assert(all@.skip(0) =~= all@);
    parse_number(&all, 0, 10)
}

/// The numeric options of a profile.
#[derive(Debug, Clone, Copy, PartialEq, Eq, Structural)]
pub struct BlobNumbers {
    /// The vendor number.
    pub mat_vendor_id: u32,
    /// The fragment budget.
    pub max_fragment: u32,
}

/// The numeric options, with their defaults; the first that cannot be read is
/// refused, and so are both identities at once.
pub open spec fn numbers_of(args: Seq<String>) -> Result<BlobNumbers, Seq<char>> {
    let vendor = option_value(args, "--mat-vendor-id"@);
    let fragment = option_value(args, "--max-fragment"@);
    if occurs(args, "--machine"@) && occurs(args, "--user"@) {
        Err("--machine and --user are mutually exclusive"@)
    } else if vendor matches Some(v) && vendor_value(v) is None {
        Err("invalid --mat-vendor-id '"@ + vendor->0 + "' (expected hex)"@)
    } else if fragment matches Some(f) && crate::text::number_value(f, 10) is None {
        Err("invalid --max-fragment '"@ + fragment->0 + "'"@)
    } else {
        Ok(
            BlobNumbers {
                mat_vendor_id: match vendor {
                    Some(v) => vendor_value(v)->0,
                    None => 0x9999,
                },
                max_fragment: match fragment {
                    Some(f) => crate::text::number_value(f, 10)->0,
                    None => 1400,
                },
            },
        )
    }
}

/// Read the numeric options.
pub fn blob_numbers(args: &Vec<String>) -> (r: Result<BlobNumbers, String>)
    ensures
        match r {
            Ok(n) => numbers_of(args@) == Ok::<BlobNumbers, Seq<char>>(n),
            Err(m) => numbers_of(args@) == Err::<BlobNumbers, Seq<char>>(m@),
        },
{
    if present(args, "--machine") && present(args, "--user") {
        return Err("--machine and --user are mutually exclusive".to_owned());
    }
    let mat_vendor_id: u32 = match flag(args, "--mat-vendor-id") {
        Some(s) => match parse_vendor(s.as_str()) {
            Some(v) => v,
            None => {
                return Err(joined("invalid --mat-vendor-id '", s.as_str(), "' (expected hex)"));
            },
        },
        None => 0x9999,
    };
    let max_fragment: u32 = match flag(args, "--max-fragment") {
        Some(s) => match parse_fragment(s.as_str()) {
            Some(v) => v,
            None => {
                return Err(joined("invalid --max-fragment '", s.as_str(), "'"));
            },
        },
        None => 1400,
    };
    Ok(BlobNumbers { mat_vendor_id, max_fragment })
}

/// The profile that the options describe, with the numeric options and the trust
/// anchors that were read before. A machine session unless `--user` is given; no
/// ticket, which is runtime state.
pub fn build_blob(args: &Vec<String>, numbers: BlobNumbers, roots: Vec<Vec<u8>>) -> (r: Result<
    SessionConfigBlob,
    String,
>)
    ensures
        ({
            let name = option_value(args@, "--server-name"@);
            let subject = option_value(args@, "--cert-subject"@);
            match r {
                Ok(b) => {
                    &&& b@.machine == !occurs(args@, "--user"@)
                    &&& name == Some(b@.server_name)
                    &&& subject == Some(b@.selector_subject)
                    &&& b@.mat_vendor_id == numbers.mat_vendor_id
                    &&& b@.max_fragment == numbers.max_fragment
                    &&& b.roots == roots
                    &&& b@.mat is None
                },
                Err(m) => if name is None {
                    m@ == "missing required option "@ + "--server-name"@
                } else {
                    subject is None && m@ == "missing required option "@ + "--cert-subject"@
                },
            }
        }),
{
    let server_name: String = match required(args, "--server-name") {
        Ok(v) => v,
        Err(m) => {
            return Err(m);
        },
    };
    let selector_subject: String = match required(args, "--cert-subject") {
        Ok(v) => v,
        Err(m) => {
            return Err(m);
        },
    };
    Ok(
        SessionConfigBlob {
            machine: !present(args, "--user"),
            server_name,
            mat_vendor_id: numbers.mat_vendor_id,
            max_fragment: numbers.max_fragment,
            selector_subject,
            roots,
            mat: None,
        },
    )
}

/// Each command is asked for by its own word and by no other, help by three of them and by
/// giving none; any other word is handed back as it was written. What follows the first
/// argument has no part in it.
pub proof fn law_commands_have_their_words(args: Vec<String>, c: Command)
    requires
        call_ensures(command, (&args,), c),
    ensures
        args@.len() == 0 ==> c is Help,
        args@.len() > 0 ==> {
            let word = args@[0]@;
            &&& word == "emit-config"@ <==> c is EmitConfig
            &&& word == "emit-profile"@ <==> c is EmitProfile
            &&& word == "register"@ <==> c is Register
            &&& word == "unregister"@ <==> c is Unregister
            &&& word == "install-profile"@ <==> c is InstallProfile
            &&& word == "help"@ || word == "-h"@ || word == "--help"@ <==> c is Help
            &&& c matches Command::Unknown(w) ==> w@ == word
        },
{
    reveal_strlit("emit-config");
    reveal_strlit("emit-profile");
    reveal_strlit("register");
    reveal_strlit("unregister");
    reveal_strlit("install-profile");
    reveal_strlit("help");
    reveal_strlit("-h");
    reveal_strlit("--help");
    if args@.len() > 0 {
        let n = args@[0]@.len();
        assert(args@[0]@ == "emit-config"@ ==> n == 11);
        assert(args@[0]@ == "emit-profile"@ ==> n == 12);
        assert(args@[0]@ == "register"@ ==> n == 8);
        assert(args@[0]@ == "unregister"@ ==> n == 10);
        assert(args@[0]@ == "install-profile"@ ==> n == 15);
        assert(args@[0]@ == "help"@ ==> n == 4);
        assert(args@[0]@ == "-h"@ ==> n == 2);
        assert(args@[0]@ == "--help"@ ==> n == 6);
    }
}

/// The value of an option is what stands behind its first occurrence: where the option
/// does not occur before place `i` and does there, it is the next argument, and none if
/// there is no next one. An option that does not occur has no value.
pub proof fn law_value_stands_behind_the_option(
    args: Vec<String>,
    name: &str,
    i: int,
    r: Option<String>,
)
    requires
        call_ensures(flag, (&args, name), r),
        0 <= i <= args@.len(),
        forall|j: int| 0 <= j < i ==> (#[trigger] args@[j])@ != name@,
    ensures
        i < args@.len() && args@[i]@ == name@ ==> {
            &&& i + 1 < args@.len() ==> (r matches Some(v) && v@ == args@[i + 1]@)
            &&& i + 1 == args@.len() ==> r is None
        },
        i == args@.len() ==> r is None,
{
    lemma_no_value_before(args@, name@, 0, i);
}

proof fn lemma_no_value_before(args: Seq<String>, name: Seq<char>, from: int, i: int)
    requires
        0 <= from <= i <= args.len(),
        forall|j: int| from <= j < i ==> (#[trigger] args[j])@ != name,
    ensures
        value_from(args, name, from) == value_from(args, name, i),
        values_from(args, name, from) == values_from(args, name, i),
    decreases i - from,
{
    if from < i {
        assert(args[from]@ != name);
        lemma_no_value_before(args, name, from + 1, i);
    }
}

/// A value that was found stands behind an occurrence of the option, and the option does
/// not occur before that.
pub proof fn law_found_value_stands_behind_the_first(
    args: Vec<String>,
    name: &str,
    v: String,
) -> (i: int)
    requires
        call_ensures(flag, (&args, name), Some(v)),
    ensures
        0 <= i,
        i + 1 < args@.len(),
        args@[i]@ == name@,
        args@[i + 1]@ == v@,
        forall|j: int| 0 <= j < i ==> (#[trigger] args@[j])@ != name@,
{
    lemma_first_value(args@, name@, 0)
}

proof fn lemma_first_value(args: Seq<String>, name: Seq<char>, from: int) -> (i: int)
    requires
        0 <= from,
        value_from(args, name, from) is Some,
    ensures
        from <= i,
        i + 1 < args.len(),
        args[i]@ == name,
        value_from(args, name, from) == Some(args[i + 1]@),
        forall|j: int| from <= j < i ==> (#[trigger] args[j])@ != name,
    decreases args.len() - from,
{
    if args[from]@ == name {
        from
    } else {
        lemma_first_value(args, name, from + 1)
    }
}

/// An option is present exactly if one of the arguments is its name.
pub proof fn law_option_is_present_where_it_stands(args: Vec<String>, name: &str, r: bool)
    requires
        call_ensures(present, (&args, name), r),
    ensures
        r <==> exists|j: int| 0 <= j < args@.len() && (#[trigger] args@[j])@ == name@,
{
}

/// A repeatable option gives its values in order: the argument behind its first
/// occurrence, then all that the arguments behind that one give. Without an occurrence, or
/// with one at the end alone, there is no value.
pub proof fn law_repeated_values_come_in_order(
    args: Vec<String>,
    rest: Vec<String>,
    name: &str,
    i: int,
    all: Vec<String>,
    later: Vec<String>,
)
    requires
        call_ensures(repeated, (&args, name), all),
        call_ensures(repeated, (&rest, name), later),
        0 <= i <= args@.len(),
        forall|j: int| 0 <= j < i ==> (#[trigger] args@[j])@ != name@,
        i < args@.len() ==> args@[i]@ == name@,
        i + 1 < args@.len() ==> rest@ == args@.skip(i + 2),
    ensures
        i + 1 < args@.len() ==> {
            &&& all@.len() == later@.len() + 1
            &&& all@[0]@ == args@[i + 1]@
            &&& forall|k: int| 0 <= k < later@.len() ==> all@[k + 1]@ == #[trigger] later@[k]@
        },
        i + 1 >= args@.len() ==> all@.len() == 0,
{
    lemma_no_value_before(args@, name@, 0, i);
    assert(texts_of(all@).len() == all@.len());
    assert(texts_of(later@).len() == later@.len());
    if i + 1 < args@.len() {
        lemma_values_of_rest(args@, name@, i + 2, 0);
        assert(args@.skip(i + 2).skip(0) =~= rest@);
        assert(texts_of(all@) == seq![args@[i + 1]@] + texts_of(later@));
        assert(texts_of(all@)[0] == args@[i + 1]@);
        assert forall|k: int| 0 <= k < later@.len() implies all@[k + 1]@ == #[trigger] later@[k]@ by {
            assert(texts_of(all@)[k + 1] == texts_of(later@)[k]);
        }
    }
}

proof fn lemma_values_of_rest(args: Seq<String>, name: Seq<char>, at: int, from: int)
    requires
        0 <= at <= args.len(),
        0 <= from,
    ensures
        values_from(args.skip(at), name, from) == values_from(args, name, at + from),
    decreases args.len() - at - from,
{
    if at + from < args.len() {
        lemma_values_of_rest(args, name, at, from + 1);
        if at + from + 1 < args.len() {
            lemma_values_of_rest(args, name, at, from + 2);
        }
    }
}

/// An option that must be given is refused exactly if it has no value, and the refusal
/// ends with its name.
pub proof fn law_missing_option_is_named(
    args: Vec<String>,
    name: &str,
    r: Result<String, String>,
    f: Option<String>,
)
    requires
        call_ensures(required, (&args, name), r),
        call_ensures(flag, (&args, name), f),
    ensures
        r is Ok <==> f is Some,
        r matches Ok(v) ==> (f matches Some(w) && v@ == w@),
        r matches Err(m) ==> m@.len() > name@.len() && m@.skip(m@.len() - name@.len()) == name@,
{
    reveal_strlit("missing required option ");
    if let Err(m) = r {
        assert(m@.skip(m@.len() - name@.len()) =~= name@);
    }
}

/// Both identities at once are refused, whatever else is given.
pub proof fn law_identities_exclude_each_other(
    args: Vec<String>,
    r: Result<BlobNumbers, String>,
    i: int,
    j: int,
)
    requires
        call_ensures(blob_numbers, (&args,), r),
        0 <= i < args@.len(),
        0 <= j < args@.len(),
        args@[i]@ == "--machine"@,
        args@[j]@ == "--user"@,
    ensures
        r matches Err(m) && crate::text::text_contains(m@, "mutually exclusive"@),
{
    reveal_strlit("--machine and --user are mutually exclusive");
    reveal_strlit("mutually exclusive");
    assert(crate::text::stands(
        "--machine and --user are mutually exclusive"@,
        25,
        "mutually exclusive"@,
        18,
    )) by {
        reveal_with_fuel(crate::text::stands, 19);
    }
    crate::text::lemma_contains_at(
        "--machine and --user are mutually exclusive"@,
        25,
        "mutually exclusive"@,
    );
}

/// The numeric options: a vendor number in hexadecimal, 0x9999 where none is given, and a
/// fragment budget in decimal, 1400 where none is given. Each is a matter of its own option
/// alone, and nothing is read where one of them cannot be: the first that cannot is quoted.
pub proof fn law_numbers_have_their_defaults(
    args: Vec<String>,
    r: Result<BlobNumbers, String>,
    vendor: Option<String>,
    fragment: Option<String>,
)
    requires
        call_ensures(blob_numbers, (&args,), r),
        exists|name: &str| name@ == "--mat-vendor-id"@ && #[trigger] call_ensures(flag, (&args, name), vendor),
        exists|name: &str| name@ == "--max-fragment"@ && #[trigger] call_ensures(flag, (&args, name), fragment),
        !(exists|i: int| 0 <= i < args@.len() && (#[trigger] args@[i])@ == "--machine"@) || !(exists|
            i: int,
        |
            0 <= i < args@.len() && (#[trigger] args@[i])@ == "--user"@),
    ensures
        r matches Ok(n) ==> {
            &&& vendor is None ==> n.mat_vendor_id == 0x9999
            &&& fragment is None ==> n.max_fragment == 1400
            &&& vendor matches Some(v) ==> vendor_value(v@) == Some(n.mat_vendor_id)
            &&& fragment matches Some(f) ==> crate::text::number_value(f@, 10) == Some(n.max_fragment)
        },
        r is Err <==> (vendor matches Some(v) && vendor_value(v@) is None) || (
        fragment matches Some(f) && crate::text::number_value(f@, 10) is None),
        r matches Err(m) ==> if vendor matches Some(v) && vendor_value(v@) is None {
            crate::text::text_contains(m@, "--mat-vendor-id '"@ + vendor->0@ + "'"@)
        } else {
            crate::text::text_contains(m@, "--max-fragment '"@ + fragment->0@ + "'"@)
        },
{
    if let Err(m) = r {
        if vendor matches Some(v) && vendor_value(v@) is None {
            lemma_quoted_vendor(vendor->0@);
        } else {
            lemma_quoted_fragment(fragment->0@);
        }
    }
}

proof fn lemma_quoted_vendor(v: Seq<char>)
    ensures
        crate::text::text_contains(
            "invalid --mat-vendor-id '"@ + v + "' (expected hex)"@,
            "--mat-vendor-id '"@ + v + "'"@,
        ),
{
    lemma_refusal_words();
    lemma_quoted("invalid "@, "--mat-vendor-id '"@, v, "'"@, " (expected hex)"@);
}

proof fn lemma_quoted_fragment(f: Seq<char>)
    ensures
        crate::text::text_contains(
            "invalid --max-fragment '"@ + f + "'"@,
            "--max-fragment '"@ + f + "'"@,
        ),
{
    lemma_refusal_words();
    let none = Seq::<char>::empty();
    lemma_quoted("invalid "@, "--max-fragment '"@, f, "'"@, none);
    assert("'"@ + none =~= "'"@);
}

proof fn lemma_quoted(a: Seq<char>, b: Seq<char>, v: Seq<char>, c: Seq<char>, d: Seq<char>)
    ensures
        crate::text::text_contains((a + b) + v + (c + d), b + v + c),
{
    crate::text::law_contained_text_stands_inside(a, b + v + c, d);
    assert(a + (b + v + c) + d =~= (a + b) + v + (c + d));
}

proof fn lemma_refusal_words()
    ensures
        "invalid --mat-vendor-id '"@ == "invalid "@ + "--mat-vendor-id '"@,
        "invalid --max-fragment '"@ == "invalid "@ + "--max-fragment '"@,
        "' (expected hex)"@ == "'"@ + " (expected hex)"@,
{
    assert("invalid --mat-vendor-id '"@ == "invalid "@ + "--mat-vendor-id '"@) by {
        reveal_strlit("invalid --mat-vendor-id '");
        reveal_strlit("invalid ");
        reveal_strlit("--mat-vendor-id '");
        reveal_with_fuel(crate::text::stands, 26);
        lemma_spelled_same("invalid --mat-vendor-id '"@, "invalid "@ + "--mat-vendor-id '"@, 25);
    }
    assert("invalid --max-fragment '"@ == "invalid "@ + "--max-fragment '"@) by {
        reveal_strlit("invalid --max-fragment '");
        reveal_strlit("invalid ");
        reveal_strlit("--max-fragment '");
        reveal_with_fuel(crate::text::stands, 25);
        lemma_spelled_same("invalid --max-fragment '"@, "invalid "@ + "--max-fragment '"@, 24);
    }
    assert("' (expected hex)"@ == "'"@ + " (expected hex)"@) by {
        reveal_strlit("' (expected hex)");
        reveal_strlit("'");
        reveal_strlit(" (expected hex)");
        reveal_with_fuel(crate::text::stands, 17);
        lemma_spelled_same("' (expected hex)"@, "'"@ + " (expected hex)"@, 16);
    }
}

proof fn lemma_spelled_same(a: Seq<char>, b: Seq<char>, n: nat)
    requires
        a.len() == n,
        b.len() == n,
        crate::text::stands(a, 0, b, n),
    ensures
        a == b,
{
    crate::text::lemma_stands(a, 0, b, n);
    assert(a =~= b);
}

/// A `0x` in front of a vendor number changes nothing, and without one it is a plain
/// hexadecimal number.
pub proof fn law_vendor_prefix_changes_nothing(s: Seq<char>)
    ensures
        vendor_value(seq!['0', 'x'] + s) == vendor_value(s),
        !(s.len() >= 2 && s[1] == 'x') ==> vendor_value(s) == crate::text::number_value(s, 16),
{
    assert((seq!['0', 'x'] + s).skip(2) =~= s);
}

/// The lowercase and the uppercase hexadecimal form of four octets, with or without `0x`,
/// are read as the number that the octets stand for, the highest first.
pub proof fn law_vendor_number_reads_back(n: u32)
    ensures
        vendor_value(crate::text::hex_text(crate::bytes::be32(n))) == Some(n),
        vendor_value(seq!['0', 'x'] + crate::text::hex_text(crate::bytes::be32(n))) == Some(n),
{
    let b = crate::bytes::be32(n);
    let t = crate::text::hex_text(b);
    crate::bytes::lemma_be32_round_trip(n);
    crate::text::lemma_hex_round_trip(b);
    assert(t.len() == 8);
    assert('0' <= t[1] <= '9' || 'a' <= t[1] <= 'f');
    assert('0' <= t[0] <= '9' || 'a' <= t[0] <= 'f');
    law_vendor_prefix_changes_nothing(t);
    assert(forall|i: int| 0 <= i < 4 ==> t[2 * i] == crate::text::hex_digit((b[i] / 16) as int));
    let t0 = Seq::<char>::empty();
    let t1 = t0.push(t[0]);
    let t2 = t1.push(t[1]);
    let t3 = t2.push(t[2]);
    let t4 = t3.push(t[3]);
    let t5 = t4.push(t[4]);
    let t6 = t5.push(t[5]);
    let t7 = t6.push(t[6]);
    let t8 = t7.push(t[7]);
    assert(t8 =~= t);
    lemma_octet(t0, 0, b[0], t[0], t[1]);
    lemma_octet(t2, b[0] as nat, b[1], t[2], t[3]);
    lemma_octet(t4, 256 * b[0] as nat + b[1] as nat, b[2], t[4], t[5]);
    lemma_octet(t6, 65536 * b[0] as nat + 256 * b[1] as nat + b[2] as nat, b[3], t[6], t[7]);
}

proof fn lemma_octet(s: Seq<char>, v: nat, b: u8, high: char, low: char)
    requires
        crate::text::digits_value(s, 16) == Some(v),
        high == crate::text::hex_digit((b / 16) as int),
        low == crate::text::hex_digit((b % 16) as int),
    ensures
        crate::text::digits_value(s.push(high).push(low), 16) == Some(256 * v + b as nat),
{
    crate::text::law_hexadecimal_digits((b / 16) as int);
    crate::text::law_hexadecimal_digits((b % 16) as int);
    crate::text::law_digits_are_positional(s, high, 16);
    crate::text::law_digits_are_positional(s.push(high), low, 16);
}

/// The profile takes its server name and its subject from their options, its numbers and
/// anchors as they were read, and no ticket. It is a machine's unless `--user` is given;
/// without one of the two options there is none.
pub proof fn law_profile_is_what_the_options_say(
    args: Vec<String>,
    numbers: BlobNumbers,
    roots: Vec<Vec<u8>>,
    r: Result<SessionConfigBlob, String>,
    name: Option<String>,
    subject: Option<String>,
)
    requires
        call_ensures(build_blob, (&args, numbers, roots), r),
        exists|o: &str| o@ == "--server-name"@ && #[trigger] call_ensures(flag, (&args, o), name),
        exists|o: &str| o@ == "--cert-subject"@ && #[trigger] call_ensures(flag, (&args, o), subject),
    ensures
        r is Ok <==> name is Some && subject is Some,
        r matches Ok(b) ==> {
            &&& b.server_name@ == name->0@
            &&& b.selector_subject@ == subject->0@
            &&& b.mat_vendor_id == numbers.mat_vendor_id
            &&& b.max_fragment == numbers.max_fragment
            &&& b.roots == roots
            &&& b.mat is None
            &&& b.machine <==> !(exists|i: int| 0 <= i < args@.len() && (#[trigger] args@[i])@ == "--user"@)
        },
        r matches Err(m) ==> m@ == "missing required option "@ + if name is None {
            "--server-name"@
        } else {
            "--cert-subject"@
        },
{
}

} // verus!
