//! Well-formed markup: what it means that every element which a document opens is
//! closed again, in reverse order, by a tag of the same name.
use crate::text::{lemma_stands, stands};
use vstd::prelude::*;

verus! {

/// How far a document was read.
#[verifier::ext_equal]
pub struct Reading {
    /// The names of the elements that are open, the outermost first.
    pub open: Seq<Seq<char>>,
    /// The inside of the tag that is being read, if one is.
    pub tag: Option<Seq<char>>,
    /// No tag was out of place so far.
    pub sound: bool,
}

/// Nothing was read yet.
pub open spec fn nothing_read() -> Reading {
    Reading { open: Seq::empty(), tag: None, sound: true }
}

/// The name in an opening tag: all before the first blank.
pub open spec fn tag_name(inside: Seq<char>) -> Seq<char>
    decreases inside.len(),
{
    if inside.len() == 0 || inside[0] == ' ' {
        Seq::empty()
    } else {
        seq![inside[0]] + tag_name(inside.skip(1))
    }
}

/// What a whole tag does: a declaration nothing, a closing tag closes the innermost open
/// element, which must have its name, and any other opens an element.
pub open spec fn after_tag(r: Reading, inside: Seq<char>) -> Reading {
    if inside.len() == 0 {
        Reading { tag: None, sound: false, ..r }
    } else if inside[0] == '?' {
        Reading { tag: None, sound: r.sound && inside.last() == '?', ..r }
    } else if inside[0] == '/' {
        if r.open.len() > 0 && r.open.last() == inside.skip(1) {
            Reading { open: r.open.drop_last(), tag: None, ..r }
        } else {
            Reading { tag: None, sound: false, ..r }
        }
    } else {
        Reading { open: r.open.push(tag_name(inside)), tag: None, ..r }
    }
}

/// What one more character does.
pub open spec fn after_char(r: Reading, c: char) -> Reading {
    match r.tag {
        None => if c == '<' {
            Reading { tag: Some(Seq::empty()), ..r }
        } else if c == '>' {
            Reading { sound: false, ..r }
        } else {
            r
        },
        Some(inside) => if c == '>' {
            after_tag(r, inside)
        } else if c == '<' {
            Reading { sound: false, ..r }
        } else {
            Reading { tag: Some(inside.push(c)), ..r }
        },
    }
}

/// How far a document was read once `s` was read too.
pub open spec fn after_text(r: Reading, s: Seq<char>) -> Reading
    decreases s.len(),
{
    if s.len() == 0 {
        r
    } else {
        after_char(after_text(r, s.drop_last()), s.last())
    }
}

/// Every element that the text opens is closed, in reverse order, by a tag of the same
/// name, and nothing else is closed.
pub open spec fn well_formed(s: Seq<char>) -> bool {
    after_text(nothing_read(), s) == nothing_read()
}

/// An opening tag.
pub open spec fn opening(name: Seq<char>, attributes: Seq<char>) -> Seq<char> {
    "<"@ + name + attributes + ">"@
}

/// A closing tag.
pub open spec fn closing(name: Seq<char>) -> Seq<char> {
    "</"@ + name + ">"@
}

/// An element with its content.
pub open spec fn element(name: Seq<char>, attributes: Seq<char>, content: Seq<char>) -> Seq<char> {
    opening(name, attributes) + content + closing(name)
}

/// The text holds no mark of a tag.
pub open spec fn plain(s: Seq<char>) -> bool {
    forall|i: int| 0 <= i < s.len() ==> #[trigger] s[i] != '<' && s[i] != '>'
}

/// The text can stand as an element's name.
pub open spec fn is_name(s: Seq<char>) -> bool {
    &&& s.len() > 0
    &&& s[0] != '/' && s[0] != '?'
    &&& plain(s)
    &&& forall|i: int| 0 <= i < s.len() ==> #[trigger] s[i] != ' '
}

/// The text can stand behind a name in an opening tag.
pub open spec fn are_attributes(s: Seq<char>) -> bool {
    plain(s) && (s.len() > 0 ==> s[0] == ' ')
}

/// Reading the text leaves open what was open, and opens nothing.
pub open spec fn closes_itself(s: Seq<char>) -> bool {
    forall|r: Reading| r.tag is None ==> #[trigger] after_text(r, s) == r
}

/// None of the first `n` characters marks a tag, or is a blank where `blanks` is not set.
pub open spec fn marks_none(s: Seq<char>, blanks: bool, n: nat) -> bool
    decreases n,
{
    n == 0 || (s[n - 1] != '<' && s[n - 1] != '>' && (blanks || s[n - 1] != ' ') && marks_none(
        s,
        blanks,
        (n - 1) as nat,
    ))
}

pub(crate) proof fn lemma_marks_none(s: Seq<char>, blanks: bool, n: nat)
    requires
        marks_none(s, blanks, n),
        n <= s.len(),
    ensures
        forall|i: int|
            0 <= i < n ==> #[trigger] s[i] != '<' && s[i] != '>' && (blanks || s[i] != ' '),
    decreases n,
{
    if n > 0 {
        lemma_marks_none(s, blanks, (n - 1) as nat);
    }
}

/// What stands at a place ends what was read until then.
pub(crate) proof fn lemma_cut(whole: Seq<char>, at: int, part: Seq<char>)
    requires
        0 <= at,
        at + part.len() <= whole.len(),
        stands(whole, at, part, part.len()),
    ensures
        whole.take(at + part.len()) == whole.take(at) + part,
        whole.skip(at) == part + whole.skip(at + part.len()),
{
    lemma_stands(whole, at, part, part.len());
    assert(whole.take(at + part.len()) =~= whole.take(at) + part);
    assert(whole.skip(at) =~= part + whole.skip(at + part.len()));
}

/// The same of an opening tag, from its parts.
pub(crate) proof fn lemma_cut_opening(
    whole: Seq<char>,
    at: int,
    name: Seq<char>,
    attributes: Seq<char>,
)
    requires
        0 <= at,
        at + name.len() + attributes.len() + 2 <= whole.len(),
        whole[at] == '<',
        stands(whole, at + 1, name, name.len()),
        stands(whole, at + 1 + name.len(), attributes, attributes.len()),
        whole[at + 1 + name.len() + attributes.len()] == '>',
    ensures
        opening(name, attributes).len() == name.len() + attributes.len() + 2,
        whole.take(at + name.len() + attributes.len() + 2) == whole.take(at) + opening(
            name,
            attributes,
        ),
        whole.skip(at) == opening(name, attributes) + whole.skip(
            at + name.len() + attributes.len() + 2,
        ),
{
    reveal_strlit("<");
    reveal_strlit(">");
    let end = at + name.len() + attributes.len() + 2;
    lemma_stands(whole, at + 1, name, name.len());
    lemma_stands(whole, at + 1 + name.len(), attributes, attributes.len());
    assert(whole.subrange(at, end) =~= opening(name, attributes));
    assert(whole.take(end) =~= whole.take(at) + whole.subrange(at, end));
    assert(whole.skip(at) =~= whole.subrange(at, end) + whole.skip(end));
}

/// The same of a closing tag, from its parts.
pub(crate) proof fn lemma_cut_closing(whole: Seq<char>, at: int, name: Seq<char>)
    requires
        0 <= at,
        at + name.len() + 3 <= whole.len(),
        whole[at] == '<',
        whole[at + 1] == '/',
        stands(whole, at + 2, name, name.len()),
        whole[at + 2 + name.len()] == '>',
    ensures
        closing(name).len() == name.len() + 3,
        whole.take(at + name.len() + 3) == whole.take(at) + closing(name),
        whole.skip(at) == closing(name) + whole.skip(at + name.len() + 3),
{
    reveal_strlit("</");
    reveal_strlit(">");
    let end = at + name.len() + 3;
    lemma_stands(whole, at + 2, name, name.len());
    assert(whole.subrange(at, end) =~= closing(name));
    assert(whole.take(end) =~= whole.take(at) + whole.subrange(at, end));
    assert(whole.skip(at) =~= whole.subrange(at, end) + whole.skip(end));
}

/// A content between its tags, whatever stands around.
pub(crate) proof fn lemma_between_tags(
    front: Seq<char>,
    name: Seq<char>,
    attributes: Seq<char>,
    content: Seq<char>,
    back: Seq<char>,
)
    ensures
        (front + opening(name, attributes)) + content + (closing(name) + back) == front + element(
            name,
            attributes,
            content,
        ) + back,
        ((front + opening(name, attributes)) + content) + closing(name) == front + element(
            name,
            attributes,
            content,
        ),
{
    let o = opening(name, attributes);
    let c = closing(name);
    assert((front + o) + content + (c + back) =~= front + (o + content + c) + back);
    assert(((front + o) + content) + c =~= front + (o + content + c));
}

/// Three texts, in either grouping.
pub(crate) proof fn lemma_grouping(a: Seq<char>, b: Seq<char>, c: Seq<char>)
    ensures
        (a + b) + c == a + (b + c),
{
    assert((a + b) + c =~= a + (b + c));
}

pub(crate) proof fn lemma_text_in_two(r: Reading, a: Seq<char>, b: Seq<char>)
    ensures
        after_text(r, a + b) == after_text(after_text(r, a), b),
    decreases b.len(),
{
    if b.len() == 0 {
        assert(a + b =~= a);
    } else {
        lemma_text_in_two(r, a, b.drop_last());
        assert((a + b).drop_last() =~= a + b.drop_last());
    }
}

proof fn lemma_plain_text(r: Reading, s: Seq<char>)
    requires
        plain(s),
    ensures
        after_text(r, s) == match r.tag {
            None => r,
            Some(inside) => Reading { tag: Some(inside + s), ..r },
        },
    decreases s.len(),
{
    if s.len() == 0 {
        if let Some(inside) = r.tag {
            assert(inside + s =~= inside);
        }
    } else {
        assert(plain(s.drop_last()));
        lemma_plain_text(r, s.drop_last());
        assert(s.last() == s[s.len() - 1]);
        if let Some(inside) = r.tag {
            assert((inside + s.drop_last()).push(s.last()) =~= inside + s);
        }
    }
}

/// A text without marks closes itself.
pub(crate) proof fn lemma_plain_closes(s: Seq<char>)
    requires
        plain(s),
    ensures
        closes_itself(s),
{
    assert forall|r: Reading| r.tag is None implies #[trigger] after_text(r, s) == r by {
        lemma_plain_text(r, s);
    }
}

/// Two texts that close themselves do so one behind the other.
pub(crate) proof fn lemma_both_close(a: Seq<char>, b: Seq<char>)
    requires
        closes_itself(a),
        closes_itself(b),
    ensures
        closes_itself(a + b),
{
    assert forall|r: Reading| r.tag is None implies #[trigger] after_text(r, a + b) == r by {
        lemma_text_in_two(r, a, b);
    }
}

/// A tag is read whole.
proof fn lemma_tag(r: Reading, inside: Seq<char>)
    requires
        r.tag is None,
        plain(inside),
    ensures
        after_text(r, seq!['<'] + inside + seq!['>']) == after_tag(
            Reading { tag: Some(inside), ..r },
            inside,
        ),
{
    let begun = Reading { tag: Some(Seq::empty()), ..r };
    lemma_text_in_two(r, seq!['<'] + inside, seq!['>']);
    lemma_text_in_two(r, seq!['<'], inside);
    reveal_with_fuel(after_text, 2);
    assert(after_text(r, seq!['<']) == begun) by {
        assert(seq!['<'].drop_last() =~= Seq::empty());
    }
    lemma_plain_text(begun, inside);
    assert(Seq::<char>::empty() + inside =~= inside);
    let read = Reading { tag: Some(inside), ..r };
    assert(after_text(read, seq!['>']) == after_char(read, '>')) by {
        assert(seq!['>'].drop_last() =~= Seq::empty());
    }
}

proof fn lemma_tag_name(name: Seq<char>, attributes: Seq<char>)
    requires
        forall|i: int| 0 <= i < name.len() ==> #[trigger] name[i] != ' ',
        attributes.len() > 0 ==> attributes[0] == ' ',
    ensures
        tag_name(name + attributes) == name,
    decreases name.len(),
{
    let whole = name + attributes;
    if name.len() == 0 {
        assert(whole =~= attributes);
        assert(tag_name(whole) =~= name);
    } else {
        assert(whole.skip(1) =~= name.skip(1) + attributes);
        assert forall|i: int| 0 <= i < name.skip(1).len() implies #[trigger] name.skip(1)[i]
            != ' ' by {
            assert(name.skip(1)[i] == name[i + 1]);
        }
        lemma_tag_name(name.skip(1), attributes);
        assert(whole[0] == name[0]);
        assert(seq![name[0]] + name.skip(1) =~= name);
    }
}

/// An element around a text that closes itself closes itself.
pub(crate) proof fn lemma_element_closes(name: Seq<char>, attributes: Seq<char>, content: Seq<char>)
    requires
        is_name(name),
        are_attributes(attributes),
        closes_itself(content),
    ensures
        closes_itself(element(name, attributes, content)),
{
    reveal_strlit("<");
    reveal_strlit(">");
    reveal_strlit("</");
    assert forall|r: Reading| r.tag is None implies #[trigger] after_text(
        r,
        element(name, attributes, content),
    ) == r by {
        let inside = Reading { open: r.open.push(name), ..r };
        let front = name + attributes;
        assert(opening(name, attributes) =~= seq!['<'] + front + seq!['>']);
        assert(plain(front)) by {
            assert forall|i: int| 0 <= i < front.len() implies #[trigger] front[i] != '<' && front[i]
                != '>' by {
                if i < name.len() {
                    assert(front[i] == name[i]);
                } else {
                    assert(front[i] == attributes[i - name.len()]);
                }
            }
        }
        assert(front[0] == name[0]);
        lemma_tag(r, front);
        lemma_tag_name(name, attributes);
        assert(after_text(r, opening(name, attributes)) == inside);
        let back = seq!['/'] + name;
        assert(closing(name) =~= seq!['<'] + back + seq!['>']);
        assert(plain(back)) by {
            assert forall|i: int| 0 <= i < back.len() implies #[trigger] back[i] != '<' && back[i]
                != '>' by {
                if i > 0 {
                    assert(back[i] == name[i - 1]);
                }
            }
        }
        lemma_tag(inside, back);
        assert(back.skip(1) =~= name);
        assert(inside.open.last() == name);
        assert(inside.open.drop_last() =~= r.open);
        lemma_text_in_two(r, opening(name, attributes) + content, closing(name));
        lemma_text_in_two(r, opening(name, attributes), content);
        assert(after_text(inside, content) == inside);
    }
}

/// A declaration closes itself.
pub(crate) proof fn lemma_declaration_closes(inside: Seq<char>)
    requires
        plain(inside),
        inside.len() > 0,
        inside[0] == '?',
        inside.last() == '?',
    ensures
        closes_itself("<"@ + inside + ">"@),
{
    reveal_strlit("<");
    reveal_strlit(">");
    assert("<"@ + inside + ">"@ =~= seq!['<'] + inside + seq!['>']);
    assert forall|r: Reading| r.tag is None implies #[trigger] after_text(
        r,
        "<"@ + inside + ">"@,
    ) == r by {
        lemma_tag(r, inside);
    }
}

/// A text that closes itself is well-formed.
pub(crate) proof fn lemma_well_formed(s: Seq<char>)
    requires
        closes_itself(s),
    ensures
        well_formed(s),
{
    assert(after_text(nothing_read(), s) == nothing_read());
}

} // verus!
