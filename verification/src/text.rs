//! Text handling: comparison, joining, trimming and field extraction.

use vstd::prelude::*;
use vstd::string::*;

verus! {

/// The Unicode `White_Space` property.
pub open spec fn whitespace(c: char) -> bool {
    let code = c as u32;
    ||| 0x9 <= code <= 0xd
    ||| code == 0x20
    ||| code == 0x85
    ||| code == 0xa0
    ||| code == 0x1680
    ||| 0x2000 <= code <= 0x200a
    ||| code == 0x2028
    ||| code == 0x2029
    ||| code == 0x202f
    ||| code == 0x205f
    ||| code == 0x3000
}

pub fn is_whitespace(c: char) -> (r: bool)
    ensures
        r == whitespace(c),
{
    let code: u32 = c as u32;
    (0x9 <= code && code <= 0xd) || code == 0x20 || code == 0x85 || code == 0xa0 || code == 0x1680
        || (0x2000 <= code && code <= 0x200a) || code == 0x2028 || code == 0x2029 || code == 0x202f
        || code == 0x205f || code == 0x3000
}

/// `part` is `text` without the whitespace at both ends.
pub open spec fn trimmed(text: Seq<char>, part: Seq<char>) -> bool {
    exists|start: int, end: int|
        #![trigger text.subrange(start, end)]
        {
            &&& 0 <= start <= end <= text.len()
            &&& part == text.subrange(start, end)
            &&& forall|i: int| 0 <= i < start ==> whitespace(#[trigger] text[i])
            &&& forall|i: int| end <= i < text.len() ==> whitespace(#[trigger] text[i])
            &&& start < end ==> !whitespace(text[start]) && !whitespace(text[end - 1])
        }
}

/// A text has one trimmed form.
pub proof fn trimmed_is_unique(text: Seq<char>, a: Seq<char>, b: Seq<char>)
    requires
        trimmed(text, a),
        trimmed(text, b),
    ensures
        a == b,
{
    let (s, e) = choose|start: int, end: int|
        #![trigger text.subrange(start, end)]
        {
            &&& 0 <= start <= end <= text.len()
            &&& a == text.subrange(start, end)
            &&& forall|i: int| 0 <= i < start ==> whitespace(#[trigger] text[i])
            &&& forall|i: int| end <= i < text.len() ==> whitespace(#[trigger] text[i])
            &&& start < end ==> !whitespace(text[start]) && !whitespace(text[end - 1])
        };
    let (t, f) = choose|start: int, end: int|
        #![trigger text.subrange(start, end)]
        {
            &&& 0 <= start <= end <= text.len()
            &&& b == text.subrange(start, end)
            &&& forall|i: int| 0 <= i < start ==> whitespace(#[trigger] text[i])
            &&& forall|i: int| end <= i < text.len() ==> whitespace(#[trigger] text[i])
            &&& start < end ==> !whitespace(text[start]) && !whitespace(text[end - 1])
        };
    if s < e {
        assert(!whitespace(text[s]));
        assert(!whitespace(text[e - 1]));
    }
    if t < f {
        assert(!whitespace(text[t]));
        assert(!whitespace(text[f - 1]));
    }
    assert(a =~= b);
}

pub fn same_text(a: &str, b: &str) -> (r: bool)
    ensures
        r == (a@ == b@),
{
    a.to_owned() == b.to_owned()
}

/// `head` followed by `tail`.
pub fn joined(head: &str, tail: &str) -> (r: String)
    ensures
        r@ == head@ + tail@,
{
    head.to_owned().concat(tail)
}

/// The text without the whitespace at both ends.
pub fn trim(text: &str) -> (r: &str)
    ensures
        trimmed(text@, r@),
{
    let length: usize = text.unicode_len();
    let mut start: usize = 0;
    while start < length && is_whitespace(text.get_char(start))
        invariant
            start <= length == text@.len(),
            forall|i: int| 0 <= i < start ==> whitespace(#[trigger] text@[i]),
        decreases length - start,
    {
        start += 1;
    }
    let mut end: usize = length;
    while start < end && is_whitespace(text.get_char(end - 1))
        invariant
            start <= end <= length == text@.len(),
            start < length ==> !whitespace(text@[start as int]),
            forall|i: int| end <= i < length ==> whitespace(#[trigger] text@[i]),
        decreases end,
    {
        end -= 1;
    }
    text.substring_char(start, end)
}

/// Whether a text begins with a prefix.
pub fn starts_with(text: &str, prefix: &str) -> (r: bool)
    ensures
        r == prefix@.is_prefix_of(text@),
{
    let length: usize = text.unicode_len();
    let wanted: usize = prefix.unicode_len();
    if wanted > length {
        return false;
    }
    let mut i: usize = 0;
    while i < wanted
        invariant
            i <= wanted == prefix@.len(),
            wanted <= length == text@.len(),
            forall|k: int| 0 <= k < i ==> prefix@[k] == text@[k],
        decreases wanted - i,
    {
        if text.get_char(i) != prefix.get_char(i) {
            assert(text@.subrange(0, wanted as int)[i as int] == text@[i as int]);
            return false;
        }
        i += 1;
    }
    assert(prefix@ =~= text@.subrange(0, wanted as int));
    true
}

/// Whether a character occurs in a text.
pub fn contains_char(text: &str, wanted: char) -> (r: bool)
    ensures
        r == text@.contains(wanted),
{
    let length: usize = text.unicode_len();
    let mut i: usize = 0;
    while i < length
        invariant
            i <= length == text@.len(),
            forall|k: int| 0 <= k < i ==> #[trigger] text@[k] != wanted,
        decreases length - i,
    {
        if text.get_char(i) == wanted {
            assert(text@[i as int] == wanted);
            return true;
        }
        i += 1;
    }
    false
}

/// ASCII whitespace is the space and the five controls from the tab to the
/// carriage return; beyond ASCII it is the next-line control and the spaces and
/// separators of Unicode, which are no letters, digits or joiners.
pub proof fn whitespace_is_that_of_unicode(c: char)
    ensures
        c <= '\u{7f}' ==> (whitespace(c) <==> c == ' ' || c == '\t' || c == '\n' || c == '\u{b}'
            || c == '\u{c}' || c == '\r'),
        '\u{80}' <= c <= '\u{1fff}' ==> (whitespace(c) <==> c == '\u{85}' || c == '\u{a0}' || c
            == '\u{1680}'),
        '\u{2000}' <= c <= '\u{2fff}' ==> (whitespace(c) <==> c <= '\u{200a}' || c == '\u{2028}'
            || c == '\u{2029}' || c == '\u{202f}' || c == '\u{205f}'),
        c >= '\u{3000}' ==> (whitespace(c) <==> c == '\u{3000}'),
{
}

/// What is left after trimming neither begins nor ends in whitespace, and is
/// trimmed already.
pub proof fn trimming_twice_changes_nothing(text: Seq<char>, part: Seq<char>)
    requires
        trimmed(text, part),
    ensures
        part.len() <= text.len(),
        part.len() > 0 ==> !whitespace(part[0]) && !whitespace(part.last()),
        trimmed(part, part),
{
    assert(part.subrange(0, part.len() as int) =~= part);
}

} // verus!
