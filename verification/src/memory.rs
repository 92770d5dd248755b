//! How much memory the machine has, as the kernel reports it.

use crate::text::{is_whitespace, starts_with, whitespace};
use vstd::prelude::*;
use vstd::string::*;

verus! {

/// Where the line that holds position `i` ends.
pub open spec fn line_end(text: Seq<char>, i: int) -> int
    decreases text.len() - i,
{
    if i >= text.len() || text[i] == '\n' {
        i
    } else {
        line_end(text, i + 1)
    }
}

/// The first position from `i` on that is not whitespace.
pub open spec fn space_end(text: Seq<char>, i: int) -> int
    decreases text.len() - i,
{
    if i >= text.len() || !whitespace(text[i]) {
        i
    } else {
        space_end(text, i + 1)
    }
}

/// The first position from `i` on that is whitespace.
pub open spec fn word_end(text: Seq<char>, i: int) -> int
    decreases text.len() - i,
{
    if i >= text.len() || whitespace(text[i]) {
        i
    } else {
        word_end(text, i + 1)
    }
}

/// The second of the words that whitespace parts.
pub open spec fn second_word(line: Seq<char>) -> Option<Seq<char>> {
    let start = space_end(line, word_end(line, space_end(line, 0)));
    if start < line.len() {
        Some(line.subrange(start, word_end(line, start)))
    } else {
        None
    }
}

/// The first line from position `i` on that starts with the prefix.
pub open spec fn line_from(text: Seq<char>, i: int, prefix: Seq<char>) -> Option<Seq<char>>
    decreases text.len() - i,
{
    if i < 0 || i > text.len() {
        None
    } else {
        proof {
            line_end_bounds(text, i);
        }
        let end = line_end(text, i);
        if prefix.is_prefix_of(text.subrange(i, end)) {
            Some(text.subrange(i, end))
        } else if end < text.len() {
            line_from(text, end + 1, prefix)
        } else {
            None
        }
    }
}

/// The field that holds the total memory, in kibibytes.
pub open spec fn mem_total_spec(text: Seq<char>) -> Option<Seq<char>> {
    match line_from(text, 0, "MemTotal:"@) {
        Some(line) => second_word(line),
        None => None,
    }
}

/// A line ends where it begins or later, and within the text.
pub proof fn line_end_bounds(text: Seq<char>, i: int)
    requires
        i <= text.len(),
    ensures
        i <= line_end(text, i) <= text.len(),
    decreases text.len() - i,
{
    if i < text.len() && text[i] != '\n' {
        line_end_bounds(text, i + 1);
    }
}

fn find_line_end(text: &str, length: usize, from: usize) -> (r: usize)
    requires
        from <= length == text@.len(),
    ensures
        r == line_end(text@, from as int),
        from <= r <= length,
{
    let mut i: usize = from;
    while i < length && text.get_char(i) != '\n'
        invariant
            from <= i <= length == text@.len(),
            line_end(text@, i as int) == line_end(text@, from as int),
        decreases length - i,
    {
        i += 1;
    }
    i
}

fn find_space_end(text: &str, length: usize, from: usize) -> (r: usize)
    requires
        from <= length == text@.len(),
    ensures
        r == space_end(text@, from as int),
        from <= r <= length,
{
    let mut i: usize = from;
    while i < length && is_whitespace(text.get_char(i))
        invariant
            from <= i <= length == text@.len(),
            space_end(text@, i as int) == space_end(text@, from as int),
        decreases length - i,
    {
        i += 1;
    }
    i
}

fn find_word_end(text: &str, length: usize, from: usize) -> (r: usize)
    requires
        from <= length == text@.len(),
    ensures
        r == word_end(text@, from as int),
        from <= r <= length,
{
    let mut i: usize = from;
    while i < length && !is_whitespace(text.get_char(i))
        invariant
            from <= i <= length == text@.len(),
            word_end(text@, i as int) == word_end(text@, from as int),
        decreases length - i,
    {
        i += 1;
    }
    i
}

/// The second of the words of a line.
pub fn second_field(line: &str) -> (r: Option<&str>)
    ensures
        match r {
            Some(word) => second_word(line@) == Some(word@),
            None => second_word(line@) is None,
        },
{
    let length: usize = line.unicode_len();
    let first: usize = find_space_end(line, length, 0);
    let gap: usize = find_word_end(line, length, first);
    let start: usize = find_space_end(line, length, gap);
    if start < length {
        let end: usize = find_word_end(line, length, start);
        Some(line.substring_char(start, end))
    } else {
        None
    }
}

/// Finds the total memory in the text of `/proc/meminfo`: the second field of
/// the first line that starts with `MemTotal:`.
pub fn mem_total(text: &str) -> (r: Option<&str>)
    ensures
        match r {
            Some(field) => mem_total_spec(text@) == Some(field@),
            None => mem_total_spec(text@) is None,
        },
{
    let length: usize = text.unicode_len();
    let mut start: usize = 0;
    loop
        invariant
            start <= length == text@.len(),
            line_from(text@, start as int, "MemTotal:"@) == line_from(text@, 0, "MemTotal:"@),
        decreases length - start,
    {
        let end: usize = find_line_end(text, length, start);
        let line = text.substring_char(start, end);
        if starts_with(line, "MemTotal:") {
            return second_field(line);
        }
        if end == length {
            return None;
        }
        start = end + 1;
    }
}

proof fn line_end_ends_a_line(text: Seq<char>, i: int)
    requires
        0 <= i <= text.len(),
    ensures
        i <= line_end(text, i) <= text.len(),
        line_end(text, i) == text.len() || text[line_end(text, i)] == '\n',
        forall|k: int| i <= k < line_end(text, i) ==> #[trigger] text[k] != '\n',
    decreases text.len() - i,
{
    if i < text.len() && text[i] != '\n' {
        line_end_ends_a_line(text, i + 1);
    }
}

proof fn space_end_is_found(text: Seq<char>, i: int, end: int)
    requires
        0 <= i <= end <= text.len(),
        forall|k: int| i <= k < end ==> whitespace(#[trigger] text[k]),
        end == text.len() || !whitespace(text[end]),
    ensures
        space_end(text, i) == end,
    decreases end - i,
{
    if i < end {
        space_end_is_found(text, i + 1, end);
    }
}

proof fn word_end_is_found(text: Seq<char>, i: int, end: int)
    requires
        0 <= i <= end <= text.len(),
        forall|k: int| i <= k < end ==> !whitespace(#[trigger] text[k]),
        end == text.len() || whitespace(text[end]),
    ensures
        word_end(text, i) == end,
    decreases end - i,
{
    if i < end {
        word_end_is_found(text, i + 1, end);
    }
}

/// The second word of a line is what stands between the gap after its first word
/// and the next gap.
pub proof fn the_second_word_stands_between_gaps(
    first: Seq<char>,
    gap: Seq<char>,
    second: Seq<char>,
    rest: Seq<char>,
)
    requires
        first.len() > 0,
        gap.len() > 0,
        second.len() > 0,
        forall|i: int| 0 <= i < first.len() ==> !whitespace(#[trigger] first[i]),
        forall|i: int| 0 <= i < gap.len() ==> whitespace(#[trigger] gap[i]),
        forall|i: int| 0 <= i < second.len() ==> !whitespace(#[trigger] second[i]),
        rest.len() == 0 || whitespace(rest[0]),
    ensures
        second_word(first + gap + second + rest) == Some(second),
        second_word(first) is None,
{
    let line = first + gap + second + rest;
    let a = first.len() as int;
    let b = a + gap.len();
    let c = b + second.len();
    assert forall|k: int| 0 <= k < a implies !whitespace(#[trigger] line[k]) by {
        assert(line[k] == first[k]);
    }
    assert forall|k: int| a <= k < b implies whitespace(#[trigger] line[k]) by {
        assert(line[k] == gap[k - a]);
    }
    assert forall|k: int| b <= k < c implies !whitespace(#[trigger] line[k]) by {
        assert(line[k] == second[k - b]);
    }
    assert(c < line.len() ==> line[c] == rest[0]);
    assert(line[0] == first[0]);
    space_end_is_found(line, 0, 0);
    word_end_is_found(line, 0, a);
    space_end_is_found(line, a, b);
    word_end_is_found(line, b, c);
    assert(line.subrange(b, c) =~= second);
    space_end_is_found(first, 0, 0);
    word_end_is_found(first, 0, a);
    space_end_is_found(first, a, a);
}

/// Where a text begins with the line of the total memory, the total is what
/// stands between the gap after the line's name and the next gap.
pub proof fn a_first_line_holds_the_total(gap: Seq<char>, field: Seq<char>, rest: Seq<char>)
    requires
        gap.len() > 0,
        field.len() > 0,
        forall|i: int| 0 <= i < gap.len() ==> #[trigger] gap[i] == ' ',
        forall|i: int| 0 <= i < field.len() ==> '0' <= #[trigger] field[i] <= '9',
        rest.len() > 0,
        rest[0] == ' ' || rest[0] == '\n',
    ensures
        mem_total_spec("MemTotal:"@ + gap + field + rest) == Some(field),
{
    reveal_strlit("MemTotal:");
    let name = "MemTotal:"@;
    let front = name + gap + field;
    let text = front + rest;
    let n = front.len() as int;
    line_end_ends_a_line(text, 0);
    let end = line_end(text, 0);
    assert forall|k: int| 0 <= k < n implies #[trigger] text[k] != '\n' by {
        assert(text[k] == front[k]);
        if k < name.len() {
            assert(front[k] == name[k]);
        } else if k < name.len() + gap.len() {
            assert(front[k] == gap[k - name.len()]);
        } else {
            assert(front[k] == field[k - name.len() - gap.len()]);
        }
    }
    assert(end >= n);
    let line = text.subrange(0, end);
    let tail = rest.subrange(0, end - n);
    assert(line =~= name + gap + field + tail);
    assert(line.subrange(0, 9) =~= name);
    assert(name.is_prefix_of(line));
    assert forall|i: int| 0 <= i < name.len() implies !whitespace(#[trigger] name[i]) by {}
    assert forall|i: int| 0 <= i < gap.len() implies whitespace(#[trigger] gap[i]) by {}
    assert forall|i: int| 0 <= i < field.len() implies !whitespace(#[trigger] field[i]) by {}
    assert(tail.len() > 0 ==> tail[0] == rest[0]);
    the_second_word_stands_between_gaps(name, gap, field, tail);
}

/// A line before it that has another name does not change the total.
pub proof fn other_lines_do_not_change_the_total(line: Seq<char>, text: Seq<char>)
    requires
        !line.contains('\n'),
        !"MemTotal:"@.is_prefix_of(line),
    ensures
        mem_total_spec(line + seq!['\n'] + text) == mem_total_spec(text),
{
    let whole = line + seq!['\n'] + text;
    let n = line.len() as int;
    line_end_ends_a_line(whole, 0);
    assert forall|k: int| 0 <= k < n implies #[trigger] whole[k] != '\n' by {
        assert(whole[k] == line[k]);
        assert(line.contains(line[k]));
    }
    assert(whole[n] == '\n');
    assert(line_end(whole, 0) == n);
    assert(whole.subrange(0, n) =~= line);
    a_search_does_not_look_back(line + seq!['\n'], text, 0, "MemTotal:"@);
}

proof fn a_line_end_does_not_look_back(before: Seq<char>, text: Seq<char>, i: int)
    requires
        0 <= i <= text.len(),
    ensures
        line_end(before + text, before.len() + i) == before.len() + line_end(text, i),
    decreases text.len() - i,
{
    if i < text.len() {
        assert((before + text)[before.len() + i] == text[i]);
        if text[i] != '\n' {
            a_line_end_does_not_look_back(before, text, i + 1);
        }
    }
}

proof fn a_search_does_not_look_back(
    before: Seq<char>,
    text: Seq<char>,
    i: int,
    prefix: Seq<char>,
)
    requires
        0 <= i <= text.len(),
    ensures
        line_from(before + text, before.len() + i, prefix) == line_from(text, i, prefix),
    decreases text.len() - i,
{
    let whole = before + text;
    a_line_end_does_not_look_back(before, text, i);
    line_end_bounds(text, i);
    let end = line_end(text, i);
    assert(whole.subrange(before.len() + i, before.len() + end) =~= text.subrange(i, end));
    if end < text.len() {
        a_search_does_not_look_back(before, text, end + 1, prefix);
    }
}

} // verus!
