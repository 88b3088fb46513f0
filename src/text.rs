//! The rope that backs a document, as the library sees it: a sequence of
//! lines, each line holding its own terminator (if any).
use vstd::prelude::*;

verus! {

#[verifier::external_type_specification]
#[verifier::external_body]
pub struct ExRope(ropey::Rope);

/// A char that ends a line of the rope (the unicode line breaks, of which
/// `"\r\n"` counts as one).
pub open spec fn is_line_break(c: char) -> bool {
    c == '\n' || c == '\u{0B}' || c == '\u{0C}' || c == '\r' || c == '\u{85}' || c == '\u{2028}'
        || c == '\u{2029}'
}

/// Number of chars that the line break at the end of `line` takes.
pub open spec fn terminator_len(line: Seq<char>) -> nat {
    if line.len() >= 2 && line[line.len() - 2] == '\r' && line[line.len() - 1] == '\n' {
        2
    } else if line.len() >= 1 && is_line_break(line[line.len() - 1]) {
        1
    } else {
        0
    }
}

/// The length of a line, its terminator excluded.
pub open spec fn content_len(line: Seq<char>) -> nat {
    (line.len() - terminator_len(line)) as nat
}

/// The chars of a line, its terminator excluded.
pub open spec fn content(line: Seq<char>) -> Seq<char> {
    line.subrange(0, content_len(line) as int)
}

/// `lines` is `text` cut after each line break: put back together they give
/// `text`; every line but the last ends with exactly one line break (a
/// `"\r\n"` pair counts as one and is never cut in two) and holds no
/// other; the last line holds none.
pub open spec fn splits_into_lines(lines: Seq<Seq<char>>, text: Seq<char>) -> bool {
    &&& lines.len() >= 1
    &&& lines.flatten() == text
    &&& forall|i: int|
        0 <= i < lines.len() ==> forall|j: int|
            0 <= j < content_len(#[trigger] lines[i]) ==> !is_line_break(lines[i][j])
    &&& forall|i: int| 0 <= i < lines.len() - 1 ==> terminator_len(#[trigger] lines[i]) > 0
    &&& terminator_len(lines.last()) == 0
    &&& forall|i: int|
        0 <= i < lines.len() - 1 && #[trigger] lines[i].last() == '\r' ==> !(lines[i + 1].len()
            > 0 && lines[i + 1][0] == '\n')
}

/// What a rope holds, line by line. Each line keeps the line break that ends
/// it; the last line has none. A rope always has at least one line.
pub uninterp spec fn rope_lines(r: ropey::Rope) -> Seq<Seq<char>>;

/// Relies on `ropey::Rope::from_str`: the new rope holds the given text, cut
/// into lines as ropey's notes on line breaks describe (with its default
/// features, which recognize the unicode line breaks).
#[verifier::external_body]
pub(crate) fn rope_from_str(s: &str) -> (r: ropey::Rope)
    ensures
        splits_into_lines(rope_lines(r), s@),
{
    ropey::Rope::from_str(s)
}

/// Relies on `ropey::Rope::len_lines`: the number of lines, which is the
/// number of line breaks plus one.
#[verifier::external_body]
pub(crate) fn rope_len_lines(r: &ropey::Rope) -> (n: usize)
    ensures
        n == rope_lines(*r).len(),
        n >= 1,
{
    r.len_lines()
}

/// Relies on `ropey::Rope::line` and `ropey::RopeSlice::len_chars`: the
/// number of chars of one line, its line break included.
#[verifier::external_body]
pub(crate) fn rope_line_len_chars(r: &ropey::Rope, i: usize) -> (n: usize)
    requires
        i < rope_lines(*r).len(),
    ensures
        n == rope_lines(*r)[i as int].len(),
{
    r.line(i).len_chars()
}

/// Relies on `ropey::Rope::line` and `ropey::RopeSlice::char`: one char of
/// one line.
#[verifier::external_body]
pub(crate) fn rope_line_char(r: &ropey::Rope, i: usize, j: usize) -> (c: char)
    requires
        i < rope_lines(*r).len(),
        j < rope_lines(*r)[i as int].len(),
    ensures
        c == rope_lines(*r)[i as int][j as int],
{
    r.line(i).char(j)
}

/// Relies on `ropey::Rope::line`, `ropey::RopeSlice::slice` and
/// `From<RopeSlice> for String`: the chars `start..end` of one line, copied
/// into a string.
#[verifier::external_body]
pub(crate) fn rope_line_slice(r: &ropey::Rope, i: usize, start: usize, end: usize) -> (s: String)
    requires
        i < rope_lines(*r).len(),
        start <= end <= rope_lines(*r)[i as int].len(),
    ensures
        s@ == rope_lines(*r)[i as int].subrange(start as int, end as int),
{
    String::from(r.line(i).slice(start..end))
}

} // verus!
