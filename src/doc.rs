//! The document: an immutable, line-structured text buffer.
use vstd::prelude::*;
use crate::text::{
    rope_lines, rope_from_str, rope_len_lines, rope_line_len_chars, rope_line_char,
    rope_line_slice, is_line_break, content_len, content, splits_into_lines,
};

verus! {

/// Length of row `y`. The row just past the last line (and any beyond it)
/// holds no text and counts as empty.
pub open spec fn line_len(lines: Seq<Seq<char>>, y: int) -> nat {
    if 0 <= y < lines.len() {
        content_len(lines[y])
    } else {
        0
    }
}

/// A document without any chars: a single empty line.
pub open spec fn is_blank(lines: Seq<Seq<char>>) -> bool {
    lines.len() == 1 && lines[0].len() == 0
}

/// A text buffer, read line by line. It is never changed once built.
pub struct Document {
    pub text: ropey::Rope,
}

impl Document {
    pub open spec fn lines(&self) -> Seq<Seq<char>> {
        rope_lines(self.text)
    }

    /// Builds an in-memory document holding `s`.
    pub fn from_text(s: &str) -> (d: Document)
        ensures
            splits_into_lines(d.lines(), s@),
    {
        Document { text: rope_from_str(s) }
    }

    /// Wraps an already loaded rope.
    pub fn from_rope(text: ropey::Rope) -> (d: Document)
        ensures
            d.text == text,
    {
        Document { text }
    }

    /// Number of lines; never zero.
    pub fn get_lines(&self) -> (n: usize)
        ensures
            n == self.lines().len(),
            n >= 1,
    {
        rope_len_lines(&self.text)
    }

    /// Length of row `y` in chars, without its terminator; 0 for rows past
    /// the last line.
    pub fn line_len(&self, y: usize) -> (n: usize)
        ensures
            n == line_len(self.lines(), y as int),
    {
        if y >= rope_len_lines(&self.text) {
            return 0;
        }
        let n = rope_line_len_chars(&self.text, y);
        if n >= 2 && rope_line_char(&self.text, y, n - 2) == '\r' && rope_line_char(
            &self.text,
            y,
            n - 1,
        ) == '\n' {
            n - 2
        } else if n >= 1 && is_break_char(rope_line_char(&self.text, y, n - 1)) {
            n - 1
        } else {
            n
        }
    }

    /// The text of line `y` without its terminator, or `None` past the last
    /// line.
    pub fn line(&self, y: usize) -> (r: Option<String>)
        ensures
            y < self.lines().len() ==> (r matches Some(s) && s@ == content(self.lines()[y as int])),
            y >= self.lines().len() ==> r is None,
    {
        if y >= rope_len_lines(&self.text) {
            return None;
        }
        let n = self.line_len(y);
        Some(rope_line_slice(&self.text, y, 0, n))
    }

    /// Whether the document holds no chars at all.
    pub fn is_blank(&self) -> (b: bool)
        ensures
            b == is_blank(self.lines()),
    {
        rope_len_lines(&self.text) == 1 && rope_line_len_chars(&self.text, 0) == 0
    }
}

fn is_break_char(c: char) -> (b: bool)
    ensures
        b == is_line_break(c),
{
    c == '\n' || c == '\u{0B}' || c == '\u{0C}' || c == '\r' || c == '\u{85}' || c == '\u{2028}'
        || c == '\u{2029}'
}

/// The length that `line_len` reports for a row is the same on every call:
/// it depends on the document and the row alone.
pub proof fn line_len_is_stable(doc: Document, y: int, a: nat, b: nat)
    requires
        0 <= y < doc.lines().len(),
        a == line_len(doc.lines(), y),
        b == line_len(doc.lines(), y),
    ensures
        a == b,
        a == content(doc.lines()[y]).len(),
{
}

} // verus!
