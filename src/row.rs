//! A row of display text and its width on screen.
use vstd::prelude::*;
use unicode_width::UnicodeWidthStr;

verus! {

/// Display width of a text in terminal columns, by the Unicode East Asian
/// Width tables (ambiguous chars count as one column).
pub uninterp spec fn display_width(s: Seq<char>) -> nat;

/// Relies on `unicode_width::UnicodeWidthStr::width`: the width depends on
/// the chars alone, and an empty text has width 0.
#[verifier::external_body]
fn str_width(s: &str) -> (w: usize)
    ensures
        w == display_width(s@),
        s@.len() == 0 ==> w == 0,
{
    s.width()
}

pub struct Row {
    pub content: String,
}

impl Row {
    pub fn new(content: &str) -> (r: Row)
        ensures
            r.content@ == content@,
    {
        Row { content: content.to_owned() }
    }

    /// Columns that the row takes on screen.
    pub fn width(&self) -> (w: usize)
        ensures
            w == display_width(self.content@),
            self.content@.len() == 0 ==> w == 0,
    {
        str_width(self.content.as_str())
    }
}

} // verus!
