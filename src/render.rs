//! Turning document, cursor and viewport into the rows of one frame.
use vstd::prelude::*;
use vstd::string::StrSliceExecFns;
use crate::cursor::{Cursor, TermSize, in_view};
use crate::doc::{Document, line_len, is_blank};
use crate::text::rope_line_slice;

verus! {

/// What one display row shows.
#[derive(Clone, Debug, PartialEq, Eq)]
pub enum RowView {
    /// Visible chars of a document line.
    Text(String),
    /// The marker of a row with no line behind it.
    Filler,
    /// The welcome banner of an empty document: the filler marker, then
    /// `padding - 1` spaces, then the welcome text. Nothing is shown when
    /// `padding` is 0 (the text does not fit).
    Banner { padding: usize },
}

/// One frame: its display rows, top to bottom, and where the terminal
/// cursor goes.
#[derive(Clone, Debug, PartialEq, Eq)]
pub struct Frame {
    pub rows: Vec<RowView>,
    pub cursor_x: usize,
    pub cursor_y: usize,
}

/// The chars of row `row` in columns `[col_offset, col_offset + columns)`,
/// counted in chars and without the line terminator.
pub open spec fn visible(lines: Seq<Seq<char>>, row: int, col_offset: nat, columns: nat) -> Seq<
    char,
> {
    let len = line_len(lines, row);
    if col_offset >= len {
        Seq::empty()
    } else if len - col_offset <= columns {
        lines[row].subrange(col_offset as int, len as int)
    } else {
        lines[row].subrange(col_offset as int, (col_offset + columns) as int)
    }
}

/// Spaces that center a welcome text of `text_len` chars in `columns`.
pub open spec fn banner_padding(columns: nat, text_len: nat) -> nat {
    if columns >= text_len {
        ((columns - text_len) / 2) as nat
    } else {
        0
    }
}

/// What display row `i` of the viewport shows. An empty document shows
/// only filler and, at row `rows / 3`, the banner.
pub open spec fn row_shows(
    v: RowView,
    lines: Seq<Seq<char>>,
    c: Cursor,
    size: TermSize,
    text_len: nat,
    i: int,
) -> bool {
    if is_blank(lines) {
        if i == size.rows / 3 {
            v == RowView::Banner { padding: banner_padding(size.columns as nat, text_len) as usize }
        } else {
            v == RowView::Filler
        }
    } else if c.row_offset + i < lines.len() {
        v matches RowView::Text(s) && s@ == visible(
            lines,
            c.row_offset + i,
            c.col_offset as nat,
            size.columns as nat,
        )
    } else {
        v == RowView::Filler
    }
}

/// A frame of `size.rows` rows, each as `row_shows` says, with the terminal
/// cursor at the cursor's place relative to the viewport.
pub open spec fn frame_shows(
    f: Frame,
    lines: Seq<Seq<char>>,
    c: Cursor,
    size: TermSize,
    text_len: nat,
) -> bool {
    &&& f.rows@.len() == size.rows
    &&& forall|i: int|
        0 <= i < size.rows ==> row_shows(#[trigger] f.rows@[i], lines, c, size, text_len, i)
    &&& f.cursor_x == c.x - c.col_offset
    &&& f.cursor_y == c.y - c.row_offset
}

/// The visible part of row `row`: at most `columns` chars from
/// `col_offset` on, never past the line terminator. Empty for a row past
/// the last line.
pub fn write_slices(doc: &Document, row: usize, col_offset: usize, columns: usize) -> (s: String)
    ensures
        s@ == visible(doc.lines(), row as int, col_offset as nat, columns as nat),
{
    let len = doc.line_len(row);
    if col_offset >= len {
        String::new()
    } else if len - col_offset <= columns {
        rope_line_slice(&doc.text, row, col_offset, len)
    } else {
        rope_line_slice(&doc.text, row, col_offset, col_offset + columns)
    }
}

/// Spaces that center a welcome text of `text_len` chars in `columns`.
pub fn banner_padding_of(columns: usize, text_len: usize) -> (p: usize)
    ensures
        p == banner_padding(columns as nat, text_len as nat),
{
    if columns >= text_len {
        (columns - text_len) / 2
    } else {
        0
    }
}

/// Lays out one frame. The cursor must be in view, which `Cursor::scroll`
/// ensures for a viewport of at least one row and one column.
pub fn render(doc: &Document, cursor: &Cursor, size: &TermSize, welcome: &str) -> (f: Frame)
    requires
        in_view(*cursor, *size),
    ensures
        frame_shows(f, doc.lines(), *cursor, *size, welcome@.len()),
{
    let count = doc.get_lines();
    let blank = doc.is_blank();
    let padding = banner_padding_of(size.columns, welcome.unicode_len());
    let mut rows: Vec<RowView> = Vec::new();
    let mut i: usize = 0;
    while i < size.rows
        invariant
            i <= size.rows,
            count == doc.lines().len(),
            blank == is_blank(doc.lines()),
            padding == banner_padding(size.columns as nat, welcome@.len()),
            rows@.len() == i,
            forall|j: int|
                0 <= j < i ==> row_shows(
                    #[trigger] rows@[j],
                    doc.lines(),
                    *cursor,
                    *size,
                    welcome@.len(),
                    j,
                ),
        decreases size.rows - i,
    {
        let v = if blank {
            if i == size.rows / 3 {
                RowView::Banner { padding }
            } else {
                RowView::Filler
            }
        } else if cursor.row_offset < count && i < count - cursor.row_offset {
            RowView::Text(write_slices(doc, cursor.row_offset + i, cursor.col_offset, size.columns))
        } else {
            RowView::Filler
        };
        rows.push(v);
        i += 1;
    }
    Frame { rows, cursor_x: cursor.x - cursor.col_offset, cursor_y: cursor.y - cursor.row_offset }
}

} // verus!
