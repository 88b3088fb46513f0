//! The read cursor: its position in the document, its viewport offsets, and
//! how navigation events move it.
use vstd::prelude::*;
use crate::doc::{Document, line_len};

verus! {

/// The visible size of the viewport, in rows and columns.
#[derive(Clone, Copy, Debug, PartialEq, Eq, Structural)]
pub struct TermSize {
    pub rows: usize,
    pub columns: usize,
}

/// A decoded input event. `Resize` carries the new `(columns, rows)`.
#[derive(Clone, Copy, Debug, PartialEq, Eq, Structural)]
pub enum NavigationEvent {
    MoveUp,
    MoveDown,
    MoveLeft,
    MoveRight,
    PageUp,
    PageDown,
    Home,
    End,
    Quit,
    Resize(u16, u16),
    Other,
}

/// Cursor position and viewport offsets.
#[derive(Clone, Copy, Debug, PartialEq, Eq, Structural)]
pub struct Cursor {
    /// column: a char index within the current line
    pub x: usize,
    /// row: a line index; it may be one past the last line
    pub y: usize,
    /// first visible row
    pub row_offset: usize,
    /// first visible column
    pub col_offset: usize,
}

pub open spec fn move_up_spec(c: Cursor) -> Cursor {
    if c.y > 0 {
        Cursor { y: (c.y - 1) as usize, ..c }
    } else {
        c
    }
}

/// Moving down may reach the row just past the last line (`y == count`).
pub open spec fn move_down_spec(c: Cursor, count: nat) -> Cursor {
    if c.y < count {
        Cursor { y: (c.y + 1) as usize, ..c }
    } else {
        c
    }
}

/// Left wraps from the start of a row to the end of the row above.
pub open spec fn move_left_spec(c: Cursor, lines: Seq<Seq<char>>) -> Cursor {
    if c.x > 0 {
        Cursor { x: (c.x - 1) as usize, ..c }
    } else if c.y > 0 {
        Cursor { x: line_len(lines, c.y - 1) as usize, y: (c.y - 1) as usize, ..c }
    } else {
        c
    }
}

/// Right wraps from the end of a line to the start of the next row; on the
/// row past the last line it does nothing.
pub open spec fn move_right_spec(c: Cursor, lines: Seq<Seq<char>>) -> Cursor {
    if c.y < lines.len() {
        if c.x < line_len(lines, c.y as int) {
            Cursor { x: (c.x + 1) as usize, ..c }
        } else if c.x == line_len(lines, c.y as int) {
            Cursor { x: 0, y: (c.y + 1) as usize, ..c }
        } else {
            c
        }
    } else {
        c
    }
}

/// `rows / 2` steps up, stopping at the first row.
pub open spec fn page_up_spec(c: Cursor, rows: nat) -> Cursor {
    if c.y >= rows / 2 {
        Cursor { y: (c.y - rows / 2) as usize, ..c }
    } else {
        Cursor { y: 0, ..c }
    }
}

/// `rows / 2` steps down, stopping at the row past the last line.
pub open spec fn page_down_spec(c: Cursor, rows: nat, count: nat) -> Cursor {
    if c.y >= count {
        c
    } else if c.y + rows / 2 <= count {
        Cursor { y: (c.y + rows / 2) as usize, ..c }
    } else {
        Cursor { y: count as usize, ..c }
    }
}

pub open spec fn home_spec(c: Cursor) -> Cursor {
    Cursor { x: 0, ..c }
}

/// The last column of the viewport; the clamp that follows every event
/// brings it back into the line.
pub open spec fn end_spec(c: Cursor, columns: nat) -> Cursor {
    if columns > 0 {
        Cursor { x: (columns - 1) as usize, ..c }
    } else {
        Cursor { x: 0, ..c }
    }
}

/// Keeps `x` within the current row.
pub open spec fn clamp_spec(c: Cursor, lines: Seq<Seq<char>>) -> Cursor {
    if c.x > line_len(lines, c.y as int) {
        Cursor { x: line_len(lines, c.y as int) as usize, ..c }
    } else {
        c
    }
}

/// What an event does to the cursor, before the clamp.
pub open spec fn handle_spec(
    c: Cursor,
    e: NavigationEvent,
    size: TermSize,
    lines: Seq<Seq<char>>,
) -> Cursor {
    match e {
        NavigationEvent::MoveUp => move_up_spec(c),
        NavigationEvent::MoveDown => move_down_spec(c, lines.len()),
        NavigationEvent::MoveLeft => move_left_spec(c, lines),
        NavigationEvent::MoveRight => move_right_spec(c, lines),
        NavigationEvent::PageUp => page_up_spec(c, size.rows as nat),
        NavigationEvent::PageDown => page_down_spec(c, size.rows as nat, lines.len()),
        NavigationEvent::Home => home_spec(c),
        NavigationEvent::End => end_spec(c, size.columns as nat),
        _ => c,
    }
}

/// An event followed by the clamp.
pub open spec fn react_spec(
    c: Cursor,
    e: NavigationEvent,
    size: TermSize,
    lines: Seq<Seq<char>>,
) -> Cursor {
    clamp_spec(handle_spec(c, e, size, lines), lines)
}

/// Minimal scroll on one axis: the offset moves only as far as it takes to
/// bring `pos` into `[offset, offset + extent)`.
pub open spec fn scroll_axis(pos: nat, offset: nat, extent: nat) -> nat {
    if pos < offset {
        pos
    } else if pos - offset >= extent {
        (pos - extent + 1) as nat
    } else {
        offset
    }
}

pub open spec fn scroll_spec(c: Cursor, size: TermSize) -> Cursor {
    Cursor {
        row_offset: scroll_axis(c.y as nat, c.row_offset as nat, size.rows as nat) as usize,
        col_offset: scroll_axis(c.x as nat, c.col_offset as nat, size.columns as nat) as usize,
        ..c
    }
}

/// The cursor sits inside the viewport.
pub open spec fn in_view(c: Cursor, size: TermSize) -> bool {
    &&& c.row_offset <= c.y < c.row_offset + size.rows
    &&& c.col_offset <= c.x < c.col_offset + size.columns
}

impl Default for Cursor {
    fn default() -> (c: Cursor)
        ensures
            c == (Cursor { x: 0, y: 0, row_offset: 0, col_offset: 0 }),
    {
        Cursor { x: 0, y: 0, row_offset: 0, col_offset: 0 }
    }
}

impl Cursor {
    /// Moves the viewport offsets by the least amount that brings the
    /// cursor into view.
    pub fn scroll(&mut self, size: &TermSize)
        requires
            size.rows > 0 || old(self).y < usize::MAX,
            size.columns > 0 || old(self).x < usize::MAX,
        ensures
            *final(self) == scroll_spec(*old(self), *size),
            size.rows > 0 && size.columns > 0 ==> in_view(*final(self), *size),
    {
        if self.y < self.row_offset {
            self.row_offset = self.y;
        } else if self.y - self.row_offset >= size.rows {
            if size.rows > 0 {
                self.row_offset = self.y - (size.rows - 1);
            } else {
                self.row_offset = self.y + 1;
            }
        }
        if self.x < self.col_offset {
            self.col_offset = self.x;
        } else if self.x - self.col_offset >= size.columns {
            if size.columns > 0 {
                self.col_offset = self.x - (size.columns - 1);
            } else {
                self.col_offset = self.x + 1;
            }
        }
    }

    /// Applies one event, then clamps `x` into the current row. Returns
    /// whether the event asks to quit.
    pub fn react(&mut self, event: NavigationEvent, size: &TermSize, doc: &Document) -> (quit:
        bool)
        ensures
            *final(self) == react_spec(*old(self), event, *size, doc.lines()),
            final(self).x <= line_len(doc.lines(), final(self).y as int),
            old(self).y <= doc.lines().len() ==> final(self).y <= doc.lines().len(),
            quit == (event == NavigationEvent::Quit),
    {
        match event {
            NavigationEvent::MoveUp => self.move_up(size),
            NavigationEvent::MoveDown => self.move_down(size, doc),
            NavigationEvent::MoveLeft => self.move_left(size, doc),
            NavigationEvent::MoveRight => self.move_right(size, doc),
            NavigationEvent::PageUp => self.page_up(size),
            NavigationEvent::PageDown => self.page_down(size, doc),
            NavigationEvent::Home => self.home(size),
            NavigationEvent::End => self.end(size),
            _ => {},
        }
        self.clamp(doc);
        match event {
            NavigationEvent::Quit => true,
            _ => false,
        }
    }

    /// Brings `x` back to the length of the current row if it overshoots.
    pub fn clamp(&mut self, doc: &Document)
        ensures
            *final(self) == clamp_spec(*old(self), doc.lines()),
            final(self).x <= line_len(doc.lines(), final(self).y as int),
    {
        let len = doc.line_len(self.y);
        if self.x > len {
            self.x = len;
        }
    }

    pub fn move_up(&mut self, _size: &TermSize)
        ensures
            *final(self) == move_up_spec(*old(self)),
    {
        if self.y > 0 {
            self.y -= 1;
        }
    }

    pub fn move_down(&mut self, _size: &TermSize, doc: &Document)
        ensures
            *final(self) == move_down_spec(*old(self), doc.lines().len()),
    {
        if self.y < doc.get_lines() {
            self.y += 1;
        }
    }

    pub fn move_left(&mut self, _size: &TermSize, doc: &Document)
        ensures
            *final(self) == move_left_spec(*old(self), doc.lines()),
    {
        if self.x != 0 {
            self.x -= 1;
        } else if self.y > 0 {
            self.y -= 1;
            self.x = doc.line_len(self.y);
        }
    }

    pub fn move_right(&mut self, _size: &TermSize, doc: &Document)
        ensures
            *final(self) == move_right_spec(*old(self), doc.lines()),
    {
        if self.y >= doc.get_lines() {
            return ;
        }
        let len = doc.line_len(self.y);
        if self.x < len {
            self.x += 1;
        } else if self.x == len {
            self.x = 0;
            self.y += 1;
        }
    }

    pub fn page_up(&mut self, size: &TermSize)
        ensures
            *final(self) == page_up_spec(*old(self), size.rows as nat),
    {
        let times = size.rows / 2;
        let mut k: usize = 0;
        while k < times
            invariant
                k <= times,
                times == size.rows / 2,
                *self == (if old(self).y >= k {
                    Cursor { y: (old(self).y - k) as usize, ..*old(self) }
                } else {
                    Cursor { y: 0, ..*old(self) }
                }),
            decreases times - k,
        {
            self.move_up(size);
            k += 1;
        }
    }

    pub fn page_down(&mut self, size: &TermSize, doc: &Document)
        ensures
            *final(self) == page_down_spec(*old(self), size.rows as nat, doc.lines().len()),
    {
        let times = size.rows / 2;
        let count = doc.get_lines();
        let mut k: usize = 0;
        while k < times
            invariant
                k <= times,
                times == size.rows / 2,
                count == doc.lines().len(),
                *self == (if old(self).y >= doc.lines().len() {
                    *old(self)
                } else if old(self).y + k <= doc.lines().len() {
                    Cursor { y: (old(self).y + k) as usize, ..*old(self) }
                } else {
                    Cursor { y: doc.lines().len() as usize, ..*old(self) }
                }),
            decreases times - k,
        {
            self.move_down(size, doc);
            k += 1;
        }
    }

    pub fn home(&mut self, _size: &TermSize)
        ensures
            *final(self) == home_spec(*old(self)),
    {
        self.x = 0;
    }

    pub fn end(&mut self, size: &TermSize)
        ensures
            *final(self) == end_spec(*old(self), size.columns as nat),
    {
        if size.columns > 0 {
            self.x = size.columns - 1;
        } else {
            self.x = 0;
        }
    }
}

/// Line count and line lengths that a document can have: each fits in
/// `usize`.
pub open spec fn fits(lines: Seq<Seq<char>>) -> bool {
    &&& lines.len() <= usize::MAX
    &&& forall|i: int| 0 <= i < lines.len() ==> #[trigger] lines[i].len() <= usize::MAX
}

/// The same event applied `k` times.
pub open spec fn react_times(
    c: Cursor,
    e: NavigationEvent,
    size: TermSize,
    lines: Seq<Seq<char>>,
    k: nat,
) -> Cursor
    decreases k,
{
    if k == 0 {
        c
    } else {
        react_spec(react_times(c, e, size, lines, (k - 1) as nat), e, size, lines)
    }
}

/// From the start of a row below the first, `MoveLeft` and then
/// `MoveRight` bring the cursor back to the same column and row.
pub proof fn left_then_right_returns(c: Cursor, size: TermSize, lines: Seq<Seq<char>>)
    requires
        fits(lines),
        c.x == 0,
        0 < c.y <= lines.len(),
    ensures
        ({
            let d = react_spec(
                react_spec(c, NavigationEvent::MoveLeft, size, lines),
                NavigationEvent::MoveRight,
                size,
                lines,
            );
            d.x == c.x && d.y == c.y
        }),
{
    assert(lines[c.y - 1].len() <= usize::MAX);
}

/// `PageDown` applied `k` times moves down by at most `k * (rows / 2)` rows,
/// and never past the row just after the last line.
pub proof fn page_down_progress(c: Cursor, size: TermSize, lines: Seq<Seq<char>>, k: nat)
    requires
        fits(lines),
    ensures
        react_times(c, NavigationEvent::PageDown, size, lines, k).y <= c.y + k * (size.rows / 2),
        c.y <= lines.len() ==> react_times(c, NavigationEvent::PageDown, size, lines, k).y
            <= lines.len(),
    decreases k,
{
    if k > 0 {
        page_down_progress(c, size, lines, (k - 1) as nat);
        let h = size.rows / 2;
        assert(c.y + (k - 1) * h + h == c.y + k * h) by (nonlinear_arith);
    }
}

} // verus!
