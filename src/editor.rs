//! One editing session: a document, the cursor over it and the viewport,
//! advanced one event at a time.
use vstd::prelude::*;
use crate::cursor::{Cursor, NavigationEvent, TermSize, react_spec, scroll_spec};
use crate::doc::Document;
use crate::render::{Frame, frame_shows, render};

verus! {

pub struct Editor {
    pub cursor: Cursor,
    pub document: Document,
    pub size: TermSize,
}

/// The viewport after an event: a resize carries `(columns, rows)`.
pub open spec fn size_after(size: TermSize, e: NavigationEvent) -> TermSize {
    match e {
        NavigationEvent::Resize(columns, rows) => TermSize {
            rows: rows as usize,
            columns: columns as usize,
        },
        _ => size,
    }
}

impl Default for Editor {
    /// A session over a small greeting text, with no viewport yet.
    fn default() -> (e: Editor)
        ensures
            e.cursor == (Cursor { x: 0, y: 0, row_offset: 0, col_offset: 0 }),
            e.size == (TermSize { rows: 0, columns: 0 }),
            e.document.lines().flatten() == "Hello world"@,
    {
        Editor {
            cursor: Cursor::default(),
            document: Document::from_text("Hello world"),
            size: TermSize { rows: 0, columns: 0 },
        }
    }
}

impl Editor {
    /// Replaces the document; the cursor stays where it was.
    pub fn open(&mut self, document: Document)
        ensures
            final(self).document == document,
            final(self).cursor == old(self).cursor,
            final(self).size == old(self).size,
    {
        self.document = document;
    }

    /// Handles one event and returns whether the session ends. A quit
    /// leaves everything as it was; a resize takes the new viewport size;
    /// every other event goes to the cursor.
    pub fn dispatch_event(&mut self, event: NavigationEvent) -> (quit: bool)
        ensures
            quit == (event == NavigationEvent::Quit),
            final(self).document == old(self).document,
            final(self).size == size_after(old(self).size, event),
            quit ==> final(self).cursor == old(self).cursor,
            !quit ==> final(self).cursor == react_spec(
                old(self).cursor,
                event,
                final(self).size,
                old(self).document.lines(),
            ),
    {
        match event {
            NavigationEvent::Quit => {
                return true;
            },
            NavigationEvent::Resize(columns, rows) => {
                self.size = TermSize { rows: rows as usize, columns: columns as usize };
            },
            _ => {},
        }
        self.cursor.react(event, &self.size, &self.document)
    }

    /// Scrolls the cursor into view and lays out the frame to draw.
    pub fn refresh_screen(&mut self, welcome: &str) -> (f: Frame)
        requires
            old(self).size.rows > 0,
            old(self).size.columns > 0,
        ensures
            final(self).cursor == scroll_spec(old(self).cursor, old(self).size),
            final(self).document == old(self).document,
            final(self).size == old(self).size,
            frame_shows(f, final(self).document.lines(), final(self).cursor, final(self).size, welcome@.len()),
    {
        self.cursor.scroll(&self.size);
        render(&self.document, &self.cursor, &self.size, welcome)
    }
}

} // verus!
