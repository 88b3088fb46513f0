//! Navigation and rendering core of a terminal text viewer: a read cursor
//! over an immutable, rope-backed document, minimal viewport scrolling, and
//! character-safe slicing of lines into the visible column window.
//!
//! The cursor may stand on the row just past the last line, which holds no
//! text and acts as a trailing blank line. Columns are counted in chars, not
//! in display width, so wide glyphs shift the rest of their row on screen.
pub mod text;
pub mod doc;
pub mod cursor;
pub mod render;
pub mod keys;
pub mod row;
pub mod editor;

pub use cursor::{Cursor, NavigationEvent, TermSize};
pub use doc::Document;
pub use editor::Editor;
pub use keys::{Key, KeyPress, decode_key};
pub use render::{Frame, RowView, banner_padding_of, render, write_slices};
pub use row::Row;
