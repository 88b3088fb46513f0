//! Key bindings: which key press stands for which navigation event.
use vstd::prelude::*;
use crate::cursor::NavigationEvent;

verus! {

/// A key, as far as the bindings tell keys apart.
#[derive(Clone, Copy, Debug, PartialEq, Eq, Structural)]
pub enum Key {
    Char(char),
    Up,
    Down,
    Left,
    Right,
    PageUp,
    PageDown,
    Home,
    End,
    Other,
}

/// A key press; `plain` when no modifier key was held.
#[derive(Clone, Copy, Debug, PartialEq, Eq, Structural)]
pub struct KeyPress {
    pub code: Key,
    pub plain: bool,
}

/// The bindings: `q` quits, `w`/`a`/`s`/`d` (without modifiers) or the
/// arrow keys move, and the paging, Home and End keys do as named.
pub open spec fn binding(k: KeyPress) -> NavigationEvent {
    match k.code {
        Key::Char(c) => if !k.plain {
            NavigationEvent::Other
        } else if c == 'q' {
            NavigationEvent::Quit
        } else if c == 'w' {
            NavigationEvent::MoveUp
        } else if c == 's' {
            NavigationEvent::MoveDown
        } else if c == 'a' {
            NavigationEvent::MoveLeft
        } else if c == 'd' {
            NavigationEvent::MoveRight
        } else {
            NavigationEvent::Other
        },
        Key::Up => NavigationEvent::MoveUp,
        Key::Down => NavigationEvent::MoveDown,
        Key::Left => NavigationEvent::MoveLeft,
        Key::Right => NavigationEvent::MoveRight,
        Key::PageUp => NavigationEvent::PageUp,
        Key::PageDown => NavigationEvent::PageDown,
        Key::Home => NavigationEvent::Home,
        Key::End => NavigationEvent::End,
        Key::Other => NavigationEvent::Other,
    }
}

pub fn decode_key(k: KeyPress) -> (e: NavigationEvent)
    ensures
        e == binding(k),
{
    match k.code {
        Key::Char(c) => {
            if !k.plain {
                NavigationEvent::Other
            } else if c == 'q' {
                NavigationEvent::Quit
            } else if c == 'w' {
                NavigationEvent::MoveUp
            } else if c == 's' {
                NavigationEvent::MoveDown
            } else if c == 'a' {
                NavigationEvent::MoveLeft
            } else if c == 'd' {
                NavigationEvent::MoveRight
            } else {
                NavigationEvent::Other
            }
        },
        Key::Up => NavigationEvent::MoveUp,
        Key::Down => NavigationEvent::MoveDown,
        Key::Left => NavigationEvent::MoveLeft,
        Key::Right => NavigationEvent::MoveRight,
        Key::PageUp => NavigationEvent::PageUp,
        Key::PageDown => NavigationEvent::PageDown,
        Key::Home => NavigationEvent::Home,
        Key::End => NavigationEvent::End,
        Key::Other => NavigationEvent::Other,
    }
}

} // verus!
