//! The input of a session as plain values: keys, modifiers, resizes.

use crate::editor::terminal::Size;
use vstd::prelude::*;

verus! {

/// The key of a key event, as far as the editor tells keys apart.
#[derive(Clone, Copy, Debug, PartialEq, Eq, Structural)]
pub enum KeyCode {
    Up,
    Down,
    Left,
    Right,
    PageUp,
    PageDown,
    Home,
    End,
    /// A key that stands for a character.
    Char(char),
    /// Any other key.
    Other,
}

/// The modifier keys held down with a key.
#[derive(Clone, Copy, Debug, PartialEq, Eq, Structural)]
pub struct KeyModifiers {
    pub shift: bool,
    pub control: bool,
    pub alt: bool,
    pub super_key: bool,
    pub hyper: bool,
    pub meta: bool,
}

impl KeyModifiers {
    /// No modifier at all.
    pub open spec fn spec_none() -> KeyModifiers {
        KeyModifiers {
            shift: false,
            control: false,
            alt: false,
            super_key: false,
            hyper: false,
            meta: false,
        }
    }

    /// Control and nothing else.
    pub open spec fn spec_control() -> KeyModifiers {
        KeyModifiers {
            shift: false,
            control: true,
            alt: false,
            super_key: false,
            hyper: false,
            meta: false,
        }
    }

    /// No modifier at all.
    #[verifier::when_used_as_spec(spec_none)]
    pub fn none() -> (modifiers: KeyModifiers)
        ensures
            modifiers == Self::spec_none(),
    {
        KeyModifiers {
            shift: false,
            control: false,
            alt: false,
            super_key: false,
            hyper: false,
            meta: false,
        }
    }

    /// Control and nothing else.
    #[verifier::when_used_as_spec(spec_control)]
    pub fn control() -> (modifiers: KeyModifiers)
        ensures
            modifiers == Self::spec_control(),
    {
        KeyModifiers {
            shift: false,
            control: true,
            alt: false,
            super_key: false,
            hyper: false,
            meta: false,
        }
    }
}

/// What happened to the key.
#[derive(Clone, Copy, Debug, PartialEq, Eq, Structural)]
pub enum KeyEventKind {
    Press,
    Repeat,
    Release,
}

/// One key event.
#[derive(Clone, Copy, Debug, PartialEq, Eq, Structural)]
pub struct KeyEvent {
    pub code: KeyCode,
    pub modifiers: KeyModifiers,
    pub kind: KeyEventKind,
}

/// What the host terminal reports between two refreshes.
#[derive(Clone, Copy, Debug, PartialEq, Eq, Structural)]
pub enum Event {
    /// A key event.
    Key(KeyEvent),
    /// The screen now has this many columns and rows.
    Resize(u16, u16),
    /// Anything else: focus, mouse, pasted text.
    Other,
}

/// What a blocking read of the host terminal gave.
#[derive(Clone, Copy, Debug, PartialEq, Eq, Structural)]
pub enum Input {
    /// An event, and the size that the screen had when it came.
    Event(Event, Size),
    /// The read failed.
    Failed,
}

impl KeyCode {
    /// Whether the key moves the caret.
    pub open spec fn is_navigation(self) -> bool {
        self is Up || self is Down || self is Left || self is Right || self is PageUp
            || self is PageDown || self is Home || self is End
    }
}

impl KeyEvent {
    /// Whether this is the chord that ends the session: a press of `q` with
    /// control, and no other modifier, held down.
    pub open spec fn is_quit_chord(self) -> bool {
        self.kind is Press && self.code == KeyCode::Char('q') && self.modifiers
            == KeyModifiers::spec_control()
    }
}

} // verus!
