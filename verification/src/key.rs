//! Key presses as the core sees them, and the keys that end the program.

use vstd::prelude::*;

verus! {

/// The base key of a key press.
#[derive(Clone, Copy, Debug, PartialEq, Eq, Structural)]
pub enum KeyCode {
    /// A character key, as the terminal reports it.
    Char(char),
    Esc,
    Enter,
    Backspace,
    Tab,
    Left,
    Right,
    Up,
    Down,
    /// A function key with its number.
    F(u8),
    /// Any key that has no name above.
    Other,
}

/// The modifier keys held down during a key press.
#[derive(Clone, Copy, Debug, PartialEq, Eq, Structural)]
pub struct Modifiers {
    pub shift: bool,
    pub control: bool,
    pub alt: bool,
    /// The super, hyper or meta key.
    pub logo: bool,
}

impl Modifiers {
    /// No modifier key is held.
    pub open spec fn is_none(self) -> bool {
        !self.shift && !self.control && !self.alt && !self.logo
    }

    /// Control is held and no other modifier key.
    pub open spec fn is_control_only(self) -> bool {
        self.control && !self.shift && !self.alt && !self.logo
    }

    /// The empty set of modifier keys.
    pub fn none() -> (m: Modifiers)
        ensures
            m == (Modifiers { shift: false, control: false, alt: false, logo: false }),
            m.is_none(),
    {
        Modifiers { shift: false, control: false, alt: false, logo: false }
    }

    /// The set that holds control alone.
    pub fn control() -> (m: Modifiers)
        ensures
            m == (Modifiers { shift: false, control: true, alt: false, logo: false }),
            m.is_control_only(),
    {
        Modifiers { shift: false, control: true, alt: false, logo: false }
    }
}

/// One key press: a base key and the modifier keys held with it.
#[derive(Clone, Copy, Debug, PartialEq, Eq, Structural)]
pub struct Key {
    pub code: KeyCode,
    pub modifiers: Modifiers,
}

/// The keys that end the program: escape, `q` or `Q` with no modifier key,
/// and `c` or `C` with control alone.
pub open spec fn is_quit(key: Key) -> bool {
    ||| key.modifiers.is_none() && (key.code == KeyCode::Esc || key.code == KeyCode::Char('q')
        || key.code == KeyCode::Char('Q'))
    ||| key.modifiers.is_control_only() && (key.code == KeyCode::Char('c') || key.code
        == KeyCode::Char('C'))
}

impl Key {
    /// A key press with no modifier key.
    pub fn plain(code: KeyCode) -> (key: Key)
        ensures
            key.code == code,
            key.modifiers.is_none(),
    {
        Key { code, modifiers: Modifiers::none() }
    }

    /// A key press with control alone.
    pub fn ctrl(code: KeyCode) -> (key: Key)
        ensures
            key.code == code,
            key.modifiers.is_control_only(),
    {
        Key { code, modifiers: Modifiers::control() }
    }

    /// Whether this key press asks the program to end.
    pub fn quits(&self) -> (quit: bool)
        ensures
            quit == is_quit(*self),
    {
        let m = self.modifiers;
        let bare = !m.shift && !m.control && !m.alt && !m.logo;
        let control_only = m.control && !m.shift && !m.alt && !m.logo;
        match self.code {
            KeyCode::Esc => bare,
            KeyCode::Char(c) => (bare && (c == 'q' || c == 'Q')) || (control_only && (c == 'c'
                || c == 'C')),
            _ => false,
        }
    }
}

} // verus!
