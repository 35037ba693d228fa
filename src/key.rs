use vstd::prelude::*;

verus! {

/// The physical key of a key press, without its modifiers.
#[derive(Clone, Copy, PartialEq, Eq, Structural, Debug, Hash)]
pub enum KeyCode {
    Char(char),
    Enter,
    Esc,
    Tab,
    Backspace,
    Delete,
    Left,
    Right,
    Up,
    Down,
    Home,
    End,
    PageUp,
    PageDown,
}

/// Modifier flags held down during a key press.
#[derive(Clone, Copy, PartialEq, Eq, Structural, Debug, Hash)]
pub struct KeyModifiers {
    pub ctrl: bool,
    pub alt: bool,
    pub shift: bool,
}

/// One decoded key press. Two events are the same trie edge iff they are equal field by field.
#[derive(Clone, Copy, PartialEq, Eq, Structural, Debug, Hash)]
pub struct KeyEvent {
    pub code: KeyCode,
    pub modifiers: KeyModifiers,
}

pub open spec fn no_modifiers() -> KeyModifiers {
    KeyModifiers { ctrl: false, alt: false, shift: false }
}

/// The escape key with no modifiers: the resolver's cancel key.
pub open spec fn escape_key() -> KeyEvent {
    KeyEvent { code: KeyCode::Esc, modifiers: no_modifiers() }
}

/// The decimal value of a digit key pressed without modifiers.
pub open spec fn digit_of(k: KeyEvent) -> Option<nat> {
    if k.modifiers == no_modifiers() {
        match k.code {
            KeyCode::Char(c) => if '0' <= c && c <= '9' {
                Some((c as nat - '0' as nat) as nat)
            } else {
                None
            },
            _ => None,
        }
    } else {
        None
    }
}

impl KeyEvent {
    /// A key pressed with the given modifiers.
    pub fn new(code: KeyCode, ctrl: bool, alt: bool, shift: bool) -> (r: KeyEvent)
        ensures
            r.code == code,
            r.modifiers == (KeyModifiers { ctrl, alt, shift }),
    {
        KeyEvent { code, modifiers: KeyModifiers { ctrl, alt, shift } }
    }

    /// A key pressed alone.
    pub fn key(code: KeyCode) -> (r: KeyEvent)
        ensures
            r.code == code,
            r.modifiers == no_modifiers(),
    {
        KeyEvent::new(code, false, false, false)
    }

    /// A character key pressed alone.
    pub fn ch(c: char) -> (r: KeyEvent)
        ensures
            r.code == KeyCode::Char(c),
            r.modifiers == no_modifiers(),
    {
        KeyEvent::key(KeyCode::Char(c))
    }

    /// A character key pressed with control.
    pub fn ctrl(c: char) -> (r: KeyEvent)
        ensures
            r.code == KeyCode::Char(c),
            r.modifiers == (KeyModifiers { ctrl: true, alt: false, shift: false }),
    {
        KeyEvent::new(KeyCode::Char(c), true, false, false)
    }

    /// A key pressed with alt.
    pub fn alt(code: KeyCode) -> (r: KeyEvent)
        ensures
            r.code == code,
            r.modifiers == (KeyModifiers { ctrl: false, alt: true, shift: false }),
    {
        KeyEvent::new(code, false, true, false)
    }

    /// A key pressed with shift.
    pub fn shift(code: KeyCode) -> (r: KeyEvent)
        ensures
            r.code == code,
            r.modifiers == (KeyModifiers { ctrl: false, alt: false, shift: true }),
    {
        KeyEvent::new(code, false, false, true)
    }

    /// Whether this is the escape key with no modifiers.
    pub fn is_escape(&self) -> (r: bool)
        ensures
            r == (*self == escape_key()),
    {
        match self.code {
            KeyCode::Esc => !self.modifiers.ctrl && !self.modifiers.alt && !self.modifiers.shift,
            _ => false,
        }
    }

    /// The value of a digit key pressed without modifiers.
    pub fn digit(&self) -> (r: Option<u8>)
        ensures
            match r {
                Some(d) => digit_of(*self) == Some(d as nat),
                None => digit_of(*self) is None,
            },
    {
        if self.modifiers.ctrl || self.modifiers.alt || self.modifiers.shift {
            return None;
        }
        match self.code {
            KeyCode::Char(c) => {
                if '0' <= c && c <= '9' {
                    Some((c as u32 - '0' as u32) as u8)
                } else {
                    None
                }
            },
            _ => None,
        }
    }
}

} // verus!
