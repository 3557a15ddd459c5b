//! Keyboard input as the terminal delivers it, and its reading as a
//! navigation direction.

use vstd::prelude::*;

verus! {

/// The key that an input event reports.
#[derive(Clone, Copy, Debug, PartialEq, Eq)]
pub enum KeyCode {
    Backspace,
    Enter,
    Left,
    Right,
    Up,
    Down,
    Home,
    End,
    PageUp,
    PageDown,
    Tab,
    BackTab,
    Delete,
    Insert,
    F(u8),
    Char(char),
    Null,
    Esc,
    CapsLock,
    ScrollLock,
    NumLock,
    PrintScreen,
    Pause,
    Menu,
    KeypadBegin,
    /// A media or a lone modifier key.
    Other,
}

/// The modifier keys held during an input event, as a set of flag bits.
#[derive(Clone, Copy, Debug, PartialEq, Eq)]
pub struct KeyModifiers {
    pub bits: u8,
}

impl KeyModifiers {
    /// No modifier held.
    pub fn empty() -> (m: KeyModifiers)
        ensures
            m.bits == 0,
    {
        KeyModifiers { bits: 0 }
    }

    pub fn shift() -> (m: KeyModifiers)
        ensures
            m.bits == 1,
    {
        KeyModifiers { bits: 1 }
    }

    pub fn control() -> (m: KeyModifiers)
        ensures
            m.bits == 2,
    {
        KeyModifiers { bits: 2 }
    }

    pub fn alt() -> (m: KeyModifiers)
        ensures
            m.bits == 4,
    {
        KeyModifiers { bits: 4 }
    }

    pub fn from_bits(bits: u8) -> (m: KeyModifiers)
        ensures
            m.bits == bits,
    {
        KeyModifiers { bits }
    }

    /// Whether no modifier is held.
    pub fn is_empty(&self) -> (b: bool)
        ensures
            b == (self.bits == 0),
    {
        self.bits == 0
    }
}

/// One key press: the key and the modifiers held with it.
#[derive(Clone, Copy, Debug, PartialEq, Eq)]
pub struct KeyEvent {
    pub code: KeyCode,
    pub modifiers: KeyModifiers,
}

impl KeyEvent {
    pub fn new(code: KeyCode, modifiers: KeyModifiers) -> (k: KeyEvent)
        ensures
            k.code == code,
            k.modifiers == modifiers,
    {
        KeyEvent { code, modifiers }
    }
}

/// A direction to move a selection in.
#[derive(Clone, Copy, Debug, PartialEq, Eq)]
pub enum NavigationKey {
    Up,
    Down,
    Left,
    Right,
}

/// The direction a key press stands for: the arrow keys whatever the
/// modifiers, and the vim keys `k`, `j`, `h`, `l` when pressed alone.
pub open spec fn navigation_of(key: KeyEvent) -> Option<NavigationKey> {
    match key.code {
        KeyCode::Up => Some(NavigationKey::Up),
        KeyCode::Down => Some(NavigationKey::Down),
        KeyCode::Left => Some(NavigationKey::Left),
        KeyCode::Right => Some(NavigationKey::Right),
        KeyCode::Char(c) => if key.modifiers.bits != 0 {
            None
        } else if c == 'k' {
            Some(NavigationKey::Up)
        } else if c == 'j' {
            Some(NavigationKey::Down)
        } else if c == 'h' {
            Some(NavigationKey::Left)
        } else if c == 'l' {
            Some(NavigationKey::Right)
        } else {
            None
        },
        _ => None,
    }
}

impl NavigationKey {
    /// Reads a key press as a navigation direction.
    pub fn from_event(key: &KeyEvent) -> (r: Option<NavigationKey>)
        ensures
            r == navigation_of(*key),
    {
        match key.code {
            KeyCode::Up => Some(NavigationKey::Up),
            KeyCode::Down => Some(NavigationKey::Down),
            KeyCode::Left => Some(NavigationKey::Left),
            KeyCode::Right => Some(NavigationKey::Right),
            KeyCode::Char(c) => {
                if !key.modifiers.is_empty() {
                    None
                } else if c == 'k' {
                    Some(NavigationKey::Up)
                } else if c == 'j' {
                    Some(NavigationKey::Down)
                } else if c == 'h' {
                    Some(NavigationKey::Left)
                } else if c == 'l' {
                    Some(NavigationKey::Right)
                } else {
                    None
                }
            },
            _ => None,
        }
    }
}

/// A character key pressed with any modifier held never navigates.
pub proof fn lemma_modified_characters_do_not_navigate(key: KeyEvent)
    requires
        key.code is Char,
        key.modifiers.bits != 0,
    ensures
        navigation_of(key) is None,
{
}

/// The arrow keys navigate in their own direction whatever modifiers are held.
pub proof fn lemma_arrows_navigate(key: KeyEvent)
    ensures
        key.code == KeyCode::Up ==> navigation_of(key) == Some(NavigationKey::Up),
        key.code == KeyCode::Down ==> navigation_of(key) == Some(NavigationKey::Down),
        key.code == KeyCode::Left ==> navigation_of(key) == Some(NavigationKey::Left),
        key.code == KeyCode::Right ==> navigation_of(key) == Some(NavigationKey::Right),
{
}

/// Every direction is reached by exactly one vim key pressed alone, besides its arrow.
pub proof fn lemma_navigation_keys_cover_directions(key: KeyEvent)
    requires
        navigation_of(key) is Some,
    ensures
        key.code is Up || key.code is Down || key.code is Left || key.code is Right || (
        key.code is Char && key.modifiers.bits == 0),
        key.code is Up || key.code is Down || key.code is Left || key.code is Right || (
        key.modifiers.bits == 0 && (key.code == KeyCode::Char('k') || key.code == KeyCode::Char(
            'j',
        ) || key.code == KeyCode::Char('h') || key.code == KeyCode::Char('l'))),
{
}

/// Each vim key pressed alone moves in its own direction: `k` up, `j` down,
/// `h` left, `l` right.
pub proof fn lemma_vim_keys_navigate(key: KeyEvent)
    requires
        key.modifiers.bits == 0,
    ensures
        key.code == KeyCode::Char('k') ==> navigation_of(key) == Some(NavigationKey::Up),
        key.code == KeyCode::Char('j') ==> navigation_of(key) == Some(NavigationKey::Down),
        key.code == KeyCode::Char('h') ==> navigation_of(key) == Some(NavigationKey::Left),
        key.code == KeyCode::Char('l') ==> navigation_of(key) == Some(NavigationKey::Right),
{
}

} // verus!
