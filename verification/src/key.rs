//! Keyboard and pointer events, independent of the terminal backend.

use vstd::prelude::*;

verus! {

/// The key that was pressed.
#[derive(Clone, Copy, Debug, PartialEq, Eq, Structural)]
pub enum KeyCode {
    Backspace,
    Char(char),
    Down,
    Enter,
    Esc,
    Left,
    Other,
    Right,
    Tab,
    Up,
}

/// Modifier keys held during a key press.
#[derive(Clone, Copy, Debug, PartialEq, Eq, Structural)]
pub struct KeyModifiers {
    pub alt: bool,
    pub control: bool,
    /// Any modifier besides the three named ones.
    pub other: bool,
    pub shift: bool,
}

impl KeyModifiers {
    /// No modifier at all.
    pub open spec fn none_spec() -> KeyModifiers {
        KeyModifiers { alt: false, control: false, other: false, shift: false }
    }

    /// Shift alone.
    pub open spec fn shift_spec() -> KeyModifiers {
        KeyModifiers { alt: false, control: false, other: false, shift: true }
    }

    /// Builds the empty modifier set.
    pub fn none() -> (modifiers: KeyModifiers)
        ensures
            modifiers == KeyModifiers::none_spec(),
    {
        KeyModifiers { alt: false, control: false, other: false, shift: false }
    }

    /// Builds the modifier set that holds shift alone.
    pub fn shift() -> (modifiers: KeyModifiers)
        ensures
            modifiers == KeyModifiers::shift_spec(),
    {
        KeyModifiers { alt: false, control: false, other: false, shift: true }
    }
}

/// Phase of a key event.
#[derive(Clone, Copy, Debug, PartialEq, Eq, Structural)]
pub enum KeyEventKind {
    Press,
    Release,
    Repeat,
}

/// One key event.
#[derive(Clone, Copy, Debug, PartialEq, Eq, Structural)]
pub struct KeyEvent {
    pub code: KeyCode,
    pub kind: KeyEventKind,
    pub modifiers: KeyModifiers,
}

impl KeyEvent {
    /// A press of `code` with `modifiers`.
    pub open spec fn press(code: KeyCode, modifiers: KeyModifiers) -> KeyEvent {
        KeyEvent { code, kind: KeyEventKind::Press, modifiers }
    }

    /// Builds a press of `code` with `modifiers`.
    pub fn new(code: KeyCode, modifiers: KeyModifiers) -> (key: KeyEvent)
        ensures
            key == KeyEvent::press(code, modifiers),
    {
        KeyEvent { code, kind: KeyEventKind::Press, modifiers }
    }
}

/// The lowercase form of an ASCII letter; other characters stay as they are.
pub open spec fn lower(c: char) -> char {
    if 'A' <= c <= 'Z' {
        ((c as u8) + 32) as char
    } else {
        c
    }
}

/// The uppercase form of an ASCII letter; other characters stay as they are.
pub open spec fn upper(c: char) -> char {
    if 'a' <= c <= 'z' {
        ((c as u8) - 32) as char
    } else {
        c
    }
}

/// Computes the lowercase form of an ASCII letter.
pub fn to_lower(c: char) -> (result: char)
    ensures
        result == lower(c),
{
    if 'A' <= c && c <= 'Z' {
        ((c as u8) + 32) as char
    } else {
        c
    }
}

/// Computes the uppercase form of an ASCII letter.
pub fn to_upper(c: char) -> (result: char)
    ensures
        result == upper(c),
{
    if 'a' <= c && c <= 'z' {
        ((c as u8) - 32) as char
    } else {
        c
    }
}

/// Whether the key is the letter `q` in either case.
pub open spec fn quit_letter(code: KeyCode) -> bool {
    code == KeyCode::Char('q') || code == KeyCode::Char('Q')
}

/// Reports whether the key is the letter `q` in either case.
pub fn is_quit_letter(code: KeyCode) -> (result: bool)
    ensures
        result == quit_letter(code),
{
    match code {
        KeyCode::Char(c) => c == 'q' || c == 'Q',
        _ => false,
    }
}

/// Whether the event is a press; the interface reacts to nothing else.
pub fn is_press_key_event(key: KeyEvent) -> (result: bool)
    ensures
        result == (key.kind == KeyEventKind::Press),
{
    matches!(key.kind, KeyEventKind::Press)
}

/// Whether the key is `character` without any modifier.
pub open spec fn plain_char(key: KeyEvent, character: char) -> bool {
    key.code == KeyCode::Char(character) && key.modifiers == KeyModifiers::none_spec()
}

/// Whether the key is `character` in either case, with shift alone.
pub open spec fn shift_char(key: KeyEvent, character: char) -> bool {
    &&& key.modifiers == KeyModifiers::shift_spec()
    &&& key.code == KeyCode::Char(lower(character)) || key.code == KeyCode::Char(upper(character))
}

/// Reports whether the key is `character` without any modifier.
pub fn is_plain_char_key(key: KeyEvent, character: char) -> (result: bool)
    ensures
        result == plain_char(key, character),
{
    key.code == KeyCode::Char(character) && key.modifiers == KeyModifiers::none()
}

/// Reports whether the key is a shifted `character`; terminals report its
/// letter in either case.
pub fn is_shift_char_key(key: KeyEvent, character: char) -> (result: bool)
    ensures
        result == shift_char(key, character),
{
    let lowercase: char = to_lower(character);
    let uppercase: char = to_upper(character);
    key.modifiers == KeyModifiers::shift() && match key.code {
        KeyCode::Char(pressed) => pressed == lowercase || pressed == uppercase,
        _ => false,
    }
}

/// Mouse buttons.
#[derive(Clone, Copy, Debug, PartialEq, Eq, Structural)]
pub enum MouseButton {
    Left,
    Middle,
    Right,
}

/// What the pointer did.
#[derive(Clone, Copy, Debug, PartialEq, Eq, Structural)]
pub enum MouseEventKind {
    Down(MouseButton),
    Drag(MouseButton),
    Moved,
    ScrollDown,
    ScrollLeft,
    ScrollRight,
    ScrollUp,
    Up(MouseButton),
}

/// One pointer event at a terminal cell.
#[derive(Clone, Copy, Debug, PartialEq, Eq, Structural)]
pub struct MouseEvent {
    pub column: u16,
    pub kind: MouseEventKind,
    pub row: u16,
}

} // verus!
