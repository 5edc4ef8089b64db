//! Terminal events as plain values: what the event source hands to the
//! message bus after decoding the terminal driver's input.

use vstd::prelude::*;

verus! {

/// The set of modifier keys held down during an event, one bit each.
#[derive(Debug, Clone, Copy, PartialEq, Eq, Structural)]
pub struct KeyModifiers {
    pub bits: u8,
}

/// No modifier.
pub const MODIFIER_NONE: u8 = 0;

/// The shift key.
pub const MODIFIER_SHIFT: u8 = 1;

/// The control key.
pub const MODIFIER_CONTROL: u8 = 2;

/// The alt key.
pub const MODIFIER_ALT: u8 = 4;

impl KeyModifiers {
    /// The modifier set with exactly the given bits.
    pub fn from_bits(bits: u8) -> (m: KeyModifiers)
        ensures
            m.bits == bits,
    {
        KeyModifiers { bits }
    }

    /// The empty modifier set.
    pub fn none() -> (m: KeyModifiers)
        ensures
            m.bits == MODIFIER_NONE,
    {
        KeyModifiers { bits: MODIFIER_NONE }
    }

    /// The modifier set that holds the control key alone.
    pub fn control() -> (m: KeyModifiers)
        ensures
            m.bits == MODIFIER_CONTROL,
    {
        KeyModifiers { bits: MODIFIER_CONTROL }
    }

    /// Whether this set is the control key and nothing else.
    pub open spec fn is_control_only(self) -> bool {
        self.bits == MODIFIER_CONTROL
    }
}

/// The key that was pressed.
#[derive(Debug, Clone, Copy, PartialEq, Eq, Structural)]
pub enum KeyCode {
    Backspace,
    Enter,
    Left,
    Right,
    Up,
    Down,
    Home,
    End,
    PageUp,
    PageDown,
    Tab,
    BackTab,
    Delete,
    Insert,
    /// A function key: `F(1)` is F1.
    F(u8),
    /// A character key.
    Char(char),
    Null,
    Esc,
}

/// A key press with the modifiers held at the time.
#[derive(Debug, Clone, Copy, PartialEq, Eq, Structural)]
pub struct KeyEvent {
    pub code: KeyCode,
    pub modifiers: KeyModifiers,
}

impl KeyEvent {
    /// A key press of `code` with `modifiers` held.
    pub fn new(code: KeyCode, modifiers: KeyModifiers) -> (ev: KeyEvent)
        ensures
            ev.code == code,
            ev.modifiers == modifiers,
    {
        KeyEvent { code, modifiers }
    }

    /// A key press of `code` with no modifier held.
    pub fn plain(code: KeyCode) -> (ev: KeyEvent)
        ensures
            ev.code == code,
            ev.modifiers.bits == MODIFIER_NONE,
    {
        KeyEvent { code, modifiers: KeyModifiers::none() }
    }
}

/// A pointer button.
#[derive(Debug, Clone, Copy, PartialEq, Eq, Structural)]
pub enum MouseButton {
    Left,
    Right,
    Middle,
}

/// What the pointer did.
#[derive(Debug, Clone, Copy, PartialEq, Eq, Structural)]
pub enum MouseEventKind {
    Down(MouseButton),
    Up(MouseButton),
    Drag(MouseButton),
    Moved,
    ScrollDown,
    ScrollUp,
}

/// A pointer action at a cell of the terminal.
#[derive(Debug, Clone, Copy, PartialEq, Eq, Structural)]
pub struct MouseEvent {
    pub kind: MouseEventKind,
    pub column: u16,
    pub row: u16,
    pub modifiers: KeyModifiers,
}

/// A terminal resize: the new number of columns, then of rows.
#[derive(Debug, Clone, Copy, PartialEq, Eq, Structural)]
pub struct ResizeEvent(pub u16, pub u16);

} // verus!
