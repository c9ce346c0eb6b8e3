//! Input events as the backend delivers them: keys, mouse actions, pastes,
//! resizes and focus changes.
use vstd::prelude::*;

verus! {

/// A modifier key pressed on its own
#[derive(Debug, Clone, Copy, PartialEq, Eq, Structural)]
pub enum ModKeyCode {
    Shift,
    Ctrl,
    Alt,
    /// Meta, Windows or Super key
    Super,
    Unknown,
}

/// A key
#[derive(Debug, Clone, Copy, PartialEq, Eq, Structural)]
pub enum KeyCode {
    Backspace,
    Enter,
    Tab,
    BackTab,
    Delete,
    Left,
    Right,
    Up,
    Down,
    Home,
    End,
    PageUp,
    PageDown,
    Insert,
    Esc,
    CapsLock,
    ScrollLock,
    NumLock,
    PrintScreen,
    Pause,
    Menu,
    KeypadBegin,
    /// No key
    Null,
    Unknown,
    Char(char),
    F(u8),
    Mod(ModKeyCode),
}

/// Modifiers held with a key or a mouse action; `Any` matches every set
#[derive(Debug, Clone, Copy)]
pub enum KeyMod {
    Any,
    Plain,
    Shift,
    Ctrl,
    Alt,
    ShiftCtrl,
    ShiftAlt,
    ShiftCtrlAlt,
    CtrlAlt,
}

/// The modifiers as `(shift, ctrl, alt)`; `Any` and `Plain` hold none.
pub open spec fn mod_flags(m: KeyMod) -> (bool, bool, bool) {
    match m {
        KeyMod::Shift => (true, false, false),
        KeyMod::Ctrl => (false, true, false),
        KeyMod::Alt => (false, false, true),
        KeyMod::ShiftCtrl => (true, true, false),
        KeyMod::ShiftAlt => (true, false, true),
        KeyMod::ShiftCtrlAlt => (true, true, true),
        KeyMod::CtrlAlt => (false, true, true),
        KeyMod::Plain => (false, false, false),
        KeyMod::Any => (false, false, false),
    }
}

/// Two modifier sets match when either is `Any` or both are the same set.
pub open spec fn mods_match(a: KeyMod, b: KeyMod) -> bool {
    a is Any || b is Any || (!(a is Plain) && !(b is Plain) && mod_flags(a) == mod_flags(b)) || (
    a is Plain && b is Plain)
}

impl KeyMod {
    /// The modifiers as `(shift, ctrl, alt)`
    pub fn tuple(&self) -> (r: (bool, bool, bool))
        ensures
            r == mod_flags(*self),
    {
        match self {
            KeyMod::Shift => (true, false, false),
            KeyMod::Ctrl => (false, true, false),
            KeyMod::Alt => (false, false, true),
            KeyMod::ShiftCtrl => (true, true, false),
            KeyMod::ShiftAlt => (true, false, true),
            KeyMod::ShiftCtrlAlt => (true, true, true),
            KeyMod::CtrlAlt => (false, true, true),
            KeyMod::Plain => (false, false, false),
            KeyMod::Any => (false, false, false),
        }
    }
}

impl Default for KeyMod {
    fn default() -> (r: Self)
        ensures
            r is Any,
    {
        KeyMod::Any
    }
}

impl PartialEq for KeyMod {
    /// Equal when either side is `Any`, else when both are the same set
    fn eq(&self, other: &KeyMod) -> (r: bool) {
        match (self, other) {
            (KeyMod::Any, _) => true,
            (_, KeyMod::Any) => true,
            (KeyMod::Plain, KeyMod::Plain) => true,
            (KeyMod::Plain, _) => false,
            (_, KeyMod::Plain) => false,
            _ => {
                let a = self.tuple();
                let b = other.tuple();
                a.0 == b.0 && a.1 == b.1 && a.2 == b.2
            },
        }
    }
}

impl vstd::std_specs::cmp::PartialEqSpecImpl for KeyMod {
    open spec fn obeys_eq_spec() -> bool {
        true
    }

    open spec fn eq_spec(&self, other: &KeyMod) -> bool {
        mods_match(*self, *other)
    }
}

impl From<(bool, bool, bool)> for KeyMod {
    /// The modifier set of `(shift, ctrl, alt)`
    fn from(v: (bool, bool, bool)) -> Self {
        match v {
            (true, false, false) => KeyMod::Shift,
            (false, true, false) => KeyMod::Ctrl,
            (false, false, true) => KeyMod::Alt,
            (true, true, false) => KeyMod::ShiftCtrl,
            (true, false, true) => KeyMod::ShiftAlt,
            (true, true, true) => KeyMod::ShiftCtrlAlt,
            (false, true, true) => KeyMod::CtrlAlt,
            (false, false, false) => KeyMod::Plain,
        }
    }
}

impl vstd::std_specs::convert::FromSpecImpl<(bool, bool, bool)> for KeyMod {
    open spec fn obeys_from_spec() -> bool {
        true
    }

    open spec fn from_spec(v: (bool, bool, bool)) -> Self {
        if v == (true, false, false) { KeyMod::Shift }
        else if v == (false, true, false) { KeyMod::Ctrl }
        else if v == (false, false, true) { KeyMod::Alt }
        else if v == (true, true, false) { KeyMod::ShiftCtrl }
        else if v == (true, false, true) { KeyMod::ShiftAlt }
        else if v == (true, true, true) { KeyMod::ShiftCtrlAlt }
        else if v == (false, true, true) { KeyMod::CtrlAlt }
        else { KeyMod::Plain }
    }
}

/// A key with its modifiers
#[derive(Debug, Clone, Copy)]
pub struct Key(pub KeyMod, pub KeyCode);

impl Key {
    /// The modifiers
    pub fn key_mod(self) -> (r: KeyMod)
        ensures
            r == self.0,
    {
        self.0
    }

    /// The key code
    pub fn code(self) -> (r: KeyCode)
        ensures
            r == self.1,
    {
        self.1
    }
}

/// Mouse button
#[derive(Debug, Clone, Copy, PartialEq, Eq, Structural)]
pub enum MouseBtn {
    Left,
    Middle,
    Right,
}

/// A mouse action with its modifiers and position
#[derive(Debug, Clone, Copy)]
pub enum Mouse {
    /// Press
    Down(KeyMod, MouseBtn, u16, u16),
    /// Release
    Up(KeyMod, MouseBtn, u16, u16),
    /// Press and move
    Drag(KeyMod, MouseBtn, u16, u16),
    /// Move
    Move(KeyMod, u16, u16),
    ScrollUp(KeyMod, u16, u16),
    ScrollDown(KeyMod, u16, u16),
    ScrollLeft(KeyMod, u16, u16),
    ScrollRight(KeyMod, u16, u16),
    Unknown,
}

impl Mouse {
    /// The button, for presses, releases and drags
    pub fn btn(self) -> (r: Option<MouseBtn>)
        ensures
            r == (match self {
                Mouse::Down(_, b, _, _) | Mouse::Up(_, b, _, _) | Mouse::Drag(_, b, _, _) => Some(b),
                _ => None,
            }),
    {
        match self {
            Mouse::Down(_, b, _, _) => Some(b),
            Mouse::Up(_, b, _, _) => Some(b),
            Mouse::Drag(_, b, _, _) => Some(b),
            _ => None,
        }
    }

    /// The modifiers, for every known action
    pub fn key_mod(self) -> (r: Option<KeyMod>)
        ensures
            r == (match self {
                Mouse::Down(m, _, _, _) | Mouse::Up(m, _, _, _) | Mouse::Drag(m, _, _, _) => Some(m),
                Mouse::Move(m, _, _) | Mouse::ScrollUp(m, _, _) | Mouse::ScrollDown(m, _, _)
                | Mouse::ScrollLeft(m, _, _) | Mouse::ScrollRight(m, _, _) => Some(m),
                Mouse::Unknown => None,
            }),
    {
        match self {
            Mouse::Down(m, _, _, _) => Some(m),
            Mouse::Up(m, _, _, _) => Some(m),
            Mouse::Drag(m, _, _, _) => Some(m),
            Mouse::Move(m, _, _) => Some(m),
            Mouse::ScrollUp(m, _, _) => Some(m),
            Mouse::ScrollDown(m, _, _) => Some(m),
            Mouse::ScrollLeft(m, _, _) => Some(m),
            Mouse::ScrollRight(m, _, _) => Some(m),
            Mouse::Unknown => None,
        }
    }

    /// The position `(x, y)`, for every known action
    pub fn pos(self) -> (r: Option<(u16, u16)>)
        ensures
            r == (match self {
                Mouse::Down(_, _, x, y) | Mouse::Up(_, _, x, y) | Mouse::Drag(_, _, x, y) => Some((x, y)),
                Mouse::Move(_, x, y) | Mouse::ScrollUp(_, x, y) | Mouse::ScrollDown(_, x, y)
                | Mouse::ScrollLeft(_, x, y) | Mouse::ScrollRight(_, x, y) => Some((x, y)),
                Mouse::Unknown => None,
            }),
    {
        match self {
            Mouse::Down(_, _, x, y) => Some((x, y)),
            Mouse::Up(_, _, x, y) => Some((x, y)),
            Mouse::Drag(_, _, x, y) => Some((x, y)),
            Mouse::Move(_, x, y) => Some((x, y)),
            Mouse::ScrollUp(_, x, y) => Some((x, y)),
            Mouse::ScrollDown(_, x, y) => Some((x, y)),
            Mouse::ScrollLeft(_, x, y) => Some((x, y)),
            Mouse::ScrollRight(_, x, y) => Some((x, y)),
            Mouse::Unknown => None,
        }
    }
}

/// An input event
#[derive(Debug, Clone)]
pub enum Event {
    Key(Key, KeyCode),
    Mouse(Mouse, u16, u16),
    Paste(String),
    Resize(u16, u16),
    /// Focus gained
    Focus,
    /// Focus lost
    Blur,
    Unknown,
}

} // verus!
