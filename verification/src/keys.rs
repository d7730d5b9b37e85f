//! Key codes, modifier sets and key bindings as plain values.
//!
//! Terminal input is converted into these types at the edge of the program;
//! everything the keymap decides is decided over them.

use vstd::prelude::*;

verus! {

/// A key on the keyboard, independent of modifiers.
#[derive(Clone, Copy, Debug, PartialEq, Eq, Structural)]
pub enum KeyCode {
    Backspace,
    Enter,
    Left,
    Right,
    Up,
    Down,
    Home,
    End,
    PageUp,
    PageDown,
    Tab,
    BackTab,
    Delete,
    Insert,
    F(u8),
    Char(char),
    Null,
    Esc,
}

/// The modifier keys held while a key is pressed.
#[derive(Clone, Copy, Debug, PartialEq, Eq, Structural)]
pub struct KeyModifiers {
    pub shift: bool,
    pub control: bool,
    pub alt: bool,
    pub super_key: bool,
    pub hyper: bool,
    pub meta: bool,
}

/// Whether an event reports a press, an auto-repeat or a release.
#[derive(Clone, Copy, Debug, PartialEq, Eq, Structural)]
pub enum KeyEventKind {
    Press,
    Repeat,
    Release,
}

/// One key event as the input handlers receive it.
#[derive(Clone, Copy, Debug, PartialEq, Eq, Structural)]
pub struct KeyEvent {
    pub code: KeyCode,
    pub modifiers: KeyModifiers,
    pub kind: KeyEventKind,
}

/// A key together with the exact modifier set that triggers an action.
#[derive(Clone, Copy, Debug, PartialEq, Eq, Structural)]
pub struct KeyBinding {
    pub key: KeyCode,
    pub modifiers: KeyModifiers,
}

pub open spec fn no_modifiers() -> KeyModifiers {
    KeyModifiers { shift: false, control: false, alt: false, super_key: false, hyper: false, meta: false }
}

impl KeyModifiers {
    /// No modifier held.
    pub fn none() -> (m: KeyModifiers)
        ensures
            m == no_modifiers(),
    {
        KeyModifiers { shift: false, control: false, alt: false, super_key: false, hyper: false, meta: false }
    }

    /// Only Shift held.
    pub fn shift_only() -> (m: KeyModifiers)
        ensures
            m == (KeyModifiers { shift: true, ..no_modifiers() }),
    {
        KeyModifiers { shift: true, ..KeyModifiers::none() }
    }

    /// Only Control held.
    pub fn control_only() -> (m: KeyModifiers)
        ensures
            m == (KeyModifiers { control: true, ..no_modifiers() }),
    {
        KeyModifiers { control: true, ..KeyModifiers::none() }
    }

    /// Only Alt held.
    pub fn alt_only() -> (m: KeyModifiers)
        ensures
            m == (KeyModifiers { alt: true, ..no_modifiers() }),
    {
        KeyModifiers { alt: true, ..KeyModifiers::none() }
    }

    /// Whether no modifier at all is held.
    pub fn is_empty(&self) -> (r: bool)
        ensures
            r == (*self == no_modifiers()),
    {
        !self.shift && !self.control && !self.alt && !self.super_key && !self.hyper && !self.meta
    }
}

/// The character a terminal reports for Ctrl together with one of the legacy
/// control-byte aliases (`ctrl-\`, `ctrl-]`, `ctrl-^` arrive as `ctrl-4`,
/// `ctrl-5`, `ctrl-6`).
pub open spec fn control_alias_char(c: char) -> char {
    if c == '\\' {
        '4'
    } else if c == ']' {
        '5'
    } else if c == '^' {
        '6'
    } else {
        c
    }
}

/// The key identity used when two bindings are compared for conflicts.
pub open spec fn normalized_key(b: KeyBinding) -> KeyBinding {
    match b.key {
        KeyCode::Char(c) => if b.modifiers.control {
            KeyBinding { key: KeyCode::Char(control_alias_char(c)), modifiers: b.modifiers }
        } else {
            b
        },
        _ => b,
    }
}

pub open spec fn binding_of(key: KeyCode, modifiers: KeyModifiers) -> KeyBinding {
    KeyBinding { key, modifiers }
}

/// Whether the event triggers the binding.
pub open spec fn binding_pressed(b: KeyBinding, event: KeyEvent) -> bool {
    event.kind != KeyEventKind::Release && event.code == b.key && event.modifiers == b.modifiers
}

/// Whether the event triggers any binding of the list.
pub open spec fn any_pressed(bindings: Seq<KeyBinding>, event: KeyEvent) -> bool {
    exists|i: int| 0 <= i < bindings.len() && binding_pressed(#[trigger] bindings[i], event)
}

impl KeyBinding {
    pub fn new(key: KeyCode, modifiers: KeyModifiers) -> (b: KeyBinding)
        ensures
            b == binding_of(key, modifiers),
    {
        KeyBinding { key, modifiers }
    }

    /// The key and modifier set of the binding.
    pub fn parts(&self) -> (r: (KeyCode, KeyModifiers))
        ensures
            r == (self.key, self.modifiers),
    {
        (self.key, self.modifiers)
    }

    /// The key identity after folding legacy control-byte aliases together.
    pub fn normalized(&self) -> (r: KeyBinding)
        ensures
            r == normalized_key(*self),
    {
        match self.key {
            KeyCode::Char(c) => {
                if self.modifiers.control {
                    let folded = if c == '\\' {
                        '4'
                    } else if c == ']' {
                        '5'
                    } else if c == '^' {
                        '6'
                    } else {
                        c
                    };
                    KeyBinding { key: KeyCode::Char(folded), modifiers: self.modifiers }
                } else {
                    *self
                }
            },
            _ => *self,
        }
    }

    /// Whether `event` triggers this binding.
    pub fn is_press(&self, event: KeyEvent) -> (r: bool)
        ensures
            r == binding_pressed(*self, event),
    {
        !matches!(event.kind, KeyEventKind::Release) && event.code == self.key && event.modifiers
            == self.modifiers
    }
}

/// Whether any binding of `bindings` is triggered by `event`.
pub fn is_pressed(bindings: &[KeyBinding], event: KeyEvent) -> (r: bool)
    ensures
        r == any_pressed(bindings@, event),
{
    let mut i: usize = 0;
    while i < bindings.len()
        invariant
            0 <= i <= bindings@.len(),
            forall|j: int| 0 <= j < i ==> !binding_pressed(#[trigger] bindings@[j], event),
        decreases bindings@.len() - i,
    {
        if bindings[i].is_press(event) {
            return true;
        }
        i = i + 1;
    }
    false
}

/// A binding without modifiers.
pub fn plain(key: KeyCode) -> (b: KeyBinding)
    ensures
        b == binding_of(key, no_modifiers()),
{
    KeyBinding::new(key, KeyModifiers::none())
}

/// A binding with Control held.
pub fn ctrl(key: KeyCode) -> (b: KeyBinding)
    ensures
        b == binding_of(key, KeyModifiers { control: true, ..no_modifiers() }),
{
    KeyBinding::new(key, KeyModifiers::control_only())
}

/// A binding with Alt held.
pub fn alt(key: KeyCode) -> (b: KeyBinding)
    ensures
        b == binding_of(key, KeyModifiers { alt: true, ..no_modifiers() }),
{
    KeyBinding::new(key, KeyModifiers::alt_only())
}

/// A binding with Shift held.
pub fn shift(key: KeyCode) -> (b: KeyBinding)
    ensures
        b == binding_of(key, KeyModifiers { shift: true, ..no_modifiers() }),
{
    KeyBinding::new(key, KeyModifiers::shift_only())
}

/// A binding with Control and Alt held.
pub fn ctrl_alt(key: KeyCode) -> (b: KeyBinding)
    ensures
        b == binding_of(key, KeyModifiers { control: true, alt: true, ..no_modifiers() }),
{
    KeyBinding::new(key, KeyModifiers { control: true, alt: true, ..KeyModifiers::none() })
}

/// A binding with Control and Shift held.
pub fn ctrl_shift(key: KeyCode) -> (b: KeyBinding)
    ensures
        b == binding_of(key, KeyModifiers { control: true, shift: true, ..no_modifiers() }),
{
    KeyBinding::new(key, KeyModifiers { control: true, shift: true, ..KeyModifiers::none() })
}

/// Whether the modifier set is the AltGr combination used for typing
/// characters. Only Windows terminals report AltGr as Control+Alt; on the
/// Unix terminals this library targets no modifier set is AltGr.
pub open spec fn altgr(modifiers: KeyModifiers) -> bool {
    false
}

/// Whether the modifier set is AltGr (see `altgr`).
pub fn is_altgr(modifiers: KeyModifiers) -> (r: bool)
    ensures
        r == altgr(modifiers),
{
    false
}

/// Whether an event types text: a character with no modifier or with Shift only.
pub open spec fn plain_text_event(event: KeyEvent) -> bool {
    &&& event.kind != KeyEventKind::Release
    &&& event.code is Char
    &&& (event.modifiers == no_modifiers() || event.modifiers == KeyModifiers {
        shift: true,
        ..no_modifiers()
    })
}

/// Whether an event types text.
pub fn is_plain_text_key_event(event: KeyEvent) -> (r: bool)
    ensures
        r == plain_text_event(event),
{
    !matches!(event.kind, KeyEventKind::Release) && matches!(event.code, KeyCode::Char(_)) && (
    event.modifiers.is_empty() || event.modifiers == KeyModifiers::shift_only())
}

} // verus!
