//! Key presses as plain values, and the meaning each one has before the
//! focus zone and the overlay are taken into account.
use vstd::prelude::*;

verus! {

/// The key that was pressed.
#[derive(Debug, Clone, Copy, PartialEq, Eq, Structural)]
pub enum KeyCode {
    Char(char),
    Up,
    Down,
    Enter,
    Tab,
    Esc,
    /// Any key that no binding names.
    Other,
}

/// The modifier keys held down, one bit each: shift 1, control 2, alt 4,
/// super 8, hyper 16, meta 32.
#[derive(Debug, Clone, Copy, PartialEq, Eq, Structural)]
pub struct KeyModifiers {
    pub bits: u8,
}

/// No modifier held.
pub const NO_MODIFIERS: u8 = 0;

/// Control alone.
pub const CONTROL: u8 = 2;

/// Whether a key went down, repeated, or came up.
#[derive(Debug, Clone, Copy, PartialEq, Eq, Structural)]
pub enum KeyEventKind {
    Press,
    Repeat,
    Release,
}

/// A key event from the terminal.
#[derive(Debug, Clone, Copy, PartialEq, Eq, Structural)]
pub struct KeyEvent {
    pub code: KeyCode,
    pub modifiers: KeyModifiers,
    pub kind: KeyEventKind,
}

/// What a key asks for, before the focus zone and overlay are considered.
#[derive(Debug, Clone, Copy, PartialEq, Eq, Structural)]
pub enum Input {
    ScrollUp,
    ScrollDown,
    ChangeWindowUp,
    ChangeWindowDown,
    Back,
    Quit,
    Submit,
    Toggle,
    ToggleLlmOptions,
    Unbound,
}

/// The binding table: the first row that matches the key decides.
pub open spec fn input_of(code: KeyCode, bits: u8) -> Input {
    if (code == KeyCode::Char('q') || code == KeyCode::Char('c')) && bits == CONTROL {
        Input::Quit
    } else if (code == KeyCode::Up || code == KeyCode::Char('k')) && bits == CONTROL {
        Input::ChangeWindowUp
    } else if (code == KeyCode::Down || code == KeyCode::Char('j')) && bits == CONTROL {
        Input::ChangeWindowDown
    } else if (code == KeyCode::Up || code == KeyCode::Char('k')) && bits == NO_MODIFIERS {
        Input::ScrollUp
    } else if (code == KeyCode::Down || code == KeyCode::Char('j')) && bits == NO_MODIFIERS {
        Input::ScrollDown
    } else if code == KeyCode::Enter {
        Input::Toggle
    } else if code == KeyCode::Char('s') && bits == CONTROL {
        Input::Submit
    } else if code == KeyCode::Tab && bits == NO_MODIFIERS {
        Input::ToggleLlmOptions
    } else if code == KeyCode::Esc {
        Input::Back
    } else {
        Input::Unbound
    }
}

impl KeyModifiers {
    /// No modifier held.
    pub fn none() -> (r: KeyModifiers)
        ensures
            r.bits == NO_MODIFIERS,
    {
        KeyModifiers { bits: NO_MODIFIERS }
    }

    /// Control alone.
    pub fn control() -> (r: KeyModifiers)
        ensures
            r.bits == CONTROL,
    {
        KeyModifiers { bits: CONTROL }
    }
}

impl KeyEvent {
    /// A press of `code` with `modifiers` held.
    pub fn press(code: KeyCode, modifiers: KeyModifiers) -> (r: KeyEvent)
        ensures
            r.code == code,
            r.modifiers == modifiers,
            r.kind == KeyEventKind::Press,
    {
        KeyEvent { code, modifiers, kind: KeyEventKind::Press }
    }
}

impl Input {
    /// What `key` asks for.
    pub fn from_key(key: KeyEvent) -> (r: Input)
        ensures
            r == input_of(key.code, key.modifiers.bits),
    {
        let code = key.code;
        let ctrl = key.modifiers.bits == CONTROL;
        let plain = key.modifiers.bits == NO_MODIFIERS;
        let up = code == KeyCode::Up || code == KeyCode::Char('k');
        let down = code == KeyCode::Down || code == KeyCode::Char('j');
        if (code == KeyCode::Char('q') || code == KeyCode::Char('c')) && ctrl {
            Input::Quit
        } else if up && ctrl {
            Input::ChangeWindowUp
        } else if down && ctrl {
            Input::ChangeWindowDown
        } else if up && plain {
            Input::ScrollUp
        } else if down && plain {
            Input::ScrollDown
        } else if code == KeyCode::Enter {
            Input::Toggle
        } else if code == KeyCode::Char('s') && ctrl {
            Input::Submit
        } else if code == KeyCode::Tab && plain {
            Input::ToggleLlmOptions
        } else if code == KeyCode::Esc {
            Input::Back
        } else {
            Input::Unbound
        }
    }
}

impl From<KeyEvent> for Input {
    fn from(value: KeyEvent) -> (r: Input) {
        Input::from_key(value)
    }
}

impl vstd::std_specs::convert::FromSpecImpl<KeyEvent> for Input {
    open spec fn obeys_from_spec() -> bool {
        true
    }

    open spec fn from_spec(v: KeyEvent) -> Input {
        input_of(v.code, v.modifiers.bits)
    }
}

} // verus!
