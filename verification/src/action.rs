//! The intents that drive every state change, the input mode, and the
//! reading of raw input as intents.

use vstd::prelude::*;

verus! {

/// A user or system intent. Actions are plain messages: each one is consumed
/// exactly once by whoever resolves it.
#[derive(Clone, Copy, Debug, PartialEq, Eq, Structural)]
pub enum Action {
    /// Leave the program.
    Quit,
    /// Draw the screen again.
    Render,
    SwitchToInputMode,
    SwitchToNormalMode,
    /// Move the focus one row up.
    Up,
    /// Move the focus one row down.
    Down,
    /// Open the post in focus.
    Select,
    /// More posts have been asked for or have arrived.
    LoadMore,
}

/// How raw input is read. Exactly one mode is active at a time.
#[derive(Clone, Copy, Debug, PartialEq, Eq, Structural)]
pub enum Mode {
    Normal,
    Input,
}

/// A key press, reduced to the keys that are bound.
#[derive(Clone, Copy, Debug, PartialEq, Eq, Structural)]
pub enum Key {
    Char(char),
    Up,
    Down,
    Enter,
    Esc,
    /// Any other key.
    Other,
}

/// A raw event of the terminal.
#[derive(Clone, Copy, Debug, PartialEq, Eq, Structural)]
pub enum Event {
    Key(Key),
    /// The terminal now has this many columns and rows.
    Resize(u16, u16),
    /// Anything else the terminal reports.
    Other,
}

impl Action {
    /// Whether this action asks for a redraw.
    pub fn is_render(&self) -> (r: bool)
        ensures
            r == (*self == Action::Render),
    {
        match self {
            Action::Render => true,
            _ => false,
        }
    }
}

/// The action bound to `key` in normal mode.
pub open spec fn normal_binding(key: Key) -> Option<Action> {
    match key {
        Key::Char(c) => if c == 'q' {
            Some(Action::Quit)
        } else if c == 'k' {
            Some(Action::Up)
        } else if c == 'j' {
            Some(Action::Down)
        } else if c == 'i' {
            Some(Action::SwitchToInputMode)
        } else {
            None
        },
        Key::Up => Some(Action::Up),
        Key::Down => Some(Action::Down),
        Key::Enter => Some(Action::Select),
        _ => None,
    }
}

/// The action bound to `key` in input mode: only leaving the mode is bound,
/// every other key belongs to the text being typed.
pub open spec fn input_binding(key: Key) -> Option<Action> {
    match key {
        Key::Esc => Some(Action::SwitchToNormalMode),
        _ => None,
    }
}

/// The action that `event` stands for while `mode` is active. A resize asks
/// for a redraw in either mode; a key goes by the bindings of the mode.
pub open spec fn action_for(mode: Mode, event: Event) -> Option<Action> {
    match event {
        Event::Key(key) => match mode {
            Mode::Normal => normal_binding(key),
            Mode::Input => input_binding(key),
        },
        Event::Resize(_, _) => Some(Action::Render),
        Event::Other => None,
    }
}

/// Reads a raw terminal event as the action it stands for, if any.
/// The answer depends on nothing but the two arguments.
pub fn event_to_action(mode: Mode, event: Event) -> (action: Option<Action>)
    ensures
        action == action_for(mode, event),
{
    match event {
        Event::Key(key) => match mode {
            Mode::Normal => match key {
                Key::Char(c) => {
                    if c == 'q' {
                        Some(Action::Quit)
                    } else if c == 'k' {
                        Some(Action::Up)
                    } else if c == 'j' {
                        Some(Action::Down)
                    } else if c == 'i' {
                        Some(Action::SwitchToInputMode)
                    } else {
                        None
                    }
                },
                Key::Up => Some(Action::Up),
                Key::Down => Some(Action::Down),
                Key::Enter => Some(Action::Select),
                _ => None,
            },
            Mode::Input => match key {
                Key::Esc => Some(Action::SwitchToNormalMode),
                _ => None,
            },
        },
        Event::Resize(_, _) => Some(Action::Render),
        Event::Other => None,
    }
}

} // verus!
