use vstd::prelude::*;

verus! {

/// What the user asks of the form.
#[derive(Clone, Copy, Debug, PartialEq, Eq, Structural)]
pub enum Input {
    NextField,
    PrevField,
    InsertChar(char),
    DeleteBackward,
    MoveCursorLeft,
    MoveCursorRight,
    ResetField,
}

/// A key of the keyboard, as far as the form tells keys apart.
#[derive(Clone, Copy, Debug, PartialEq, Eq, Structural)]
pub enum Key {
    Enter,
    Tab,
    Down,
    BackTab,
    Up,
    Char(char),
    Backspace,
    Left,
    Right,
    Esc,
    Other,
}

/// An event of the terminal, as far as the form tells events apart.
#[derive(Clone, Copy, Debug, PartialEq, Eq, Structural)]
pub enum TermEvent {
    /// The terminal changed its size.
    Resize,
    /// A key went down, or is held down and repeats.
    KeyDown(Key),
    /// A key came up.
    KeyUp(Key),
    /// Anything else.
    Other,
}

impl Key {
    /// The input that the key is bound to, if it is bound.
    pub open spec fn binding(self) -> Option<Input> {
        match self {
            Key::Enter | Key::Tab | Key::Down => Some(Input::NextField),
            Key::BackTab | Key::Up => Some(Input::PrevField),
            Key::Char(c) => Some(Input::InsertChar(c)),
            Key::Backspace => Some(Input::DeleteBackward),
            Key::Left => Some(Input::MoveCursorLeft),
            Key::Right => Some(Input::MoveCursorRight),
            Key::Esc => Some(Input::ResetField),
            Key::Other => None,
        }
    }

    /// Looks the key up in the bindings.
    pub fn input(self) -> (r: Option<Input>)
        ensures
            r == self.binding(),
    {
        match self {
            Key::Enter | Key::Tab | Key::Down => Some(Input::NextField),
            Key::BackTab | Key::Up => Some(Input::PrevField),
            Key::Char(c) => Some(Input::InsertChar(c)),
            Key::Backspace => Some(Input::DeleteBackward),
            Key::Left => Some(Input::MoveCursorLeft),
            Key::Right => Some(Input::MoveCursorRight),
            Key::Esc => Some(Input::ResetField),
            Key::Other => None,
        }
    }
}

impl TermEvent {
    /// The input that the event carries: that of a bound key going down.
    pub open spec fn carried(self) -> Option<Input> {
        match self {
            TermEvent::KeyDown(key) => key.binding(),
            _ => None,
        }
    }

    /// Whether the form is drawn again after the event: not when a key came
    /// up, nor on a key that is bound to nothing.
    pub open spec fn redraws(self) -> bool {
        match self {
            TermEvent::Resize => true,
            TermEvent::KeyDown(key) => key.binding().is_some(),
            TermEvent::KeyUp(_) => false,
            TermEvent::Other => true,
        }
    }
}

} // verus!
