//! Keys, and the lines that they edit.

use crate::outside::{input_cursor, input_text, press, step_back, step_forward};
use tui_input::Input;
use vstd::prelude::*;

verus! {

/// The keys that mean something here.
#[derive(Debug, Clone, Copy, PartialEq, Eq, Structural)]
pub enum KeyCode {
    Char(char),
    Enter,
    Esc,
    Tab,
    Up,
    Down,
    Left,
    Right,
    Home,
    End,
    Backspace,
    Delete,
    /// Any other key.
    Other,
}

/// The keys that edit a line.
#[derive(Debug, Clone, Copy, PartialEq, Eq, Structural)]
pub enum EditKey {
    Char(char),
    Left,
    Right,
    Home,
    End,
    Backspace,
    Delete,
}

/// A line: its characters, and how many of them stand before the cursor.
#[verifier::ext_equal]
pub struct InputView {
    pub text: Seq<char>,
    pub cursor: nat,
}

/// What a line holds.
pub open spec fn line(input: Input) -> InputView {
    InputView { text: input_text(input), cursor: input_cursor(input) }
}

/// The empty line.
pub open spec fn empty_line() -> InputView {
    InputView { text: Seq::empty(), cursor: 0 }
}

/// The line after a key that edits it.
pub open spec fn edited(before: InputView, key: EditKey) -> InputView {
    let text = before.text;
    let cursor = before.cursor;
    let start = (cursor - step_back(text, cursor)) as nat;
    let end = cursor + step_forward(text, cursor);
    match key {
        EditKey::Char(c) => InputView { text: text.insert(cursor as int, c), cursor: cursor + 1 },
        EditKey::Left => InputView { text, cursor: start },
        EditKey::Right => InputView { text, cursor: end },
        EditKey::Home => InputView { text, cursor: 0 },
        EditKey::End => InputView { text, cursor: text.len() },
        EditKey::Backspace => InputView {
            text: text.take(start as int) + text.skip(cursor as int),
            cursor: start,
        },
        EditKey::Delete => InputView { text: text.take(cursor as int) + text.skip(end as int), cursor },
    }
}

impl KeyCode {
    /// The edit that the key makes in a line, if it makes one.
    pub open spec fn edit(self) -> Option<EditKey> {
        match self {
            KeyCode::Char(c) => Some(EditKey::Char(c)),
            KeyCode::Left => Some(EditKey::Left),
            KeyCode::Right => Some(EditKey::Right),
            KeyCode::Home => Some(EditKey::Home),
            KeyCode::End => Some(EditKey::End),
            KeyCode::Backspace => Some(EditKey::Backspace),
            KeyCode::Delete => Some(EditKey::Delete),
            _ => None,
        }
    }

    /// The edit that the key makes in a line, if it makes one.
    pub fn to_edit(self) -> (res: Option<EditKey>)
        ensures
            res == self.edit(),
    {
        match self {
            KeyCode::Char(c) => Some(EditKey::Char(c)),
            KeyCode::Left => Some(EditKey::Left),
            KeyCode::Right => Some(EditKey::Right),
            KeyCode::Home => Some(EditKey::Home),
            KeyCode::End => Some(EditKey::End),
            KeyCode::Backspace => Some(EditKey::Backspace),
            KeyCode::Delete => Some(EditKey::Delete),
            _ => None,
        }
    }

    /// One up in a list.
    pub open spec fn goes_up(self) -> bool {
        self == KeyCode::Up || self == KeyCode::Char('k')
    }

    /// One up in a list.
    pub fn is_up(self) -> (res: bool)
        ensures
            res == self.goes_up(),
    {
        self == KeyCode::Up || self == KeyCode::Char('k')
    }

    /// One down in a list.
    pub open spec fn goes_down(self) -> bool {
        self == KeyCode::Down || self == KeyCode::Char('j')
    }

    /// One down in a list.
    pub fn is_down(self) -> (res: bool)
        ensures
            res == self.goes_down(),
    {
        self == KeyCode::Down || self == KeyCode::Char('j')
    }

    /// The letter, in lower or upper case.
    pub open spec fn letter(self, lower: char, upper: char) -> bool {
        self == KeyCode::Char(lower) || self == KeyCode::Char(upper)
    }

    /// The letter, in lower or upper case.
    pub fn is_letter(self, lower: char, upper: char) -> (res: bool)
        ensures
            res == self.letter(lower, upper),
    {
        self == KeyCode::Char(lower) || self == KeyCode::Char(upper)
    }
}

/// The line after a key. A key that is no edit leaves it alone.
pub open spec fn typed(before: InputView, key: KeyCode) -> InputView {
    match key.edit() {
        Some(edit) => edited(before, edit),
        None => before,
    }
}

/// Types a key into a line.
pub fn type_key(input: &mut Input, key: KeyCode)
    ensures
        line(*final(input)) == typed(line(*old(input)), key),
{
    match key.to_edit() {
        Some(edit) => press(input, edit),
        None => {},
    }
}

} // verus!
