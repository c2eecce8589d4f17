//! The keys that the editor reads.

use crate::cursor::Direction;
use vstd::prelude::*;

verus! {

/// A key of the keyboard.
#[derive(Clone, Copy, Debug, PartialEq, Eq, Structural)]
pub enum Key {
    /// A key that types the character.
    Char(char),
    Tab,
    Enter,
    Backspace,
    Delete,
    Esc,
    Up,
    Down,
    Left,
    Right,
    Home,
    End,
    PageUp,
    PageDown,
    /// Any other key.
    Other,
}

/// The keys that were held down together with a key.
#[derive(Clone, Copy, Debug, PartialEq, Eq, Structural)]
pub enum Modifiers {
    /// None.
    Nothing,
    /// Shift alone.
    Shift,
    /// Control alone.
    Control,
    /// Anything else.
    Other,
}

/// A key as it was pressed.
#[derive(Clone, Copy, Debug, PartialEq, Eq, Structural)]
pub struct KeyPress {
    pub key: Key,
    pub modifiers: Modifiers,
}

impl KeyPress {
    /// The key is the character `c` with Control held down.
    pub open spec fn is_control(self, c: char) -> bool {
        self.key == Key::Char(c) && self.modifiers == Modifiers::Control
    }

    /// The key is `key` with nothing held down.
    pub open spec fn is_plain(self, key: Key) -> bool {
        self.key == key && self.modifiers == Modifiers::Nothing
    }

    /// The way in which the key moves the cursor: that of an arrow key,
    /// Home or End with nothing held down.
    pub open spec fn direction(self) -> Option<Direction> {
        if self.modifiers == Modifiers::Nothing {
            match self.key {
                Key::Up => Some(Direction::Up),
                Key::Down => Some(Direction::Down),
                Key::Left => Some(Direction::Left),
                Key::Right => Some(Direction::Right),
                Key::Home => Some(Direction::Home),
                Key::End => Some(Direction::End),
                _ => None,
            }
        } else {
            None
        }
    }

    /// The character that the key types: that of a character key, or a tab
    /// for the tab key, with nothing or Shift held down.
    pub open spec fn typed(self) -> Option<char> {
        if self.modifiers == Modifiers::Nothing || self.modifiers == Modifiers::Shift {
            match self.key {
                Key::Char(c) => Some(c),
                Key::Tab => Some('\t'),
                _ => None,
            }
        } else {
            None
        }
    }

    /// The way in which the key moves the cursor, if it does.
    pub fn get_direction(&self) -> (direction: Option<Direction>)
        ensures
            direction == self.direction(),
    {
        match self.modifiers {
            Modifiers::Nothing => match self.key {
                Key::Up => Some(Direction::Up),
                Key::Down => Some(Direction::Down),
                Key::Left => Some(Direction::Left),
                Key::Right => Some(Direction::Right),
                Key::Home => Some(Direction::Home),
                Key::End => Some(Direction::End),
                _ => None,
            },
            _ => None,
        }
    }

    /// The character that the key types, if it types one.
    pub fn get_typed(&self) -> (typed: Option<char>)
        ensures
            typed == self.typed(),
    {
        match self.modifiers {
            Modifiers::Nothing | Modifiers::Shift => match self.key {
                Key::Char(c) => Some(c),
                Key::Tab => Some('\t'),
                _ => None,
            },
            _ => None,
        }
    }
}

} // verus!
