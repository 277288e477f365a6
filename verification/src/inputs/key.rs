//! Raw key chords, as the terminal delivers them.

use crate::text::push_char;
use vstd::prelude::*;
use vstd::string::*;

verus! {

/// One key chord: a named key, or a character alone or with a modifier.
#[derive(Clone, Copy, Debug, PartialEq, Eq, Hash, Structural)]
pub enum Key {
    /// Enter, also the one of the numeric pad.
    Enter,
    /// Enter with shift held.
    ShiftEnter,
    /// The tabulator key.
    Tab,
    /// The tabulator key with shift held.
    ShiftTab,
    Backspace,
    Esc,
    Left,
    Right,
    Up,
    Down,
    Ins,
    Delete,
    Home,
    End,
    PageUp,
    PageDown,
    /// A character without modifier.
    Char(char),
    /// A character with control held.
    Ctrl(char),
    /// A character with alt held.
    Alt(char),
    /// Any chord that has no other variant.
    Unknown,
}

impl Key {
    /// How the chord is written in messages: its name in angle brackets.
    pub open spec fn label(self) -> Seq<char> {
        match self {
            Key::Enter => "<Enter>"@,
            Key::ShiftEnter => "<ShiftEnter>"@,
            Key::Tab => "<Tab>"@,
            Key::ShiftTab => "<ShiftTab>"@,
            Key::Backspace => "<Backspace>"@,
            Key::Esc => "<Esc>"@,
            Key::Left => "<Left>"@,
            Key::Right => "<Right>"@,
            Key::Up => "<Up>"@,
            Key::Down => "<Down>"@,
            Key::Ins => "<Ins>"@,
            Key::Delete => "<Delete>"@,
            Key::Home => "<Home>"@,
            Key::End => "<End>"@,
            Key::PageUp => "<PageUp>"@,
            Key::PageDown => "<PageDown>"@,
            Key::Char(c) => if c == ' ' {
                "<Space>"@
            } else {
                "<"@.push(c) + ">"@
            },
            Key::Ctrl(c) => if c == ' ' {
                "<Ctrl+Space>"@
            } else {
                "<Ctrl+"@.push(c) + ">"@
            },
            Key::Alt(c) => if c == ' ' {
                "<Alt+Space>"@
            } else {
                "<Alt+"@.push(c) + ">"@
            },
            Key::Unknown => "<Unknown>"@,
        }
    }

    /// The character that the chord types into a text field, if any: a
    /// plain character types itself and the tabulator types a blank.
    pub open spec fn glyph(self) -> Option<char> {
        match self {
            Key::Char(c) => Some(c),
            Key::Tab => Some(' '),
            _ => None,
        }
    }

    /// A number that stands for the chord, a different one for each.
    pub open spec fn code(self) -> u64 {
        match self {
            Key::Enter => 0,
            Key::ShiftEnter => 1,
            Key::Tab => 2,
            Key::ShiftTab => 3,
            Key::Backspace => 4,
            Key::Esc => 5,
            Key::Left => 6,
            Key::Right => 7,
            Key::Up => 8,
            Key::Down => 9,
            Key::Ins => 10,
            Key::Delete => 11,
            Key::Home => 12,
            Key::End => 13,
            Key::PageUp => 14,
            Key::PageDown => 15,
            Key::Unknown => 16,
            Key::Char(c) => (0x1_0000_0000u64 + (c as u32) as u64) as u64,
            Key::Ctrl(c) => (0x2_0000_0000u64 + (c as u32) as u64) as u64,
            Key::Alt(c) => (0x3_0000_0000u64 + (c as u32) as u64) as u64,
        }
    }

    /// Two chords with the same code are the same chord.
    pub proof fn lemma_code_injective(a: Key, b: Key)
        requires
            a.code() == b.code(),
        ensures
            a == b,
    {
    }

    /// The chord as it is written in messages.
    pub fn to_string(&self) -> (s: String)
        ensures
            s@ == self.label(),
    {
        match *self {
            Key::Enter => String::from_str("<Enter>"),
            Key::ShiftEnter => String::from_str("<ShiftEnter>"),
            Key::Tab => String::from_str("<Tab>"),
            Key::ShiftTab => String::from_str("<ShiftTab>"),
            Key::Backspace => String::from_str("<Backspace>"),
            Key::Esc => String::from_str("<Esc>"),
            Key::Left => String::from_str("<Left>"),
            Key::Right => String::from_str("<Right>"),
            Key::Up => String::from_str("<Up>"),
            Key::Down => String::from_str("<Down>"),
            Key::Ins => String::from_str("<Ins>"),
            Key::Delete => String::from_str("<Delete>"),
            Key::Home => String::from_str("<Home>"),
            Key::End => String::from_str("<End>"),
            Key::PageUp => String::from_str("<PageUp>"),
            Key::PageDown => String::from_str("<PageDown>"),
            Key::Char(c) => if c == ' ' {
                String::from_str("<Space>")
            } else {
                bracketed("<", c)
            },
            Key::Ctrl(c) => if c == ' ' {
                String::from_str("<Ctrl+Space>")
            } else {
                bracketed("<Ctrl+", c)
            },
            Key::Alt(c) => if c == ' ' {
                String::from_str("<Alt+Space>")
            } else {
                bracketed("<Alt+", c)
            },
            Key::Unknown => String::from_str("<Unknown>"),
        }
    }

    /// The character that the chord types into a text field, if any.
    pub fn typed(&self) -> (c: Option<char>)
        ensures
            c == self.glyph(),
    {
        match *self {
            Key::Char(c) => Some(c),
            Key::Tab => Some(' '),
            _ => None,
        }
    }

    /// The number that stands for the chord.
    pub fn to_code(&self) -> (n: u64)
        ensures
            n == self.code(),
    {
        match *self {
            Key::Enter => 0,
            Key::ShiftEnter => 1,
            Key::Tab => 2,
            Key::ShiftTab => 3,
            Key::Backspace => 4,
            Key::Esc => 5,
            Key::Left => 6,
            Key::Right => 7,
            Key::Up => 8,
            Key::Down => 9,
            Key::Ins => 10,
            Key::Delete => 11,
            Key::Home => 12,
            Key::End => 13,
            Key::PageUp => 14,
            Key::PageDown => 15,
            Key::Unknown => 16,
            Key::Char(c) => 0x1_0000_0000u64 + (c as u32) as u64,
            Key::Ctrl(c) => 0x2_0000_0000u64 + (c as u32) as u64,
            Key::Alt(c) => 0x3_0000_0000u64 + (c as u32) as u64,
        }
    }
}

fn bracketed(open: &str, c: char) -> (s: String)
    ensures
        s@ == open@.push(c) + ">"@,
{
    let mut s = String::from_str(open);
    push_char(&mut s, c);
    s.append(">");
    s
}

} // verus!
