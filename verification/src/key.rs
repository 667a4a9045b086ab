//! Key chords: what the terminal reports for one keystroke.

use vstd::prelude::*;
use vstd::string::*;
use crate::text::push_char;

verus! {

/// A key chord: a named key, a printable character, or a character held with
/// Ctrl or Alt. Two chords are the same only if they are exactly equal.
#[derive(Debug, Clone, Copy, PartialEq, Eq, Structural, Hash)]
pub enum Key {
    Enter,
    Tab,
    ShiftTab,
    Backspace,
    Esc,
    Left,
    Right,
    Up,
    Down,
    Ins,
    Delete,
    Home,
    End,
    PageUp,
    PageDown,
    Char(char),
    Ctrl(char),
    Alt(char),
    Unknown,
}

impl Key {
    /// The text a chord stands for: a printable character is itself, every
    /// other chord is its name in angle brackets.
    pub open spec fn label(self) -> Seq<char> {
        match self {
            Key::Enter => "<Enter>"@,
            Key::Tab => "<Tab>"@,
            Key::ShiftTab => "<Shift+Tab>"@,
            Key::Backspace => "<Backspace>"@,
            Key::Esc => "<Esc>"@,
            Key::Left => "<Left>"@,
            Key::Right => "<Right>"@,
            Key::Up => "<Up>"@,
            Key::Down => "<Down>"@,
            Key::Ins => "<Ins>"@,
            Key::Delete => "<Delete>"@,
            Key::Home => "<Home>"@,
            Key::End => "<End>"@,
            Key::PageUp => "<PageUp>"@,
            Key::PageDown => "<PageDown>"@,
            Key::Char(c) => seq![c],
            Key::Ctrl(c) => "<Ctrl+"@.push(c) + ">"@,
            Key::Alt(c) => "<Alt+"@.push(c) + ">"@,
            Key::Unknown => "<Unknown>"@,
        }
    }

    /// Appends the chord's text to `out`.
    pub fn push_label(&self, out: &mut String)
        ensures
            final(out)@ == old(out)@ + self.label(),
    {
        match self {
            Key::Enter => out.append("<Enter>"),
            Key::Tab => out.append("<Tab>"),
            Key::ShiftTab => out.append("<Shift+Tab>"),
            Key::Backspace => out.append("<Backspace>"),
            Key::Esc => out.append("<Esc>"),
            Key::Left => out.append("<Left>"),
            Key::Right => out.append("<Right>"),
            Key::Up => out.append("<Up>"),
            Key::Down => out.append("<Down>"),
            Key::Ins => out.append("<Ins>"),
            Key::Delete => out.append("<Delete>"),
            Key::Home => out.append("<Home>"),
            Key::End => out.append("<End>"),
            Key::PageUp => out.append("<PageUp>"),
            Key::PageDown => out.append("<PageDown>"),
            Key::Char(c) => {
                push_char(out, *c);
                assert(out@ =~= old(out)@ + seq![*c]);
            },
            Key::Ctrl(c) => {
                out.append("<Ctrl+");
                push_char(out, *c);
                out.append(">");
                assert(out@ =~= old(out)@ + ("<Ctrl+"@.push(*c) + ">"@));
            },
            Key::Alt(c) => {
                out.append("<Alt+");
                push_char(out, *c);
                out.append(">");
                assert(out@ =~= old(out)@ + ("<Alt+"@.push(*c) + ">"@));
            },
            Key::Unknown => out.append("<Unknown>"),
        }
    }

    /// The chord's text as a new string.
    pub fn to_string(&self) -> (s: String)
        ensures
            s@ == self.label(),
    {
        let mut s = String::new();
        self.push_label(&mut s);
        assert(s@ =~= self.label());
        s
    }

    /// The value of a digit key, `0` for every other chord.
    pub open spec fn digit_spec(self) -> u8 {
        match self {
            Key::Char(c) => if '0' <= c && c <= '9' {
                (c as int - '0' as int) as u8
            } else {
                0u8
            },
            _ => 0u8,
        }
    }

    /// The value of a digit key, `0` for every other chord.
    pub fn to_digit(&self) -> (d: u8)
        ensures
            d == self.digit_spec(),
            d <= 9,
    {
        match self {
            Key::Char(c) => {
                let code: u32 = *c as u32;
                if 48 <= code && code <= 57 {
                    (code - 48) as u8
                } else {
                    0
                }
            },
            _ => 0,
        }
    }
}

} // verus!
