//! What is sent to the terminal: text, and the codes that steer it.
//!
//! A frame is drawn into a buffer and sent in one piece. The codes are
//! those that `crossterm` writes for its commands.

use crate::tabs::spaces;
use crate::text::{decimal, push_char};
use crossterm::cursor::{Hide, MoveTo, Show};
use crossterm::style::{Attribute, SetAttribute};
use crossterm::terminal::{Clear, ClearType};
use crossterm::Command;
use vstd::prelude::*;
use vstd::string::*;

verus! {

/// A way to show the text that follows.
#[derive(Clone, Copy, Debug, PartialEq, Eq, Structural)]
pub enum TextAttribute {
    /// As the terminal shows text by default.
    Reset,
    /// Foreground and background exchanged.
    Reverse,
}

/// The two characters that start a code.
pub open spec fn csi() -> Seq<char> {
    seq!['\x1b', '[']
}

/// The code that sets the attribute `attribute`.
pub open spec fn attribute_code(attribute: TextAttribute) -> Seq<char> {
    match attribute {
        TextAttribute::Reset => csi() + seq!['0', 'm'],
        TextAttribute::Reverse => csi() + seq!['7', 'm'],
    }
}

/// The code that clears the line from the cursor to its end.
pub open spec fn clear_line_code() -> Seq<char> {
    csi() + seq!['K']
}

/// The code that hides the cursor.
pub open spec fn hide_code() -> Seq<char> {
    csi() + seq!['?', '2', '5', 'l']
}

/// The code that shows the cursor.
pub open spec fn show_code() -> Seq<char> {
    csi() + seq!['?', '2', '5', 'h']
}

/// The code that puts the cursor into column `x` of line `y`, both counted
/// from 0; the terminal counts from 1.
pub open spec fn move_to_code(x: u16, y: u16) -> Seq<char> {
    csi() + decimal((y + 1) as nat) + seq![';'] + decimal((x + 1) as nat) + seq!['H']
}

/// The end of a line of the frame.
pub open spec fn line_end() -> Seq<char> {
    seq!['\r', '\n']
}

/// Calls `write_ansi` of `crossterm::style::SetAttribute`, which writes
/// the start of a code, the number of the attribute (0 for `Reset`, 7 for
/// `Reverse`) and `m`. Like the other codes it is written whatever the
/// console is: `write_ansi` does not ask the console what it accepts.
#[verifier::external_body]
pub(crate) fn attribute_string(attribute: TextAttribute) -> (code: String)
    ensures
        code@ == attribute_code(attribute),
{
    let mut code = String::new();
    let _ = match attribute {
        TextAttribute::Reset => SetAttribute(Attribute::Reset).write_ansi(&mut code),
        TextAttribute::Reverse => SetAttribute(Attribute::Reverse).write_ansi(&mut code),
    };
    code
}

/// Calls `write_ansi` of `crossterm::terminal::Clear` for
/// `ClearType::UntilNewLine`, which writes the start of a code and `K`.
#[verifier::external_body]
pub(crate) fn clear_line_string() -> (code: String)
    ensures
        code@ == clear_line_code(),
{
    let mut code = String::new();
    let _ = Clear(ClearType::UntilNewLine).write_ansi(&mut code);
    code
}

/// Calls `write_ansi` of `crossterm::cursor::Hide`, which writes the start
/// of a code and `?25l`.
#[verifier::external_body]
pub(crate) fn hide_string() -> (code: String)
    ensures
        code@ == hide_code(),
{
    let mut code = String::new();
    let _ = Hide.write_ansi(&mut code);
    code
}

/// Calls `write_ansi` of `crossterm::cursor::Show`, which writes the start
/// of a code and `?25h`.
#[verifier::external_body]
pub(crate) fn show_string() -> (code: String)
    ensures
        code@ == show_code(),
{
    let mut code = String::new();
    let _ = Show.write_ansi(&mut code);
    code
}

/// Calls `write_ansi` of `crossterm::cursor::MoveTo`, which writes the
/// start of a code, the line plus one, `;`, the column plus one and `H`,
/// the numbers in base ten. It adds the ones in `u16`, so neither number may
/// be the largest.
#[verifier::external_body]
pub(crate) fn move_to_string(x: u16, y: u16) -> (code: String)
    requires
        x < u16::MAX,
        y < u16::MAX,
    ensures
        code@ == move_to_code(x, y),
{
    let mut code = String::new();
    let _ = MoveTo(x, y).write_ansi(&mut code);
    code
}

/// The frame that is being drawn.
pub struct EditorContents {
    /// What has been drawn so far.
    pub content: String,
}

impl View for EditorContents {
    type V = Seq<char>;

    /// A buffer stands for the characters in it.
    open spec fn view(&self) -> Seq<char> {
        self.content@
    }
}

impl EditorContents {
    /// An empty buffer.
    pub fn new() -> (contents: Self)
        ensures
            contents@ == Seq::<char>::empty(),
    {
        Self { content: String::new() }
    }

    /// Appends the character `ch`.
    pub fn push(&mut self, ch: char)
        ensures
            final(self)@ == old(self)@.push(ch),
    {
        push_char(&mut self.content, ch);
    }

    /// Appends `n` spaces.
    pub fn push_spaces(&mut self, n: usize)
        ensures
            final(self)@ == old(self)@ + spaces(n as nat),
    {
        let mut i: usize = 0;
        while i < n
            invariant
                i <= n,
                self@ == old(self)@ + spaces(i as nat),
            decreases n - i,
        {
            self.push(' ');
            i += 1;
            assert(self@ =~= old(self)@ + spaces(i as nat));
        }
    }

    /// Appends the text `st`.
    pub fn push_str(&mut self, st: &str)
        ensures
            final(self)@ == old(self)@ + st@,
    {
        self.content.append(st);
    }
}

} // verus!
