//! One line of the document and the form in which it is shown.

use crate::rows::EditorRows;
use crate::tabs::{expand_tabs, TAB_STOP};
use crate::text::{insert_char_at, lemma_chars_fit_in_bytes, remove_char_at};
use vstd::prelude::*;
use vstd::string::*;

verus! {

/// A line of text, without its line break, and the same line with its tabs
/// expanded.
pub struct Row {
    /// The text of the line.
    pub row_contents: String,
    /// The line as shown on screen.
    pub render: String,
}

impl View for Row {
    type V = Seq<char>;

    /// A row stands for its text.
    open spec fn view(&self) -> Seq<char> {
        self.row_contents@
    }
}

impl Row {
    /// The shown form is the one that belongs to the text.
    pub open spec fn wf(&self) -> bool {
        self.render@ == expand_tabs(self.row_contents@, TAB_STOP as nat)
    }

    /// A row of the two strings as they are given. It is well formed only
    /// if `render` is the expansion of `row_contents`;
    /// [`EditorRows::render_row`] makes it so.
    pub fn new(row_contents: String, render: String) -> (row: Self)
        ensures
            row.row_contents == row_contents,
            row.render == render,
    {
        Self { row_contents, render }
    }

    /// Gives the line the text `text` and renders the line anew.
    pub fn set_content(&mut self, text: String)
        ensures
            final(self).row_contents == text,
            final(self).wf(),
    {
        self.row_contents = text;
        EditorRows::render_row(self);
    }

    /// The number of characters of the line.
    pub fn len(&self) -> (n: usize)
        ensures
            n == self@.len(),
    {
        self.row_contents.as_str().unicode_len()
    }

    /// Puts `ch` into the line before position `at` and renders the line
    /// anew.
    pub fn insert_char(&mut self, at: usize, ch: char)
        requires
            at <= old(self)@.len(),
        ensures
            final(self)@ == old(self)@.insert(at as int, ch),
            final(self)@.len() <= usize::MAX,
            final(self).wf(),
    {
        insert_char_at(&mut self.row_contents, at, ch);
        let bytes: usize = self.row_contents.as_str().as_bytes().len();
        proof {
            lemma_chars_fit_in_bytes(self.row_contents@);
        }
        EditorRows::render_row(self);
    }

    /// Takes the character at position `at` out of the line and renders the
    /// line anew.
    pub fn delete_char(&mut self, at: usize)
        requires
            at < old(self)@.len(),
        ensures
            final(self)@ == old(self)@.remove(at as int),
            final(self).wf(),
    {
        remove_char_at(&mut self.row_contents, at);
        EditorRows::render_row(self)
    }
}

} // verus!
