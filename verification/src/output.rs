//! The editor's state between two keys: the document, the cursor, the
//! status line and the frame that is being drawn.

use crate::cursor::{moved, CursorController, Direction};
use crate::lines::split_lines;
use crate::rows::{
    join_rows,
    lemma_split_then_join,
    shown_lines,
    split_rows,
    EditorError,
    EditorRows,
    Source,
};
use crate::screen::EditorContents;
use crate::status::StatusMessage;
use vstd::prelude::*;
use vstd::string::*;

verus! {

/// The lines of the terminal that are kept for the status bar and the
/// message bar.
pub const RESERVED_LINES: usize = 2;

/// The message that is shown when the editor starts.
pub open spec fn help_text() -> Seq<char> {
    "HELP: Ctrl-S = Save | Ctrl-Q = Quit "@
}

/// The document, the cursor, the status line and the frame.
pub struct Output {
    /// The size of the window on the document: columns, then lines.
    pub win_size: (usize, usize),
    /// The frame that is being drawn.
    pub editor_contents: EditorContents,
    /// The cursor and the offsets of the window.
    pub cursor: CursorController,
    /// The document.
    pub editor_rows: EditorRows,
    /// The message of the message bar.
    pub status_message: StatusMessage,
    /// The number of changes made since the document was last saved.
    pub dirty: u64,
}

/// What an [`Output`] stands for.
pub struct OutputView {
    pub win_size: (usize, usize),
    pub contents: Seq<char>,
    pub cursor: CursorController,
    pub lines: Seq<Seq<char>>,
    pub filename: Option<String>,
    pub status_message: StatusMessage,
    pub dirty: u64,
}

impl OutputView {
    /// One change more.
    pub open spec fn changed(self) -> u64 {
        (self.dirty + 1) as u64
    }

    /// The number of changes that typing a character makes: one, and one
    /// more for the line that it starts after the last line.
    pub open spec fn changes_of_char(self) -> nat {
        if self.cursor.cursor_y < self.lines.len() {
            1
        } else {
            2
        }
    }

    /// The number of changes that Backspace makes: one, unless it does
    /// nothing.
    pub open spec fn changes_of_backspace(self) -> nat {
        if self.cursor.cursor_y < self.lines.len() && (self.cursor.cursor_x > 0
            || self.cursor.cursor_y > 0) {
            1
        } else {
            0
        }
    }

    /// After Enter: the line of the cursor is broken at the cursor, or an
    /// empty line is added where the cursor stands after the last line; the
    /// cursor goes to the start of the line that follows.
    pub open spec fn with_newline(self) -> Self {
        let x = self.cursor.cursor_x as int;
        let y = self.cursor.cursor_y as int;
        OutputView {
            lines: if y < self.lines.len() {
                split_rows(self.lines, y, x)
            } else {
                self.lines.push(Seq::empty())
            },
            cursor: self.cursor.at(0, (y + 1) as usize),
            dirty: self.changed(),
            ..self
        }
    }

    /// After the character `ch` is typed: it stands before the cursor, which
    /// has moved one place right. Typed after the last line, it first
    /// makes a new line, which counts as a change of its own.
    pub open spec fn with_char(self, ch: char) -> Self {
        let x = self.cursor.cursor_x as int;
        let y = self.cursor.cursor_y as int;
        OutputView {
            lines: if y < self.lines.len() {
                self.lines.update(y, self.lines[y].insert(x, ch))
            } else {
                self.lines.push(seq![ch])
            },
            cursor: self.cursor.at((x + 1) as usize, y as usize),
            dirty: (self.dirty + self.changes_of_char()) as u64,
            ..self
        }
    }

    /// After Backspace: the character before the cursor is gone; at the
    /// start of a line the line is joined to the one before it, and the
    /// cursor stands where that one ended. At the start of the document and
    /// after the last line nothing happens.
    pub open spec fn without_char(self) -> Self {
        let x = self.cursor.cursor_x as int;
        let y = self.cursor.cursor_y as int;
        if y >= self.lines.len() {
            self
        } else if x > 0 {
            OutputView {
                lines: self.lines.update(y, self.lines[y].remove(x - 1)),
                cursor: self.cursor.at((x - 1) as usize, y as usize),
                dirty: self.changed(),
                ..self
            }
        } else if y > 0 {
            OutputView {
                lines: join_rows(self.lines, y),
                cursor: self.cursor.at(self.lines[y - 1].len() as usize, (y - 1) as usize),
                dirty: self.changed(),
                ..self
            }
        } else {
            self
        }
    }

    /// After the cursor has moved one step in `direction`.
    pub open spec fn with_move(self, direction: Direction) -> Self {
        let to = moved(
            self.lines,
            self.cursor.cursor_x as nat,
            self.cursor.cursor_y as nat,
            direction,
        );
        OutputView { cursor: self.cursor.at(to.0 as usize, to.1 as usize), ..self }
    }
}

/// Enter and then Backspace leave the lines of the document and the cursor
/// as they were, wherever in a line the cursor stands, and with the lines
/// the form in which a rendered document shows them. Nothing else changes
/// but the count of changes, which has gone up by two where it had room
/// for that.
pub proof fn lemma_newline_then_backspace(v: OutputView)
    requires
        v.lines.len() <= usize::MAX,
        v.cursor.in_document(v.lines),
        v.cursor.cursor_y < v.lines.len(),
    ensures
        v.with_newline().without_char() == (OutputView {
            dirty: v.with_newline().without_char().dirty,
            ..v
        }),
        shown_lines(v.with_newline().without_char().lines) == shown_lines(v.lines),
        v.dirty + 2 <= u64::MAX ==> v.with_newline().without_char().dirty == v.dirty + 2,
{
    lemma_split_then_join(v.lines, v.cursor.cursor_y as int, v.cursor.cursor_x as int);
}

impl View for Output {
    type V = OutputView;

    open spec fn view(&self) -> OutputView {
        OutputView {
            win_size: self.win_size,
            contents: self.editor_contents@,
            cursor: self.cursor,
            lines: self.editor_rows@,
            filename: self.editor_rows.filename,
            status_message: self.status_message,
            dirty: self.dirty,
        }
    }
}

impl Output {
    /// The document is rendered, the cursor stands in it, and the window
    /// is that of the cursor and no larger than a terminal can be.
    pub open spec fn wf(&self) -> bool {
        &&& self.editor_rows.wf()
        &&& self.cursor.in_document(self.editor_rows@)
        &&& self.cursor.screen_columns == self.win_size.0
        &&& self.cursor.screen_rows == self.win_size.1
        &&& self.win_size.0 <= u16::MAX
        &&& self.win_size.1 <= u16::MAX
    }

    /// The window has at least one line and one column, so that it can
    /// hold the cursor.
    pub open spec fn has_window(&self) -> bool {
        self.win_size.0 >= 1 && self.win_size.1 >= 1
    }

    /// This is the state in which the editor starts on a terminal of
    /// `terminal_size.0` columns and `terminal_size.1` lines with the
    /// document from `source`: the window has all lines of the terminal but
    /// the two that are kept for the status bar and the message bar; the
    /// document holds the lines of the file that was read, under its name,
    /// or else no lines and no name; the cursor stands at its start;
    /// nothing is drawn and nothing changed. The message is the help text,
    /// or says that the file could not be read.
    pub open spec fn starts(&self, terminal_size: (u16, u16), source: Source) -> bool {
        &&& self.win_size == (
            terminal_size.0 as usize,
            (terminal_size.1 - RESERVED_LINES) as usize,
        )
        &&& self.editor_contents@ == Seq::<char>::empty()
        &&& self.cursor == CursorController::start(self.win_size)
        &&& self.dirty == 0
        &&& self.status_message.set_time.is_some()
        &&& self.status_message.message matches Some(m) && m@ == if source is Unreadable {
            EditorError::ReadFailure.text()
        } else {
            help_text()
        }
        &&& match source {
            Source::File { path, text } => {
                &&& self.editor_rows.filename == Some(path)
                &&& self.editor_rows@ == split_lines(text@)
            },
            _ => {
                &&& self.editor_rows.filename.is_none()
                &&& self.editor_rows@.len() == 0
            },
        }
    }

    /// The state in which the editor starts on a terminal of
    /// `terminal_size.0` columns and `terminal_size.1` lines with the
    /// document from `source`. The terminal has room for the two bars.
    pub fn new(terminal_size: (u16, u16), source: Source) -> (output: Self)
        requires
            terminal_size.1 >= RESERVED_LINES,
        ensures
            output.wf(),
            output.starts(terminal_size, source),
    {
        let win_size = (terminal_size.0 as usize, terminal_size.1 as usize - RESERVED_LINES);
        let message = if matches!(source, Source::Unreadable) {
            EditorError::ReadFailure.message()
        } else {
            String::from_str("HELP: Ctrl-S = Save | Ctrl-Q = Quit ")
        };
        Self {
            win_size,
            editor_contents: EditorContents::new(),
            cursor: CursorController::new(win_size),
            editor_rows: EditorRows::new(source),
            status_message: StatusMessage::new(message),
            dirty: 0,
        }
    }

    /// Enter: breaks the line of the cursor at the cursor and puts the
    /// cursor at the start of the new line.
    pub fn insert_newline(&mut self)
        requires
            old(self).wf(),
            old(self).dirty < u64::MAX,
        ensures
            final(self).wf(),
            final(self)@ == old(self)@.with_newline(),
    {
        if self.cursor.cursor_x == 0 {
            self.editor_rows.insert_row(self.cursor.cursor_y, String::new());
        } else {
            self.editor_rows.split_at(self.cursor.cursor_y, self.cursor.cursor_x);
        }
        assert(self.editor_rows@.len() == old(self).editor_rows@.len() + 1);
        assert(self.editor_rows@.len() == self.editor_rows.row_contents.len() <= usize::MAX);
        self.cursor.cursor_x = 0;
        self.cursor.cursor_y += 1;
        self.dirty += 1;
        proof {
            let x = old(self).cursor.cursor_x as int;
            let y = old(self).cursor.cursor_y as int;
            let lines = old(self)@.lines;
            if x == 0 && y < lines.len() {
                assert(lines[y].take(0) =~= Seq::<char>::empty());
                assert(lines[y].skip(0) =~= lines[y]);
                assert(lines.insert(y, Seq::empty()) =~= split_rows(lines, y, 0));
            }
            if y == lines.len() {
                assert(lines.insert(y, Seq::empty()) =~= lines.push(Seq::empty()));
            }
        }
    }

    /// Types `ch` at the cursor and moves the cursor past it.
    pub fn insert_char(&mut self, ch: char)
        requires
            old(self).wf(),
            old(self).dirty + old(self)@.changes_of_char() <= u64::MAX,
        ensures
            final(self).wf(),
            final(self)@ == old(self)@.with_char(ch),
    {
        if self.cursor.cursor_y == self.editor_rows.num_rows() {
            self.editor_rows.insert_row(self.editor_rows.num_rows(), String::new());
            self.dirty += 1;
        }
        let ghost rows = self.editor_rows@;
        self.editor_rows.get_editor_row_mut(self.cursor.cursor_y).insert_char(
            self.cursor.cursor_x,
            ch,
        );
        self.cursor.cursor_x += 1;
        self.dirty += 1;
        proof {
            let x = old(self).cursor.cursor_x as int;
            let y = old(self).cursor.cursor_y as int;
            let lines = old(self)@.lines;
            assert(self.editor_rows@ =~= rows.update(y, rows[y].insert(x, ch)));
            if y == lines.len() {
                assert(Seq::<char>::empty().insert(0, ch) =~= seq![ch]);
                assert(self.editor_rows@ =~= lines.push(seq![ch]));
            }
        }
    }

    /// Backspace: deletes the character before the cursor, or at the start
    /// of a line joins the line to the one before it.
    pub fn delete_char(&mut self)
        requires
            old(self).wf(),
            old(self).dirty + old(self)@.changes_of_backspace() <= u64::MAX,
        ensures
            final(self).wf(),
            final(self)@ == old(self)@.without_char(),
    {
        if self.cursor.cursor_y == self.editor_rows.num_rows() {
            return ;
        }
        if self.cursor.cursor_x > 0 {
            let row = self.editor_rows.get_editor_row_mut(self.cursor.cursor_y);
            row.delete_char(self.cursor.cursor_x - 1);
            self.cursor.cursor_x -= 1;
            self.dirty += 1;
            proof {
                let x = old(self).cursor.cursor_x as int;
                let y = old(self).cursor.cursor_y as int;
                let lines = old(self)@.lines;
                assert(self.editor_rows@ =~= lines.update(y, lines[y].remove(x - 1)));
            }
        } else if self.cursor.cursor_y > 0 {
            self.cursor.cursor_x = self.editor_rows.get_editor_row(self.cursor.cursor_y - 1).len();
            self.editor_rows.join_adjacent_rows(self.cursor.cursor_y);
            self.cursor.cursor_y -= 1;
            self.dirty += 1;
        }
    }

    /// Moves the cursor one step in `direction`.
    pub fn move_cursor(&mut self, direction: Direction)
        requires
            old(self).wf(),
        ensures
            final(self).wf(),
            final(self)@ == old(self)@.with_move(direction),
    {
        self.cursor.move_cursor(direction, &self.editor_rows);
    }
}

} // verus!
