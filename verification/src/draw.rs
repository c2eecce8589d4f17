//! Drawing a frame: the lines of the document that the window shows, the
//! status bar, the message bar and the cursor.

use crate::cursor::CursorController;
use crate::output::{Output, OutputView};
use crate::screen::{
    attribute_code,
    attribute_string,
    clear_line_code,
    clear_line_string,
    hide_code,
    hide_string,
    line_end,
    move_to_code,
    move_to_string,
    show_code,
    show_string,
    EditorContents,
    TextAttribute,
};
use crate::status::shows;
use crate::tabs::{expand_tabs, spaces, TAB_STOP};
use crate::text::{decimal, format_decimal};
use std::path::Path;
use vstd::prelude::*;
use vstd::string::*;

verus! {

/// The greeting that an empty document shows.
pub open spec fn welcome_text() -> Seq<char> {
    "Rust Editor --- Version 1"@
}

/// The line of the greeting in a window of `columns` columns: the greeting,
/// cut to the window, in the middle of the line, behind a tilde if there is
/// room for one.
pub open spec fn welcome_line(columns: nat) -> Seq<char> {
    let shown = if welcome_text().len() > columns {
        columns
    } else {
        welcome_text().len()
    };
    let padding = (columns - shown) / 2;
    let margin = if padding != 0 {
        seq!['~'] + spaces((padding - 1) as nat)
    } else {
        Seq::empty()
    };
    margin + welcome_text().take(shown as int)
}

/// The first `columns` characters of `text`, or all of it if it has no
/// more.
pub open spec fn cut(text: Seq<char>, columns: nat) -> Seq<char> {
    if columns < text.len() {
        text.take(columns as int)
    } else {
        text
    }
}

/// The part of the shown line `render` that a window of `columns` columns
/// holds when its first column is `col_offset`.
pub open spec fn visible_part(render: Seq<char>, col_offset: nat, columns: nat) -> Seq<char> {
    if col_offset < render.len() {
        cut(render.skip(col_offset as int), columns)
    } else {
        Seq::empty()
    }
}

/// Line `i` of a window of `win_size.0` columns and `win_size.1` lines
/// whose offsets are those of `cursor`: the visible part of the line of the
/// document that stands there; a tilde where the document has ended; the
/// greeting in the line a third down the window if the document has no
/// lines. Then the rest of the line is cleared and the line ends.
pub open spec fn screen_line(
    lines: Seq<Seq<char>>,
    cursor: CursorController,
    win_size: (usize, usize),
    i: nat,
) -> Seq<char> {
    let file_row = i + cursor.row_offset;
    let text = if file_row >= lines.len() {
        if lines.len() == 0 && i == win_size.1 / 3 {
            welcome_line(win_size.0 as nat)
        } else {
            seq!['~']
        }
    } else {
        visible_part(
            expand_tabs(lines[file_row], TAB_STOP as nat),
            cursor.col_offset as nat,
            win_size.0 as nat,
        )
    };
    text + clear_line_code() + line_end()
}

/// The first `n` lines of the window.
pub open spec fn screen_lines(
    lines: Seq<Seq<char>>,
    cursor: CursorController,
    win_size: (usize, usize),
    n: nat,
) -> Seq<char>
    decreases n,
{
    if n == 0 {
        Seq::empty()
    } else {
        screen_lines(lines, cursor, win_size, (n - 1) as nat) + screen_line(
            lines,
            cursor,
            win_size,
            (n - 1) as nat,
        )
    }
}

/// What the status bar says of a document: its name, whether it has
/// changed since it was saved, and the number of its lines.
pub open spec fn status_info(name: Option<Seq<char>>, dirty: u64, num_rows: nat) -> Seq<char> {
    let shown_name = match name {
        Some(n) => n,
        None => "[No Name]"@,
    };
    let modified = if dirty > 0 {
        "(modified)"@
    } else {
        Seq::empty()
    };
    shown_name + " "@ + modified + " -- "@ + decimal(num_rows) + " lines"@
}

/// What the status bar says of the cursor: its line, counted from 1, and
/// the number of lines.
pub open spec fn line_info(cursor_y: nat, num_rows: nat) -> Seq<char> {
    decimal(cursor_y + 1) + "/"@ + decimal(num_rows)
}

/// The text of a status bar of `columns` columns: `info` at the left, cut
/// to the window, and `position` at the right if there is room for it.
pub open spec fn status_text(info: Seq<char>, position: Seq<char>, columns: nat) -> Seq<char> {
    let left = cut(info, columns);
    let room = (columns - left.len()) as nat;
    if position.len() <= room {
        left + spaces((room - position.len()) as nat) + position
    } else {
        left + spaces(room)
    }
}

/// The message bar of a window of `columns` columns that shows `shown`:
/// the line cleared, then the message, cut to the window.
pub open spec fn message_bar(shown: Option<String>, columns: nat) -> Seq<char> {
    match shown {
        Some(m) => clear_line_code() + cut(m@, columns),
        None => clear_line_code(),
    }
}

/// `name` can be what the status bar calls a document whose file is
/// `filename`: a document without a file has no name.
pub open spec fn names(filename: Option<String>, name: Option<Seq<char>>) -> bool {
    filename.is_none() ==> name.is_none()
}

/// The view of an optional string.
pub open spec fn text_of(name: Option<String>) -> Option<Seq<char>> {
    match name {
        Some(n) => Some(n@),
        None => None,
    }
}

impl OutputView {
    /// This state with `text` drawn behind what the frame holds.
    pub open spec fn drawn(self, text: Seq<char>) -> Self {
        OutputView { contents: self.contents + text, ..self }
    }

    /// This state after the window has followed the cursor.
    pub open spec fn scrolled(self) -> Self {
        OutputView { cursor: self.cursor.scrolled(self.lines), ..self }
    }

    /// The lines of the window.
    pub open spec fn rows(self) -> Seq<char> {
        screen_lines(self.lines, self.cursor, self.win_size, self.win_size.1 as nat)
    }

    /// The status bar for a document called `name`: its text in reverse
    /// video, and the end of the line.
    pub open spec fn status_bar(self, name: Option<Seq<char>>) -> Seq<char> {
        attribute_code(TextAttribute::Reverse) + status_text(
            status_info(name, self.dirty, self.lines.len()),
            line_info(self.cursor.cursor_y as nat, self.lines.len()),
            self.win_size.0 as nat,
        ) + attribute_code(TextAttribute::Reset) + line_end()
    }

    /// The code that puts the cursor of the terminal where the cursor of
    /// the document is shown.
    pub open spec fn cursor_code(self) -> Seq<char> {
        move_to_code(
            (self.cursor.render_x - self.cursor.col_offset) as u16,
            (self.cursor.cursor_y - self.cursor.row_offset) as u16,
        )
    }

    /// A whole frame: the cursor hidden and sent to the top left, the
    /// lines of the window, the status bar for the document called `name`,
    /// the message bar with `shown`, and the cursor put in its place and
    /// shown again.
    pub open spec fn frame(self, name: Option<Seq<char>>, shown: Option<String>) -> Seq<char> {
        hide_code() + move_to_code(0, 0) + self.rows() + self.status_bar(name) + message_bar(
            shown,
            self.win_size.0 as nat,
        ) + self.cursor_code() + show_code()
    }

    /// This state after the message bar was drawn `elapsed_nanos` after the
    /// message had been set.
    pub open spec fn with_message_bar(self, elapsed_nanos: u128) -> Self {
        OutputView {
            contents: self.contents + message_bar(
                self.status_message.shown_after(elapsed_nanos),
                self.win_size.0 as nat,
            ),
            status_message: self.status_message.after(elapsed_nanos),
            ..self
        }
    }

    /// This state after a frame was drawn, for a document that the status
    /// bar calls `name`, `elapsed_nanos` after the message had been set: the
    /// window has followed the cursor, and the frame stands behind what had
    /// been drawn before.
    pub open spec fn refreshed(self, name: Option<Seq<char>>, elapsed_nanos: u128) -> Self {
        OutputView {
            contents: self.contents + self.scrolled().frame(
                name,
                self.status_message.shown_after(elapsed_nanos),
            ),
            status_message: self.status_message.after(elapsed_nanos),
            ..self.scrolled()
        }
    }
}

/// Calls `Path::file_name` of `std::path` on `path` and gives the last
/// part of the path as a string, or none where the path has no such part.
/// What counts as a part depends on the system, so nothing is said of it.
#[verifier::external_body]
fn file_name(path: &str) -> Option<String> {
    match Path::new(path).file_name() {
        Some(name) => name.to_str().map(String::from),
        None => None,
    }
}

/// The first `columns` characters of `text`, or all of it if it has no
/// more.
pub fn cut_str(text: &str, columns: usize) -> (shown: &str)
    ensures
        shown@ == cut(text@, columns as nat),
{
    let len: usize = text.unicode_len();
    if columns < len {
        let shown = text.substring_char(0, columns);
        assert(shown@ =~= text@.take(columns as int));
        shown
    } else {
        text
    }
}

/// What the status bar says of a document.
fn status_info_string(name: Option<String>, dirty: u64, num_rows: usize) -> (info: String)
    ensures
        info@ == status_info(text_of(name), dirty, num_rows as nat),
{
    let mut info = match name {
        Some(n) => n,
        None => String::from_str("[No Name]"),
    };
    info.append(" ");
    if dirty > 0 {
        info.append("(modified)");
    }
    let ghost start = info@;
    info.append(" -- ");
    info.append(format_decimal(num_rows as u128).as_str());
    info.append(" lines");
    assert(info@ =~= start + " -- "@ + decimal(num_rows as nat) + " lines"@);
    assert(dirty == 0 ==> start =~= start + Seq::<char>::empty());
    info
}

/// What the status bar says of the cursor.
fn line_info_string(cursor_y: usize, num_rows: usize) -> (info: String)
    ensures
        info@ == line_info(cursor_y as nat, num_rows as nat),
{
    let mut info = format_decimal(cursor_y as u128 + 1);
    info.append("/");
    info.append(format_decimal(num_rows as u128).as_str());
    info
}

impl Output {
    /// Draws line `i` of the window.
    fn add_row(&mut self, i: usize)
        requires
            old(self).wf(),
            i < old(self).win_size.1,
        ensures
            final(self).wf(),
            final(self)@ == old(self)@.drawn(
                screen_line(old(self)@.lines, old(self).cursor, old(self).win_size, i as nat),
            ),
    {
        let screen_rows = self.win_size.1;
        let screen_columns = self.win_size.0;
        let num_rows = self.editor_rows.num_rows();
        let row_offset = self.cursor.row_offset;
        if row_offset < num_rows && i < num_rows - row_offset {
            let row = self.editor_rows.get_render(i + row_offset);
            let col_offset = self.cursor.col_offset;
            let row_len: usize = row.as_str().unicode_len();
            if col_offset < row_len {
                let rest = row.as_str().substring_char(col_offset, row_len);
                assert(rest@ =~= row@.skip(col_offset as int));
                self.editor_contents.push_str(cut_str(rest, screen_columns));
            } else {
                assert(self.editor_contents@ =~= old(self).editor_contents@ + Seq::<char>::empty());
            }
        } else if num_rows == 0 && i == screen_rows / 3 {
            let welcome = "Rust Editor --- Version 1";
            let full: usize = welcome.unicode_len();
            let shown: usize = if full > screen_columns {
                screen_columns
            } else {
                full
            };
            let mut padding: usize = (screen_columns - shown) / 2;
            if padding != 0 {
                self.editor_contents.push('~');
                padding -= 1;
            }
            self.editor_contents.push_spaces(padding);
            self.editor_contents.push_str(welcome.substring_char(0, shown));
            assert(self.editor_contents@ =~= old(self).editor_contents@ + welcome_line(
                screen_columns as nat,
            ));
        } else {
            self.editor_contents.push('~');
            assert(self.editor_contents@ =~= old(self).editor_contents@ + seq!['~']);
        }
        self.editor_contents.push_str(clear_line_string().as_str());
        self.editor_contents.push('\r');
        self.editor_contents.push('\n');
        assert(self@.contents =~= old(self)@.contents + screen_line(
            old(self)@.lines,
            old(self).cursor,
            old(self).win_size,
            i as nat,
        ));
    }

    /// Draws the lines of the window: for each the visible part of the
    /// line of the document that stands there, or a tilde where the
    /// document has ended, or the greeting.
    pub fn add_rows(&mut self)
        requires
            old(self).wf(),
        ensures
            final(self).wf(),
            final(self)@ == old(self)@.drawn(old(self)@.rows()),
    {
        let screen_rows = self.win_size.1;
        let mut i: usize = 0;
        assert(self@.contents =~= old(self)@.contents + screen_lines(
            self@.lines,
            self.cursor,
            self.win_size,
            0,
        ));
        while i < screen_rows
            invariant
                i <= screen_rows == old(self).win_size.1,
                self.wf(),
                self@ == old(self)@.drawn(
                    screen_lines(old(self)@.lines, old(self).cursor, old(self).win_size, i as nat),
                ),
            decreases screen_rows - i,
        {
            self.add_row(i);
            i += 1;
            assert(self@.contents =~= old(self)@.contents + screen_lines(
                old(self)@.lines,
                old(self).cursor,
                old(self).win_size,
                i as nat,
            ));
        }
    }

    /// Draws the status bar, with the last part of the path of the
    /// document's file for its name. Which part that is depends on the
    /// system: [`Output::draw_status_bar_named`] says what is drawn for each
    /// name.
    pub fn draw_status_bar(&mut self)
        requires
            old(self).wf(),
        ensures
            final(self).wf(),
            exists|name: Option<Seq<char>>|
                names(old(self)@.filename, name) && final(self)@ == old(self)@.drawn(
                    old(self)@.status_bar(name),
                ),
    {
        let name = match &self.editor_rows.filename {
            Some(path) => file_name(path.as_str()),
            None => None,
        };
        assert(names(old(self)@.filename, text_of(name)));
        self.draw_status_bar_named(name);
    }

    /// Draws the status bar of the document called `name`, or of a
    /// document without a name: in reverse video and as wide as the window,
    /// at the left the name, a mark if the document has changed, and the
    /// number of lines; at the right the line of the cursor.
    pub fn draw_status_bar_named(&mut self, name: Option<String>)
        requires
            old(self).wf(),
        ensures
            final(self).wf(),
            final(self)@ == old(self)@.drawn(old(self)@.status_bar(text_of(name))),
    {
        let columns = self.win_size.0;
        let info = status_info_string(name, self.dirty, self.editor_rows.num_rows());
        let line_info = line_info_string(self.cursor.cursor_y, self.editor_rows.num_rows());
        self.editor_contents.push_str(attribute_string(TextAttribute::Reverse).as_str());
        let left = cut_str(info.as_str(), columns);
        self.editor_contents.push_str(left);
        let room: usize = columns - left.unicode_len();
        let line_info_len: usize = line_info.as_str().unicode_len();
        if line_info_len <= room {
            self.editor_contents.push_spaces(room - line_info_len);
            self.editor_contents.push_str(line_info.as_str());
        } else {
            self.editor_contents.push_spaces(room);
        }
        let ghost text = status_text(info@, line_info@, columns as nat);
        assert(self.editor_contents@ =~= old(self).editor_contents@ + attribute_code(
            TextAttribute::Reverse,
        ) + text);
        self.editor_contents.push_str(attribute_string(TextAttribute::Reset).as_str());
        self.editor_contents.push('\r');
        self.editor_contents.push('\n');
        assert(self@.contents =~= old(self)@.contents + old(self)@.status_bar(text_of(name)));
    }

    /// Draws the message `shown`, cut to the window, behind a cleared line.
    fn put_message(contents: &mut EditorContents, shown: Option<&String>, columns: usize)
        ensures
            forall|message: Option<String>|
                shows(shown, message) ==> final(contents)@ == old(contents)@ + message_bar(
                    message,
                    columns as nat,
                ),
    {
        contents.push_str(clear_line_string().as_str());
        match shown {
            Some(msg) => {
                contents.push_str(cut_str(msg.as_str(), columns));
                assert(contents@ =~= old(contents)@ + (clear_line_code() + cut(
                    msg@,
                    columns as nat,
                )));
            },
            None => {},
        }
    }

    /// Draws the message bar: the message, unless it was set more than five
    /// seconds ago and is forgotten instead. Which of the two depends on
    /// the clock: [`Output::draw_message_bar_after`] says what is drawn for
    /// each time that has passed.
    pub fn draw_message_bar(&mut self)
        requires
            old(self).wf(),
        ensures
            final(self).wf(),
            exists|elapsed_nanos: u128| final(self)@ == old(self)@.with_message_bar(elapsed_nanos),
    {
        let columns = self.win_size.0;
        let shown = self.status_message.message();
        Self::put_message(&mut self.editor_contents, shown, columns);
        proof {
            let elapsed_nanos = choose|elapsed_nanos: u128|
                self.status_message == old(self).status_message.after(elapsed_nanos) && shows(
                    shown,
                    old(self).status_message.shown_after(elapsed_nanos),
                );
            assert(self@ == old(self)@.with_message_bar(elapsed_nanos));
        }
    }

    /// Draws the message bar as it is `elapsed_nanos` nanoseconds after the
    /// message was set: with the message if that is no more than five
    /// seconds, else empty, the message being forgotten.
    pub fn draw_message_bar_after(&mut self, elapsed_nanos: u128)
        requires
            old(self).wf(),
        ensures
            final(self).wf(),
            final(self)@ == old(self)@.with_message_bar(elapsed_nanos),
    {
        let columns = self.win_size.0;
        let shown = self.status_message.message_after(elapsed_nanos);
        Self::put_message(&mut self.editor_contents, shown, columns);
    }

    /// Hides the cursor, sends it to the top left, and draws the lines of
    /// the window and the status bar.
    fn draw_document(&mut self)
        requires
            old(self).wf(),
        ensures
            final(self).wf(),
            exists|name: Option<Seq<char>>|
                names(old(self)@.filename, name) && final(self)@ == old(self)@.drawn(
                    hide_code() + move_to_code(0, 0) + old(self)@.rows() + old(self)@.status_bar(
                        name,
                    ),
                ),
    {
        self.editor_contents.push_str(hide_string().as_str());
        self.editor_contents.push_str(move_to_string(0, 0).as_str());
        self.add_rows();
        let ghost with_rows = self@;
        self.draw_status_bar();
        proof {
            let name = choose|name: Option<Seq<char>>|
                names(with_rows.filename, name) && self@ == with_rows.drawn(
                    with_rows.status_bar(name),
                );
            assert(with_rows.status_bar(name) == old(self)@.status_bar(name));
            assert(self@.contents =~= old(self)@.contents + (hide_code() + move_to_code(0, 0)
                + old(self)@.rows() + old(self)@.status_bar(name)));
            assert(self@ == old(self)@.drawn(
                hide_code() + move_to_code(0, 0) + old(self)@.rows() + old(self)@.status_bar(name),
            ));
        }
    }

    /// Puts the cursor of the terminal where the cursor of the document is
    /// shown, and shows it.
    fn draw_cursor(&mut self)
        requires
            old(self).wf(),
            old(self).cursor.col_offset <= old(self).cursor.render_x < old(self).cursor.col_offset
                + old(self).win_size.0,
            old(self).cursor.row_offset <= old(self).cursor.cursor_y < old(self).cursor.row_offset
                + old(self).win_size.1,
        ensures
            final(self).wf(),
            final(self)@ == old(self)@.drawn(old(self)@.cursor_code() + show_code()),
    {
        let cursor_x = self.cursor.render_x - self.cursor.col_offset;
        let cursor_y = self.cursor.cursor_y - self.cursor.row_offset;
        self.editor_contents.push_str(move_to_string(cursor_x as u16, cursor_y as u16).as_str());
        self.editor_contents.push_str(show_string().as_str());
        assert(self@.contents =~= old(self)@.contents + (old(self)@.cursor_code() + show_code()));
    }

    /// Draws a frame: lets the window follow the cursor, then draws the
    /// lines of the window, the status bar and the message bar, and puts
    /// the cursor in its place. The name in the status bar depends on the
    /// system and the message bar on the clock, as
    /// [`Output::draw_status_bar`] and [`Output::draw_message_bar`] say.
    pub fn refresh_screen(&mut self)
        requires
            old(self).wf(),
            old(self).has_window(),
        ensures
            final(self).wf(),
            exists|name: Option<Seq<char>>, elapsed_nanos: u128|
                names(old(self)@.filename, name) && final(self)@ == old(self)@.refreshed(
                    name,
                    elapsed_nanos,
                ),
    {
        self.cursor.scroll(&self.editor_rows);
        let ghost scrolled = self@;
        self.draw_document();
        let ghost with_document = self@;
        self.draw_message_bar();
        let ghost with_message = self@;
        self.draw_cursor();
        proof {
            let name = choose|name: Option<Seq<char>>|
                names(scrolled.filename, name) && with_document == scrolled.drawn(
                    hide_code() + move_to_code(0, 0) + scrolled.rows() + scrolled.status_bar(name),
                );
            let elapsed_nanos = choose|elapsed_nanos: u128|
                with_message == with_document.with_message_bar(elapsed_nanos);
            let shown = old(self).status_message.shown_after(elapsed_nanos);
            assert(scrolled == old(self)@.scrolled());
            assert(with_message.cursor_code() == scrolled.cursor_code());
            assert(self@.contents =~= old(self)@.contents + scrolled.frame(name, shown));
            assert(self@ == old(self)@.refreshed(name, elapsed_nanos));
        }
    }
}

} // verus!
