//! The cursor in the document and the window of the screen.
//!
//! Three positions are kept apart: the place of the cursor in its line,
//! counted in characters; the column in which that place is shown, counted
//! after tabs are expanded; and the cell of the screen, which is the column
//! and line less the offsets of the window.

use crate::row::Row;
use crate::rows::EditorRows;
use crate::tabs::{lemma_render_width_prefix, lemma_expand_tabs_len, render_width, TAB_STOP};
use crate::text::lemma_chars_fit_in_bytes;
use vstd::prelude::*;
use vstd::string::*;

verus! {

/// A way to move the cursor.
#[derive(Clone, Copy, Debug, PartialEq, Eq, Structural)]
pub enum Direction {
    Up,
    Down,
    Left,
    Right,
    Home,
    End,
}

/// Where the cursor is, and which part of the document the screen shows.
pub struct CursorController {
    /// The place of the cursor in its line, counted in characters.
    pub cursor_x: usize,
    /// The line of the cursor; the number of lines for the empty line that
    /// follows the last one.
    pub cursor_y: usize,
    /// The number of columns of the window.
    pub screen_columns: usize,
    /// The number of lines of the window.
    pub screen_rows: usize,
    /// The line of the document shown in the first line of the window.
    pub row_offset: usize,
    /// The column shown in the first column of the window.
    pub col_offset: usize,
    /// The column in which the cursor is shown, as of the last scroll.
    pub render_x: usize,
}

/// The length of line `y`, and 0 for the empty line after the last one.
pub open spec fn line_len(lines: Seq<Seq<char>>, y: int) -> nat {
    if 0 <= y < lines.len() {
        lines[y].len()
    } else {
        0
    }
}

/// The column in which the place `x` of line `y` is shown.
pub open spec fn render_column(lines: Seq<Seq<char>>, x: int, y: int) -> nat {
    if 0 <= y < lines.len() {
        render_width(lines[y].take(x), TAB_STOP as nat)
    } else {
        0
    }
}

/// The place to which `direction` moves the cursor from place `x` of line
/// `y`, before the place is held within the line.
pub open spec fn step(lines: Seq<Seq<char>>, x: nat, y: nat, direction: Direction) -> (nat, nat) {
    match direction {
        Direction::Up => (x, if y > 0 { (y - 1) as nat } else { 0 }),
        Direction::Down => (x, if y < lines.len() { y + 1 } else { y }),
        Direction::Left => (if x > 0 { (x - 1) as nat } else { 0 }, y),
        Direction::Right => if y < lines.len() && x < lines[y as int].len() {
            (x + 1, y)
        } else if y < lines.len() && x == lines[y as int].len() {
            (0, y + 1)
        } else {
            (x, y)
        },
        Direction::Home => (0, y),
        Direction::End => (if y < lines.len() { lines[y as int].len() } else { x }, y),
    }
}

/// The place to which `direction` moves the cursor from place `x` of line
/// `y`: as `step` says, and no further right than the end of the line
/// reached.
pub open spec fn moved(lines: Seq<Seq<char>>, x: nat, y: nat, direction: Direction) -> (nat, nat) {
    let (to_x, to_y) = step(lines, x, y, direction);
    (if to_x <= line_len(lines, to_y as int) { to_x } else { line_len(lines, to_y as int) }, to_y)
}

/// The place of the cursor after the moves `directions`, made in order from
/// place `x` of line `y`.
pub open spec fn moved_all(lines: Seq<Seq<char>>, x: nat, y: nat, directions: Seq<Direction>) -> (
    nat,
    nat,
)
    decreases directions.len(),
{
    if directions.len() == 0 {
        (x, y)
    } else {
        let (from_x, from_y) = moved_all(lines, x, y, directions.drop_last());
        moved(lines, from_x, from_y, directions.last())
    }
}

/// The offset of a window of `size` cells that showed the cells from
/// `offset` on, after it has followed the position `pos`: it moves up to
/// `pos` if that lies before it, and just far enough for `pos` to be its
/// last cell if that lies behind it.
pub open spec fn follow(offset: nat, pos: nat, size: nat) -> nat {
    let low = if offset <= pos { offset } else { pos };
    if pos >= low + size {
        (pos - size + 1) as nat
    } else {
        low
    }
}

/// A window that has at least one cell holds the position that it has
/// followed.
pub proof fn lemma_follow_contains(offset: nat, pos: nat, size: nat)
    requires
        size > 0,
    ensures
        follow(offset, pos, size) <= pos < follow(offset, pos, size) + size,
{
}

/// After the window has followed the cursor, the line of the cursor is one
/// of the lines of the window, if the window has a line at all; and the
/// column of the cursor is one of its columns, if it has a column at all
/// and the column is one that a machine can count to.
pub proof fn lemma_scrolled_window_holds_cursor(c: CursorController, lines: Seq<Seq<char>>)
    ensures
        c.screen_rows > 0 ==> c.scrolled(lines).row_offset <= c.scrolled(lines).cursor_y
            < c.scrolled(lines).row_offset + c.scrolled(lines).screen_rows,
        c.screen_columns > 0 && render_column(lines, c.cursor_x as int, c.cursor_y as int)
            <= usize::MAX ==> c.scrolled(lines).col_offset <= c.scrolled(lines).render_x
            < c.scrolled(lines).col_offset + c.scrolled(lines).screen_columns,
{
}

/// After a move the cursor stands within its line, wherever it stood
/// before; and it stands within the document if it did so before.
pub proof fn lemma_moved_in_line(lines: Seq<Seq<char>>, x: nat, y: nat, direction: Direction)
    ensures
        moved(lines, x, y, direction).0 <= line_len(lines, moved(lines, x, y, direction).1 as int),
        y <= lines.len() ==> moved(lines, x, y, direction).1 <= lines.len(),
{
}

/// After one move or more, in whatever directions, the cursor stands
/// within its line.
pub proof fn lemma_moved_all_in_line(
    lines: Seq<Seq<char>>,
    x: nat,
    y: nat,
    directions: Seq<Direction>,
)
    requires
        directions.len() > 0,
    ensures
        moved_all(lines, x, y, directions).0 <= line_len(
            lines,
            moved_all(lines, x, y, directions).1 as int,
        ),
{
    let (from_x, from_y) = moved_all(lines, x, y, directions.drop_last());
    lemma_moved_in_line(lines, from_x, from_y, directions.last());
}

impl CursorController {
    /// The cursor stands on a line of `lines` or on the empty line after
    /// the last one, and within that line.
    pub open spec fn in_document(&self, lines: Seq<Seq<char>>) -> bool {
        &&& self.cursor_y <= lines.len()
        &&& self.cursor_x <= line_len(lines, self.cursor_y as int)
    }

    /// This controller with the cursor at place `x` of line `y`.
    pub open spec fn at(self, x: usize, y: usize) -> Self {
        CursorController { cursor_x: x, cursor_y: y, ..self }
    }

    /// This controller after its window has followed the cursor through
    /// `lines`: the column of the cursor found, and both offsets moved as
    /// [`follow`] says.
    pub open spec fn scrolled(self, lines: Seq<Seq<char>>) -> Self {
        let render_x = render_column(lines, self.cursor_x as int, self.cursor_y as int);
        CursorController {
            render_x: render_x as usize,
            row_offset: follow(
                self.row_offset as nat,
                self.cursor_y as nat,
                self.screen_rows as nat,
            ) as usize,
            col_offset: follow(self.col_offset as nat, render_x, self.screen_columns as nat) as usize,
            ..self
        }
    }

    /// The controller at the start: see [`CursorController::new`].
    pub open spec fn start(win_size: (usize, usize)) -> Self {
        CursorController {
            cursor_x: 0,
            cursor_y: 0,
            screen_columns: win_size.0,
            screen_rows: win_size.1,
            row_offset: 0,
            col_offset: 0,
            render_x: 0,
        }
    }

    /// The cursor at the start of the document, in a window of
    /// `win_size.0` columns and `win_size.1` lines that shows the document
    /// from its start.
    pub fn new(win_size: (usize, usize)) -> (cursor: Self)
        ensures
            cursor == Self::start(win_size),
    {
        Self {
            cursor_x: 0,
            cursor_y: 0,
            screen_columns: win_size.0,
            screen_rows: win_size.1,
            row_offset: 0,
            col_offset: 0,
            render_x: 0,
        }
    }

    /// Finds the column in which the cursor is shown and moves the window
    /// so that it holds the cursor: up or left to the cursor if the cursor
    /// lies before the window, down or right just far enough if it lies
    /// behind. The cursor itself stays.
    pub fn scroll(&mut self, editor_rows: &EditorRows)
        requires
            editor_rows.wf(),
            old(self).in_document(editor_rows@),
            old(self).screen_rows > 0 || old(self).cursor_y < usize::MAX,
            old(self).screen_columns > 0 || render_column(
                editor_rows@,
                old(self).cursor_x as int,
                old(self).cursor_y as int,
            ) < usize::MAX,
        ensures
            *final(self) == old(self).scrolled(editor_rows@),
            final(self).screen_rows > 0 ==> final(self).row_offset <= final(self).cursor_y
                < final(self).row_offset + final(self).screen_rows,
            final(self).screen_columns > 0 ==> final(self).col_offset <= final(self).render_x
                < final(self).col_offset + final(self).screen_columns,
    {
        self.render_x = 0;
        if self.cursor_y < editor_rows.num_rows() {
            self.render_x = self.get_render_x(editor_rows.get_editor_row(self.cursor_y));
        }
        if self.cursor_y < self.row_offset {
            self.row_offset = self.cursor_y;
        }
        if self.cursor_y - self.row_offset >= self.screen_rows {
            self.row_offset = self.cursor_y - self.screen_rows + 1;
        }
        if self.render_x < self.col_offset {
            self.col_offset = self.render_x;
        }
        if self.render_x - self.col_offset >= self.screen_columns {
            self.col_offset = self.render_x - self.screen_columns + 1;
        }
    }

    /// Moves the cursor one step in `direction` through the document
    /// `editor_rows`, and then holds it within the line that it has
    /// reached. Up and down stop at the first line and at the empty line
    /// after the last one; left stops at the start of the line; right goes
    /// on from the end of a line to the start of the next.
    pub fn move_cursor(&mut self, direction: Direction, editor_rows: &EditorRows)
        ensures
            (final(self).cursor_x as nat, final(self).cursor_y as nat) == moved(
                editor_rows@,
                old(self).cursor_x as nat,
                old(self).cursor_y as nat,
                direction,
            ),
            *final(self) == old(self).at(final(self).cursor_x, final(self).cursor_y),
            final(self).cursor_x <= line_len(editor_rows@, final(self).cursor_y as int),
            old(self).cursor_y <= editor_rows@.len() ==> final(self).cursor_y <= editor_rows@.len(),
    {
        let num_rows = editor_rows.num_rows();
        match direction {
            Direction::Up => {
                if self.cursor_y > 0 {
                    self.cursor_y -= 1;
                }
            },
            Direction::Left => {
                if self.cursor_x != 0 {
                    self.cursor_x -= 1;
                }
            },
            Direction::Down => {
                if self.cursor_y < num_rows {
                    self.cursor_y += 1;
                }
            },
            Direction::Right => {
                if self.cursor_y < num_rows {
                    let len: usize = editor_rows.get_editor_row(self.cursor_y).len();
                    if self.cursor_x < len {
                        self.cursor_x += 1;
                    } else if self.cursor_x == len {
                        self.cursor_y += 1;
                        self.cursor_x = 0;
                    }
                }
            },
            Direction::Home => {
                self.cursor_x = 0;
            },
            Direction::End => {
                if self.cursor_y < num_rows {
                    self.cursor_x = editor_rows.get_editor_row(self.cursor_y).len();
                }
            },
        }
        let row_len: usize = if self.cursor_y < num_rows {
            editor_rows.get_editor_row(self.cursor_y).len()
        } else {
            0
        };
        if self.cursor_x > row_len {
            self.cursor_x = row_len;
        }
    }

    /// The column in which the cursor is shown when it stands in `row`:
    /// the column that follows the characters before the cursor.
    pub fn get_render_x(&self, row: &Row) -> (render_x: usize)
        requires
            row.wf(),
            self.cursor_x <= row@.len(),
        ensures
            render_x == render_width(row@.take(self.cursor_x as int), TAB_STOP as nat),
    {
        let before = row.row_contents.as_str().substring_char(0, self.cursor_x);
        let shown: usize = row.render.as_str().as_bytes().len();
        proof {
            lemma_chars_fit_in_bytes(row.render@);
            lemma_expand_tabs_len(row@, TAB_STOP as nat);
            assert(before@ =~= row@.take(self.cursor_x as int));
        }
        let mut render_x: usize = 0;
        for c in it: before.chars()
            invariant
                it.seq() == before@,
                before@ == row@.take(self.cursor_x as int),
                self.cursor_x <= row@.len(),
                render_width(row@, TAB_STOP as nat) <= shown,
                render_x == render_width(before@.take(it.index()), TAB_STOP as nat),
        {
            proof {
                let seen = before@.take(it.index() + 1);
                assert(seen.drop_last() =~= before@.take(it.index()));
                assert(seen =~= row@.take(it.index() + 1));
                lemma_render_width_prefix(row@, it.index() + 1, TAB_STOP as nat);
            }
            if c == '\t' {
                render_x = render_x + (TAB_STOP - (render_x % TAB_STOP));
            } else {
                render_x = render_x + 1;
            }
        }
        assert(before@.take(before@.len() as int) =~= before@);
        render_x
    }
}

} // verus!
