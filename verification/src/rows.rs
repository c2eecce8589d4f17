//! The document: its lines in order, and the file that it belongs to.

use crate::lines::{join_lines, scan_lines, split_lines};
use crate::row::Row;
use crate::tabs::{expand_tabs, lemma_tab_target_is_next_stop, spaces, tab_target, TAB_STOP};
use crate::text::{pop_char, push_char, slice_chars};
use vstd::utf8::encode_utf8;
use vstd::prelude::*;
use vstd::string::*;

verus! {

/// Why an operation on the document or its file did not succeed.
#[derive(Clone, Copy, Debug, PartialEq, Eq, Structural)]
pub enum EditorError {
    /// The file could not be read, or does not hold text.
    ReadFailure,
    /// The file could not be written.
    WriteFailure,
    /// The document has no file name to be saved under.
    NoFileName,
}

impl EditorError {
    /// What the message bar says of the failure.
    pub open spec fn text(self) -> Seq<char> {
        match self {
            EditorError::ReadFailure => "Can't open! The file could not be read"@,
            EditorError::WriteFailure => "Can't save! The file could not be written"@,
            EditorError::NoFileName => "no file name specified"@,
        }
    }

    /// What the message bar says of the failure.
    pub fn message(&self) -> (message: String)
        ensures
            message@ == self.text(),
    {
        match self {
            EditorError::ReadFailure => String::from_str("Can't open! The file could not be read"),
            EditorError::WriteFailure => String::from_str(
                "Can't save! The file could not be written",
            ),
            EditorError::NoFileName => String::from_str("no file name specified"),
        }
    }
}

/// Where the document comes from when the editor starts.
pub enum Source {
    /// No file was named.
    Untitled,
    /// The file at `path` was read and holds `text`.
    File { path: String, text: String },
    /// A file was named, but it could not be read.
    Unreadable,
}

/// What has to be written where to save the document.
pub struct SaveRequest {
    /// The file to overwrite.
    pub path: String,
    /// The whole of its new contents.
    pub contents: String,
    /// The number of bytes of the new contents.
    pub bytes: usize,
}

/// The lines of a document, the first line first.
pub struct EditorRows {
    /// The lines.
    pub row_contents: Vec<Row>,
    /// The file that the document is saved to, if it has one.
    pub filename: Option<String>,
}

/// The text of each row.
pub open spec fn texts(rows: Seq<Row>) -> Seq<Seq<char>> {
    Seq::new(rows.len(), |i: int| rows[i]@)
}

/// Every row is shown as its text says.
pub open spec fn all_rendered(rows: Seq<Row>) -> bool {
    forall|i: int| 0 <= i < rows.len() ==> (#[trigger] rows[i]).wf()
}

/// The form in which each of `lines` is shown.
pub open spec fn shown_lines(lines: Seq<Seq<char>>) -> Seq<Seq<char>> {
    Seq::new(lines.len(), |i: int| expand_tabs(lines[i], TAB_STOP as nat))
}

/// The shown form of each row.
pub open spec fn renders(rows: Seq<Row>) -> Seq<Seq<char>> {
    Seq::new(rows.len(), |i: int| rows[i].render@)
}

/// Rows that are all rendered show what their texts say; so documents with
/// the same lines are shown in the same form.
pub proof fn lemma_rendered_rows_show_their_lines(rows: Seq<Row>)
    requires
        all_rendered(rows),
    ensures
        renders(rows) == shown_lines(texts(rows)),
{
    assert(renders(rows) =~= shown_lines(texts(rows)));
}

/// The lines after line `y` has been broken before its character `x`: the
/// characters from `x` on form a new line that follows line `y`.
pub open spec fn split_rows(lines: Seq<Seq<char>>, y: int, x: int) -> Seq<Seq<char>>
    recommends
        0 <= y < lines.len(),
        0 <= x <= lines[y].len(),
{
    lines.update(y, lines[y].take(x)).insert(y + 1, lines[y].skip(x))
}

/// The lines after line `y` has been appended to the line before it.
pub open spec fn join_rows(lines: Seq<Seq<char>>, y: int) -> Seq<Seq<char>>
    recommends
        1 <= y < lines.len(),
{
    lines.update(y - 1, lines[y - 1] + lines[y]).remove(y)
}

/// Breaking a line and joining the two halves again gives the document
/// back, whatever the line and wherever the break.
pub proof fn lemma_split_then_join(lines: Seq<Seq<char>>, y: int, x: int)
    requires
        0 <= y < lines.len(),
        0 <= x <= lines[y].len(),
    ensures
        join_rows(split_rows(lines, y, x), y + 1) == lines,
        split_rows(lines, y, x)[y] + split_rows(lines, y, x)[y + 1] == lines[y],
{
    assert(lines[y].take(x) + lines[y].skip(x) =~= lines[y]);
    assert(join_rows(split_rows(lines, y, x), y + 1) =~= lines);
}

impl View for EditorRows {
    type V = Seq<Seq<char>>;

    /// A document stands for the texts of its lines.
    open spec fn view(&self) -> Seq<Seq<char>> {
        texts(self.row_contents@)
    }
}

impl EditorRows {
    /// Every line of the document is shown as its text says.
    pub open spec fn wf(&self) -> bool {
        all_rendered(self.row_contents@)
    }

    /// The document at the start: the lines of the file that was read, under
    /// its name, or else no lines and no name.
    pub fn new(source: Source) -> (rows: Self)
        ensures
            rows.wf(),
            match source {
                Source::File { path, text } => rows.filename == Some(path) && rows@ == split_lines(
                    text@,
                ),
                _ => rows.filename.is_none() && rows@.len() == 0,
            },
    {
        match source {
            Source::File { path, text } => Self::from_file(path, text.as_str()),
            _ => Self { row_contents: Vec::new(), filename: None },
        }
    }

    /// The document that the text of the file named `file` holds.
    pub fn from_file(file: String, file_contents: &str) -> (rows: Self)
        ensures
            rows.wf(),
            rows.filename == Some(file),
            rows@ == split_lines(file_contents@),
    {
        let mut done: Vec<Row> = Vec::new();
        let mut current = String::new();
        let mut after_cr = false;
        for c in it: file_contents.chars()
            invariant
                it.seq() == file_contents@,
                all_rendered(done@),
                texts(done@) == scan_lines(file_contents@.take(it.index())).0,
                current@ == scan_lines(file_contents@.take(it.index())).1,
                after_cr == (current@.len() > 0 && current@.last() == '\r'),
        {
            proof {
                let seen = file_contents@.take(it.index() + 1);
                assert(seen.drop_last() =~= file_contents@.take(it.index()));
            }
            if c == '\n' {
                let ghost before = done@;
                if after_cr {
                    pop_char(&mut current);
                }
                let mut row = Row::new(current, String::new());
                Self::render_row(&mut row);
                done.push(row);
                current = String::new();
                after_cr = false;
                assert(texts(done@) =~= texts(before).push(row@));
            } else {
                push_char(&mut current, c);
                after_cr = c == '\r';
            }
        }
        assert(file_contents@.take(file_contents@.len() as int) =~= file_contents@);
        if !current.as_str().is_empty() {
            let ghost before = done@;
            let mut row = Row::new(current, String::new());
            Self::render_row(&mut row);
            done.push(row);
            assert(texts(done@) =~= texts(before).push(row@));
        }
        Self { row_contents: done, filename: Some(file) }
    }

    /// Puts a new line with the text `contents` before line `at`; with `at`
    /// the number of lines, after the last line.
    pub fn insert_row(&mut self, at: usize, contents: String)
        requires
            old(self).wf(),
            at <= old(self)@.len(),
        ensures
            final(self).wf(),
            final(self)@ == old(self)@.insert(at as int, contents@),
            final(self).filename == old(self).filename,
    {
        let mut new_row = Row::new(contents, String::new());
        EditorRows::render_row(&mut new_row);
        self.row_contents.insert(at, new_row);
        assert(final(self)@ =~= old(self)@.insert(at as int, contents@));
    }

    /// Line `at` as it is shown.
    pub fn get_render(&self, at: usize) -> (render: &String)
        requires
            at < self@.len(),
        ensures
            *render == self.row_contents@[at as int].render,
            self.wf() ==> render@ == expand_tabs(self@[at as int], TAB_STOP as nat),
    {
        &self.row_contents[at].render
    }

    /// Line `at`.
    pub fn get_editor_row(&self, at: usize) -> (row: &Row)
        requires
            at < self@.len(),
        ensures
            *row == self.row_contents@[at as int],
    {
        &self.row_contents[at]
    }

    /// Line `at`, to be changed in place.
    pub fn get_editor_row_mut(&mut self, at: usize) -> (row: &mut Row)
        requires
            at < old(self)@.len(),
        ensures
            *row == old(self).row_contents@[at as int],
            final(self).row_contents@ == old(self).row_contents@.update(at as int, *final(row)),
            final(self).filename == old(self).filename,
    {
        &mut self.row_contents[at]
    }

    /// The number of lines.
    pub fn num_rows(&self) -> (n: usize)
        ensures
            n == self@.len(),
    {
        self.row_contents.len()
    }

    /// Renders `row` anew from its text: every tab becomes the spaces that
    /// lead to the next tab stop, every other character stays.
    pub fn render_row(row: &mut Row)
        ensures
            final(row).row_contents == old(row).row_contents,
            final(row).wf(),
    {
        let mut render = String::new();
        let mut idx: usize = 0;
        for c in it: row.row_contents.as_str().chars()
            invariant
                it.seq() == row.row_contents@,
                render@ == expand_tabs(row.row_contents@.take(it.index()), TAB_STOP as nat),
                idx == render@.len() % (TAB_STOP as nat),
        {
            proof {
                let seen = row.row_contents@.take(it.index() + 1);
                assert(seen.drop_last() =~= row.row_contents@.take(it.index()));
                lemma_tab_target_is_next_stop(render@.len(), TAB_STOP as nat);
            }
            let ghost before = render@;
            idx = (idx + 1) % TAB_STOP;
            if c == '\t' {
                push_char(&mut render, ' ');
                while idx != 0
                    invariant
                        before.len() < render@.len() <= tab_target(before.len(), TAB_STOP as nat),
                        render@ == before + spaces((render@.len() - before.len()) as nat),
                        idx == render@.len() % (TAB_STOP as nat),
                    decreases tab_target(before.len(), TAB_STOP as nat) - render@.len(),
                {
                    push_char(&mut render, ' ');
                    idx = (idx + 1) % TAB_STOP;
                    assert(render@ =~= before + spaces((render@.len() - before.len()) as nat));
                }
            } else {
                push_char(&mut render, c);
            }
        }
        assert(row.row_contents@.take(row.row_contents@.len() as int) =~= row.row_contents@);
        row.render = render;
    }

    /// The text of line `at`.
    pub fn get_row(&self, at: usize) -> (text: &str)
        requires
            at < self@.len(),
        ensures
            text@ == self@[at as int],
    {
        self.row_contents[at].row_contents.as_str()
    }

    /// What saving the document takes: the name of its file, the text to
    /// write there, which is the lines joined by line feeds, and the number
    /// of bytes that this text has in the file. Fails if the document has
    /// no file name.
    pub fn save(&self) -> (request: Result<SaveRequest, EditorError>)
        ensures
            self.filename.is_none() <==> request.is_err(),
            request matches Err(e) ==> e == EditorError::NoFileName,
            request matches Ok(r) ==> {
                &&& self.filename == Some(r.path)
                &&& r.contents@ == join_lines(self@)
                &&& r.bytes == encode_utf8(r.contents@).len()
            },
    {
        match &self.filename {
            None => Err(EditorError::NoFileName),
            Some(name) => {
                let mut contents = String::new();
                let n: usize = self.row_contents.len();
                let mut i: usize = 0;
                while i < n
                    invariant
                        n == self.row_contents@.len(),
                        i <= n,
                        contents@ == join_lines(self@.take(i as int)),
                    decreases n - i,
                {
                    if i > 0 {
                        push_char(&mut contents, '\n');
                    }
                    contents.append(self.row_contents[i].row_contents.as_str());
                    proof {
                        let lines = self@.take(i + 1);
                        assert(lines.drop_last() =~= self@.take(i as int));
                        assert(lines.last() == self@[i as int]);
                        if i == 0 {
                            assert(contents@ =~= lines[0]);
                        }
                    }
                    i += 1;
                }
                assert(self@.take(n as int) =~= self@);
                let bytes: usize = contents.as_str().as_bytes().len();
                Ok(SaveRequest { path: name.clone(), contents, bytes })
            },
        }
    }

    /// Breaks line `y` before its character `x`: the line keeps what stands
    /// before, and what follows becomes a new line right after it.
    pub fn split_at(&mut self, y: usize, x: usize)
        requires
            old(self).wf(),
            y < old(self)@.len(),
            x <= old(self)@[y as int].len(),
        ensures
            final(self).wf(),
            final(self)@ == split_rows(old(self)@, y as int, x as int),
            final(self).filename == old(self).filename,
    {
        assert(y + 1 <= self.row_contents.len() <= usize::MAX);
        let cur_row = self.get_editor_row_mut(y);
        let n: usize = cur_row.len();
        let new_row_content = slice_chars(cur_row.row_contents.as_str(), x, n);
        cur_row.set_content(slice_chars(cur_row.row_contents.as_str(), 0, x));
        assert(self@ =~= old(self)@.update(y as int, old(self)@[y as int].take(x as int)));
        assert(new_row_content@ =~= old(self)@[y as int].skip(x as int));
        self.insert_row(y + 1, new_row_content);
    }

    /// Appends line `at` to the line before it and takes line `at` out.
    pub fn join_adjacent_rows(&mut self, at: usize)
        requires
            old(self).wf(),
            1 <= at < old(self)@.len(),
        ensures
            final(self).wf(),
            final(self)@ == join_rows(old(self)@, at as int),
            final(self).filename == old(self).filename,
    {
        let cur_row = self.row_contents.remove(at);
        let prev_row = self.get_editor_row_mut(at - 1);
        prev_row.row_contents.append(cur_row.row_contents.as_str());
        Self::render_row(prev_row);
        assert(final(self)@ =~= join_rows(old(self)@, at as int));
    }
}

} // verus!
