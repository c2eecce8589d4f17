//! What each key does.
//!
//! The editor reads no key and writes no file itself. It is handed each key
//! that was pressed and says what is to be done next; where that is to ask
//! for a file name or to write the file, it is handed the outcome and goes
//! on from there.

use crate::cursor::{line_len, Direction};
use crate::keys::{Key, KeyPress, Modifiers};
use crate::lines::join_lines;
use crate::output::{Output, OutputView, RESERVED_LINES};
use crate::rows::{EditorError, SaveRequest, Source};
use crate::text::{decimal, format_decimal, pop_char, push_char};
use vstd::prelude::*;
use vstd::string::*;
use vstd::utf8::encode_utf8;

verus! {

/// How often the key to quit warns of changes that are not saved before it
/// leaves the editor all the same.
pub const QUIT_TIMES: u8 = 3;

/// The editor: its state, and how many more times the key to quit has to be
/// pressed before a changed document is left.
pub struct Editor {
    pub output: Output,
    pub quit_times: u8,
}

/// What is to be done after a key.
pub enum Action {
    /// Draw the next frame and read the next key.
    Continue,
    /// Leave the editor.
    Quit,
    /// Ask for the name of the file to save to, and hand the answer to
    /// [`Editor::save_as`].
    AskFileName,
    /// Write the file, and hand the outcome to [`Editor::save_finished`].
    Save(SaveRequest),
}

/// What an [`Action`] stands for. To save is to write `contents`, which
/// has `bytes` bytes, to the file `path`.
pub enum ActionView {
    Continue,
    Quit,
    AskFileName,
    Save { path: String, contents: Seq<char>, bytes: nat },
}

impl View for Action {
    type V = ActionView;

    open spec fn view(&self) -> ActionView {
        match self {
            Action::Continue => ActionView::Continue,
            Action::Quit => ActionView::Quit,
            Action::AskFileName => ActionView::AskFileName,
            Action::Save(request) => ActionView::Save {
                path: request.path,
                contents: request.contents@,
                bytes: request.bytes as nat,
            },
        }
    }
}

/// What an [`Editor`] stands for.
pub struct EditorView {
    pub output: OutputView,
    pub quit_times: u8,
}

/// What a key leads to: the state of the editor but for its message, the
/// text of the message if a new one is set, and what is to be done next.
pub struct Outcome {
    pub editor: EditorView,
    pub message: Option<Seq<char>>,
    pub action: ActionView,
}

/// The message that warns of changes that are not saved, when the key to
/// quit has to be pressed `quit_times` more times.
pub open spec fn quit_warning(quit_times: u8) -> Seq<char> {
    "WARNING! File has unsaved changes. Press CTRL-Q "@ + decimal(quit_times as nat)
        + " more times to quit"@
}

/// The message after the file was written with `bytes` bytes.
pub open spec fn saved_text(bytes: usize) -> Seq<char> {
    decimal(bytes as nat) + " bytes written to disk"@
}

/// The message after no name was given to save under.
pub open spec fn save_aborted_text() -> Seq<char> {
    "Save Aborted"@
}

/// The message that asks for a file name, of which `input` has been typed.
pub open spec fn save_prompt(input: Seq<char>) -> Seq<char> {
    "Save as: "@ + input + " (ESC to cancel)"@
}

impl OutputView {
    /// This state with the cursor held within the line that it stands on.
    pub open spec fn held_in_line(self) -> Self {
        let len = line_len(self.lines, self.cursor.cursor_y as int);
        if self.cursor.cursor_x <= len {
            self
        } else {
            OutputView { cursor: self.cursor.at(len as usize, self.cursor.cursor_y), ..self }
        }
    }

    /// After PageUp: the cursor stands in the first line of the window, or
    /// after the last line of the document if the window starts beyond it,
    /// and within the line.
    pub open spec fn with_page_up(self) -> Self {
        let y = if self.cursor.row_offset <= self.lines.len() {
            self.cursor.row_offset
        } else {
            self.lines.len() as usize
        };
        (OutputView { cursor: self.cursor.at(self.cursor.cursor_x, y), ..self }).held_in_line()
    }

    /// After PageDown: the cursor stands in the last line of the window, or
    /// after the last line of the document if the window ends beyond it,
    /// and within the line.
    pub open spec fn with_page_down(self) -> Self {
        let bottom = self.win_size.1 + self.cursor.row_offset - 1;
        let y = if bottom <= self.lines.len() {
            bottom as usize
        } else {
            self.lines.len() as usize
        };
        (OutputView { cursor: self.cursor.at(self.cursor.cursor_x, y), ..self }).held_in_line()
    }

    /// After Delete: as after the cursor has moved right and Backspace.
    pub open spec fn with_delete(self) -> Self {
        self.with_move(Direction::Right).without_char()
    }
}

impl EditorView {
    /// The outcome of a key that has changed the state to `output` and
    /// calls for nothing else: the key to quit counts from the start again.
    pub open spec fn done(self, output: OutputView) -> Outcome {
        Outcome {
            editor: EditorView { output, quit_times: QUIT_TIMES },
            message: None,
            action: ActionView::Continue,
        }
    }

    /// To write the lines of the document, joined by line feeds, to the
    /// file `path`.
    pub open spec fn write_to(self, path: String) -> ActionView {
        let contents = join_lines(self.output.lines);
        ActionView::Save { path, contents, bytes: encode_utf8(contents).len() }
    }

    /// What to do to save the document: ask for a name if it has none, else
    /// write it to its file.
    pub open spec fn save_action(self) -> ActionView {
        match self.output.filename {
            Some(path) => self.write_to(path),
            None => ActionView::AskFileName,
        }
    }

    /// What the key `key` leads to.
    ///
    /// Control-Q leaves the editor, but as long as the document has changes
    /// that are not saved and the count has not run out, it warns and
    /// counts down instead. The arrow keys, Home and End move the cursor;
    /// PageUp and PageDown put it at the top and the bottom of the window.
    /// A character or a tab is typed. Control-S saves the document. Enter
    /// breaks the line, Backspace and Delete delete. Any other key does
    /// nothing. Every key but Control-Q and Control-S starts the count
    /// anew.
    pub open spec fn after_key(self, key: KeyPress) -> Outcome {
        if key.is_control('q') {
            if self.output.dirty > 0 && self.quit_times > 0 {
                Outcome {
                    editor: EditorView { quit_times: (self.quit_times - 1) as u8, ..self },
                    message: Some(quit_warning(self.quit_times)),
                    action: ActionView::Continue,
                }
            } else {
                Outcome { editor: self, message: None, action: ActionView::Quit }
            }
        } else if key.direction() is Some {
            self.done(self.output.with_move(key.direction()->0))
        } else if key.is_plain(Key::PageUp) {
            self.done(self.output.with_page_up())
        } else if key.is_plain(Key::PageDown) {
            self.done(self.output.with_page_down())
        } else if key.typed() is Some {
            self.done(self.output.with_char(key.typed()->0))
        } else if key.is_control('s') {
            Outcome { editor: self, message: None, action: self.save_action() }
        } else if key.is_plain(Key::Enter) {
            self.done(self.output.with_newline())
        } else if key.is_plain(Key::Backspace) {
            self.done(self.output.without_char())
        } else if key.is_plain(Key::Delete) {
            self.done(self.output.with_delete())
        } else {
            self.done(self.output)
        }
    }

    /// The number of changes to the document that the key `key` makes.
    pub open spec fn changes_by(self, key: KeyPress) -> nat {
        if key.is_control('q') || key.direction() is Some {
            0
        } else if key.typed() is Some {
            self.output.changes_of_char()
        } else if key.is_plain(Key::Enter) {
            1
        } else if key.is_plain(Key::Backspace) {
            self.output.changes_of_backspace()
        } else if key.is_plain(Key::Delete) {
            self.output.with_move(Direction::Right).changes_of_backspace()
        } else {
            0
        }
    }

    /// The key `key` can be dealt with: the count of changes has room for
    /// those that the key makes, and PageDown finds a last line of the
    /// window to go to.
    pub open spec fn accepts(self, key: KeyPress) -> bool {
        &&& self.output.dirty + self.changes_by(key) <= u64::MAX
        &&& key.is_plain(Key::PageDown) ==> self.output.win_size.1 + self.output.cursor.row_offset
            >= 1
    }

    /// What the answer `answer` to the question for a file name leads to:
    /// with a name, the document is saved under it; without one, nothing is
    /// saved.
    pub open spec fn after_answer(self, answer: Option<String>) -> Outcome {
        match answer {
            Some(name) => Outcome {
                editor: EditorView {
                    output: OutputView { filename: Some(name), ..self.output },
                    ..self
                },
                message: None,
                action: self.write_to(name),
            },
            None => Outcome {
                editor: self,
                message: Some(save_aborted_text()),
                action: ActionView::Continue,
            },
        }
    }

    /// What the outcome `written` of writing the file leads to: once it is
    /// written, the document has no changes that are not saved, and the
    /// message tells the number of bytes; if it could not be written, the
    /// message says why and the changes still count.
    pub open spec fn after_save(self, written: Result<usize, EditorError>) -> Outcome {
        match written {
            Ok(bytes) => Outcome {
                editor: EditorView {
                    output: OutputView { dirty: 0, ..self.output },
                    quit_times: QUIT_TIMES,
                },
                message: Some(saved_text(bytes)),
                action: ActionView::Continue,
            },
            Err(error) => Outcome {
                editor: self,
                message: Some(error.text()),
                action: ActionView::Continue,
            },
        }
    }

    /// This state has come out of the state `before` by `outcome`: it is
    /// the one that `outcome` names, with the message of `before` or, if
    /// `outcome` sets one, with that message, set just now.
    pub open spec fn follows(self, before: EditorView, outcome: Outcome) -> bool {
        &&& self == EditorView {
            output: OutputView {
                status_message: self.output.status_message,
                ..outcome.editor.output
            },
            ..outcome.editor
        }
        &&& match outcome.message {
            Some(text) => {
                &&& self.output.status_message.message matches Some(m) && m@ == text
                &&& self.output.status_message.set_time.is_some()
            },
            None => self.output.status_message == before.output.status_message,
        }
    }
}

/// The key to quit: Control-Q.
pub open spec fn quit_key() -> KeyPress {
    KeyPress { key: Key::Char('q'), modifiers: Modifiers::Control }
}

/// The key to save: Control-S.
pub open spec fn save_key() -> KeyPress {
    KeyPress { key: Key::Char('s'), modifiers: Modifiers::Control }
}

/// A document without changes that are not saved is left at the first
/// press of the key to quit.
pub proof fn lemma_quit_leaves_a_saved_document(v: EditorView)
    requires
        v.output.dirty == 0,
    ensures
        v.after_key(quit_key()).action == ActionView::Quit,
        v.after_key(quit_key()).editor == v,
{
}

/// When the count stands at its start and the document has changes that
/// are not saved, the key to quit warns three times, each time with one
/// press less to go and with nothing else changed, and leaves the editor
/// when it is pressed for the fourth time in a row.
pub proof fn lemma_quit_warns_before_it_leaves(v: EditorView)
    requires
        v.output.dirty > 0,
        v.quit_times == QUIT_TIMES,
    ensures
        ({
            let first = v.after_key(quit_key());
            let second = first.editor.after_key(quit_key());
            let third = second.editor.after_key(quit_key());
            let fourth = third.editor.after_key(quit_key());
            &&& first.action == ActionView::Continue && first.message == Some(quit_warning(3))
            &&& second.action == ActionView::Continue && second.message == Some(quit_warning(2))
            &&& third.action == ActionView::Continue && third.message == Some(quit_warning(1))
            &&& fourth.action == ActionView::Quit && fourth.message.is_none()
            &&& fourth.editor == EditorView { quit_times: 0, ..v }
        }),
{
}

/// Every key but the key to quit and the key to save puts the count back
/// to its start, and sets no message.
pub proof fn lemma_other_keys_reset_the_count(v: EditorView, key: KeyPress)
    requires
        key != quit_key(),
        key != save_key(),
    ensures
        v.after_key(key).editor.quit_times == QUIT_TIMES,
        v.after_key(key).action == ActionView::Continue,
        v.after_key(key).message.is_none(),
{
}

/// What a key does to the answer that is being typed.
pub enum PromptStep {
    /// The answer so far; more is to come.
    Pending(String),
    /// The answer is complete.
    Accepted(String),
    /// No answer is given.
    Cancelled,
}

/// The answer `input` after the key `key`: Enter accepts it unless it is
/// empty, Escape gives it up, Backspace and Delete take its last character
/// away, a character or a tab is added to it, and any other key leaves it.
pub open spec fn prompt_step(input: Seq<char>, key: KeyPress, step: PromptStep) -> bool {
    if key.is_plain(Key::Enter) {
        if input.len() > 0 {
            step matches PromptStep::Accepted(s) && s@ == input
        } else {
            step matches PromptStep::Pending(s) && s@ == input
        }
    } else if key.is_plain(Key::Backspace) || key.is_plain(Key::Delete) {
        step matches PromptStep::Pending(s) && s@ == if input.len() > 0 {
            input.drop_last()
        } else {
            input
        }
    } else if key.key == Key::Esc {
        step is Cancelled
    } else if key.typed() is Some {
        step matches PromptStep::Pending(s) && s@ == input.push(key.typed()->0)
    } else {
        step matches PromptStep::Pending(s) && s@ == input
    }
}

impl View for Editor {
    type V = EditorView;

    open spec fn view(&self) -> EditorView {
        EditorView { output: self.output@, quit_times: self.quit_times }
    }
}

impl Editor {
    /// The state of the editor is well formed.
    pub open spec fn wf(&self) -> bool {
        self.output.wf()
    }

    /// The editor as it starts on a terminal of `terminal_size.0` columns
    /// and `terminal_size.1` lines with the document from `source`.
    pub fn new(terminal_size: (u16, u16), source: Source) -> (editor: Self)
        requires
            terminal_size.1 >= RESERVED_LINES,
        ensures
            editor.wf(),
            editor.quit_times == QUIT_TIMES,
            editor.output.starts(terminal_size, source),
    {
        Self { output: Output::new(terminal_size, source), quit_times: QUIT_TIMES }
    }

    /// Sets the message `text`.
    fn say(&mut self, text: String)
        ensures
            final(self).wf() == old(self).wf(),
            final(self)@.follows(
                old(self)@,
                Outcome { editor: old(self)@, message: Some(text@), action: ActionView::Continue },
            ),
    {
        self.output.status_message.set_message(text);
    }

    /// Puts the cursor in line `y`, and within that line.
    fn go_to_line(&mut self, y: usize)
        requires
            old(self).wf(),
            y <= old(self)@.output.lines.len(),
        ensures
            final(self).wf(),
            final(self).quit_times == old(self).quit_times,
            final(self)@.output == (OutputView {
                cursor: old(self).output.cursor.at(old(self).output.cursor.cursor_x, y),
                ..old(self)@.output
            }).held_in_line(),
    {
        self.output.cursor.cursor_y = y;
        let len: usize = if y < self.output.editor_rows.num_rows() {
            self.output.editor_rows.get_editor_row(y).len()
        } else {
            0
        };
        if self.output.cursor.cursor_x > len {
            self.output.cursor.cursor_x = len;
        }
    }

    /// Does what the key `key` asks for and says what is to be done next.
    /// The count of changes has room for those that the key makes, and
    /// PageDown finds a last line of the window to go to;
    /// [`Editor::try_keypress`] finds out whether that is so.
    pub fn process_keypress(&mut self, key: KeyPress) -> (action: Action)
        requires
            old(self).wf(),
            old(self)@.accepts(key),
        ensures
            final(self).wf(),
            final(self)@.follows(old(self)@, old(self)@.after_key(key)),
            action@ == old(self)@.after_key(key).action,
    {
        match key.modifiers {
            Modifiers::Control => match key.key {
                Key::Char(c) => {
                    if c == 'q' {
                        return self.quit();
                    } else if c == 's' {
                        return match self.output.editor_rows.save() {
                            Ok(request) => Action::Save(request),
                            Err(_) => Action::AskFileName,
                        };
                    }
                },
                _ => {},
            },
            Modifiers::Nothing => match key.key {
                Key::PageUp => {
                    let num_rows = self.output.editor_rows.num_rows();
                    let top = self.output.cursor.row_offset;
                    self.go_to_line(if top <= num_rows { top } else { num_rows });
                },
                Key::PageDown => {
                    let num_rows = self.output.editor_rows.num_rows();
                    let top = self.output.cursor.row_offset;
                    let height = self.output.win_size.1;
                    let bottom: usize = if height == 0 {
                        top - 1
                    } else if top <= num_rows && height - 1 <= num_rows - top {
                        top + (height - 1)
                    } else {
                        num_rows
                    };
                    self.go_to_line(if bottom <= num_rows { bottom } else { num_rows });
                },
                Key::Enter => self.output.insert_newline(),
                Key::Backspace => self.output.delete_char(),
                Key::Delete => {
                    self.output.move_cursor(Direction::Right);
                    self.output.delete_char();
                },
                _ => match key.get_direction() {
                    Some(direction) => self.output.move_cursor(direction),
                    None => match key.get_typed() {
                        Some(ch) => self.output.insert_char(ch),
                        None => {},
                    },
                },
            },
            _ => match key.get_typed() {
                Some(ch) => self.output.insert_char(ch),
                None => {},
            },
        }
        self.quit_times = QUIT_TIMES;
        Action::Continue
    }

    /// The number of changes to the document that the key `key` makes.
    fn count_changes(&self, key: KeyPress) -> (changes: u64)
        requires
            self.wf(),
        ensures
            changes == self@.changes_by(key),
    {
        let x = self.output.cursor.cursor_x;
        let y = self.output.cursor.cursor_y;
        let num_rows = self.output.editor_rows.num_rows();
        match key.get_typed() {
            Some(_) => if y < num_rows {
                1
            } else {
                2
            },
            None => match key.modifiers {
                Modifiers::Nothing => match key.key {
                    Key::Enter => 1,
                    Key::Backspace => if y < num_rows && (x > 0 || y > 0) {
                        1
                    } else {
                        0
                    },
                    Key::Delete => if y < num_rows && (x < self.output.editor_rows.get_editor_row(
                        y,
                    ).len() || y + 1 < num_rows) {
                        1
                    } else {
                        0
                    },
                    _ => 0,
                },
                _ => 0,
            },
        }
    }

    /// Does what the key `key` asks for, as [`Editor::process_keypress`]
    /// does, if the key can be dealt with. If the count of changes has no
    /// room for those that the key makes, or PageDown finds no line to go
    /// to, nothing is done and nothing changes.
    pub fn try_keypress(&mut self, key: KeyPress) -> (action: Option<Action>)
        requires
            old(self).wf(),
        ensures
            final(self).wf(),
            action.is_some() <==> old(self)@.accepts(key),
            action matches Some(a) ==> {
                &&& final(self)@.follows(old(self)@, old(self)@.after_key(key))
                &&& a@ == old(self)@.after_key(key).action
            },
            action.is_none() ==> *final(self) == *old(self),
    {
        let changes = self.count_changes(key);
        let page_down = match (key.key, key.modifiers) {
            (Key::PageDown, Modifiers::Nothing) => true,
            _ => false,
        };
        if changes > u64::MAX - self.output.dirty {
            None
        } else if page_down && self.output.win_size.1 == 0 && self.output.cursor.row_offset == 0 {
            None
        } else {
            Some(self.process_keypress(key))
        }
    }

    /// The key to quit: leaves the editor, unless the document has changes
    /// that are not saved and the count has not run out; then it warns and
    /// counts down.
    fn quit(&mut self) -> (action: Action)
        requires
            old(self).wf(),
        ensures
            final(self).wf(),
            final(self)@.follows(
                old(self)@,
                old(self)@.after_key(KeyPress { key: Key::Char('q'), modifiers: Modifiers::Control }),
            ),
            action@ == old(self)@.after_key(
                KeyPress { key: Key::Char('q'), modifiers: Modifiers::Control },
            ).action,
    {
        if self.output.dirty > 0 && self.quit_times > 0 {
            let mut warning = String::from_str("WARNING! File has unsaved changes. Press CTRL-Q ");
            warning.append(format_decimal(self.quit_times as u128).as_str());
            warning.append(" more times to quit");
            self.say(warning);
            self.quit_times -= 1;
            Action::Continue
        } else {
            Action::Quit
        }
    }

    /// Shows the question for a file name with `input`, the answer typed so
    /// far, as the message.
    pub fn ask_file_name(&mut self, input: &str)
        requires
            old(self).wf(),
        ensures
            final(self).wf(),
            final(self)@.follows(
                old(self)@,
                Outcome {
                    editor: old(self)@,
                    message: Some(save_prompt(input@)),
                    action: ActionView::Continue,
                },
            ),
    {
        let mut text = String::from_str("Save as: ");
        text.append(input);
        text.append(" (ESC to cancel)");
        self.say(text);
    }

    /// Takes the key `key` as part of the answer `input` to a question, and
    /// clears the message when the question is over.
    pub fn prompt_key(&mut self, input: String, key: KeyPress) -> (step: PromptStep)
        requires
            old(self).wf(),
        ensures
            final(self).wf(),
            prompt_step(input@, key, step),
            final(self)@.follows(
                old(self)@,
                Outcome {
                    editor: old(self)@,
                    message: if step is Pending {
                        None
                    } else {
                        Some(Seq::empty())
                    },
                    action: ActionView::Continue,
                },
            ),
    {
        let mut input = input;
        match key.key {
            Key::Esc => {
                self.say(String::new());
                return PromptStep::Cancelled;
            },
            _ => {},
        }
        match key.modifiers {
            Modifiers::Nothing => match key.key {
                Key::Enter => {
                    if !input.as_str().is_empty() {
                        self.say(String::new());
                        return PromptStep::Accepted(input);
                    }
                },
                Key::Backspace | Key::Delete => {
                    pop_char(&mut input);
                },
                _ => {},
            },
            _ => {},
        }
        match key.get_typed() {
            Some(ch) => push_char(&mut input, ch),
            None => {},
        }
        PromptStep::Pending(input)
    }

    /// Goes on after the question for a file name: with the answer `answer`
    /// the document gets that name and is to be saved; without an answer
    /// nothing is saved, and the message says so.
    pub fn save_as(&mut self, answer: Option<String>) -> (action: Action)
        requires
            old(self).wf(),
        ensures
            final(self).wf(),
            final(self)@.follows(old(self)@, old(self)@.after_answer(answer)),
            action@ == old(self)@.after_answer(answer).action,
    {
        match answer {
            None => {
                self.say(String::from_str("Save Aborted"));
                Action::Continue
            },
            Some(name) => {
                self.output.editor_rows.filename = Some(name);
                match self.output.editor_rows.save() {
                    Ok(request) => Action::Save(request),
                    Err(_) => Action::Continue,
                }
            },
        }
    }

    /// Goes on after the file was written, or could not be written.
    pub fn save_finished(&mut self, written: Result<usize, EditorError>)
        requires
            old(self).wf(),
        ensures
            final(self).wf(),
            final(self)@.follows(old(self)@, old(self)@.after_save(written)),
    {
        match written {
            Ok(bytes) => {
                let mut text = format_decimal(bytes as u128);
                text.append(" bytes written to disk");
                self.say(text);
                self.output.dirty = 0;
                self.quit_times = QUIT_TIMES;
            },
            Err(error) => {
                self.say(error.message());
            },
        }
    }
}

} // verus!
