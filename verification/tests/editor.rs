use text_editor::cursor::Direction;
use text_editor::editor::{Action, Editor, PromptStep};
use text_editor::keys::{Key, KeyPress, Modifiers};
use text_editor::rows::{EditorError, Source};

fn editor_with(text: &str) -> Editor {
    Editor::new(
        (80, 24),
        Source::File {
            path: String::from("test.txt"),
            text: String::from(text),
        },
    )
}

fn plain(key: Key) -> KeyPress {
    KeyPress {
        key,
        modifiers: Modifiers::Nothing,
    }
}

fn control(c: char) -> KeyPress {
    KeyPress {
        key: Key::Char(c),
        modifiers: Modifiers::Control,
    }
}

fn lines(editor: &Editor) -> Vec<String> {
    (0..editor.output.editor_rows.num_rows())
        .map(|i| editor.output.editor_rows.get_row(i).to_string())
        .collect()
}

fn place(editor: &Editor) -> (usize, usize) {
    (editor.output.cursor.cursor_y, editor.output.cursor.cursor_x)
}

fn message(editor: &mut Editor) -> Option<String> {
    editor.output.status_message.message().cloned()
}

fn type_text(editor: &mut Editor, text: &str) {
    for ch in text.chars() {
        assert!(matches!(
            editor.process_keypress(plain(Key::Char(ch))),
            Action::Continue
        ));
    }
}

#[test]
fn new_editor() {
    let editor = editor_with("abc\ndef");
    assert_eq!(editor.quit_times, 3);
    assert_eq!(editor.output.win_size, (80, 22));
    assert_eq!(lines(&editor), ["abc", "def"]);
    assert_eq!(place(&editor), (0, 0));
    assert_eq!(editor.output.dirty, 0);
}

#[test]
fn quit_leaves_a_clean_document_at_once() {
    let mut editor = editor_with("abc");
    assert!(matches!(editor.process_keypress(control('q')), Action::Quit));
    assert_eq!(editor.quit_times, 3);
}

#[test]
fn quit_warns_of_unsaved_changes_before_it_leaves() {
    let mut editor = editor_with("abc");
    type_text(&mut editor, "x");
    assert!(matches!(editor.process_keypress(control('q')), Action::Continue));
    assert_eq!(
        message(&mut editor).as_deref(),
        Some("WARNING! File has unsaved changes. Press CTRL-Q 3 more times to quit")
    );
    assert_eq!(editor.quit_times, 2);
    assert!(matches!(editor.process_keypress(control('q')), Action::Continue));
    assert_eq!(
        message(&mut editor).as_deref(),
        Some("WARNING! File has unsaved changes. Press CTRL-Q 2 more times to quit")
    );
    assert!(matches!(editor.process_keypress(control('q')), Action::Continue));
    assert_eq!(
        message(&mut editor).as_deref(),
        Some("WARNING! File has unsaved changes. Press CTRL-Q 1 more times to quit")
    );
    assert_eq!(editor.quit_times, 0);
    assert!(matches!(editor.process_keypress(control('q')), Action::Quit));
    assert_eq!(lines(&editor), ["xabc"]);
    assert_eq!(editor.output.dirty, 1);
}

#[test]
fn another_key_starts_the_count_to_quit_anew() {
    let mut editor = editor_with("abc");
    type_text(&mut editor, "x");
    editor.process_keypress(control('q'));
    editor.process_keypress(control('q'));
    assert_eq!(editor.quit_times, 1);
    editor.process_keypress(plain(Key::Left));
    assert_eq!(editor.quit_times, 3);
    editor.process_keypress(control('q'));
    assert_eq!(editor.quit_times, 2);
    editor.process_keypress(plain(Key::Other));
    assert_eq!(editor.quit_times, 3);
    editor.process_keypress(control('q'));
    editor.process_keypress(control('x'));
    assert_eq!(editor.quit_times, 3);
}

#[test]
fn arrow_keys_move_the_cursor() {
    let mut editor = editor_with("long line\nab");
    editor.process_keypress(plain(Key::End));
    assert_eq!(place(&editor), (0, 9));
    editor.process_keypress(plain(Key::Down));
    assert_eq!(place(&editor), (1, 2));
    editor.process_keypress(plain(Key::Left));
    assert_eq!(place(&editor), (1, 1));
    editor.process_keypress(plain(Key::Up));
    assert_eq!(place(&editor), (0, 1));
    editor.process_keypress(plain(Key::Right));
    assert_eq!(place(&editor), (0, 2));
    editor.process_keypress(plain(Key::Home));
    assert_eq!(place(&editor), (0, 0));
    assert_eq!(editor.output.dirty, 0);
}

#[test]
fn arrow_keys_with_a_modifier_do_nothing() {
    let mut editor = editor_with("long line\nab");
    for modifiers in [Modifiers::Shift, Modifiers::Control, Modifiers::Other] {
        for key in [Key::Down, Key::Right, Key::End, Key::PageDown, Key::Enter, Key::Delete] {
            let action = editor.process_keypress(KeyPress { key, modifiers });
            assert!(matches!(action, Action::Continue));
        }
    }
    assert_eq!(place(&editor), (0, 0));
    assert_eq!(lines(&editor), ["long line", "ab"]);
    assert_eq!(editor.output.dirty, 0);
}

#[test]
fn characters_are_typed_with_and_without_shift() {
    let mut editor = editor_with("");
    editor.process_keypress(plain(Key::Char('a')));
    editor.process_keypress(KeyPress {
        key: Key::Char('B'),
        modifiers: Modifiers::Shift,
    });
    editor.process_keypress(plain(Key::Tab));
    editor.process_keypress(KeyPress {
        key: Key::Tab,
        modifiers: Modifiers::Shift,
    });
    editor.process_keypress(plain(Key::Char('q')));
    editor.process_keypress(plain(Key::Char('s')));
    assert_eq!(lines(&editor), ["aB\t\tqs"]);
    assert_eq!(
        editor.output.editor_rows.get_render(0).as_str(),
        format!("aB{}qs", " ".repeat(14))
    );
    assert_eq!(place(&editor), (0, 6));
    assert_eq!(editor.output.dirty, 7);
}

#[test]
fn characters_with_other_modifiers_are_not_typed() {
    let mut editor = editor_with("abc");
    editor.process_keypress(control('x'));
    editor.process_keypress(KeyPress {
        key: Key::Char('y'),
        modifiers: Modifiers::Other,
    });
    editor.process_keypress(KeyPress {
        key: Key::Tab,
        modifiers: Modifiers::Control,
    });
    editor.process_keypress(plain(Key::Esc));
    assert_eq!(lines(&editor), ["abc"]);
    assert_eq!(editor.output.dirty, 0);
}

#[test]
fn enter_breaks_the_line() {
    let mut editor = editor_with("abc\ndef");
    editor.process_keypress(plain(Key::End));
    editor.process_keypress(plain(Key::Enter));
    assert_eq!(lines(&editor), ["abc", "", "def"]);
    assert_eq!(place(&editor), (1, 0));
    assert_eq!(editor.output.dirty, 1);
}

#[test]
fn backspace_joins_lines() {
    let mut editor = editor_with("one\ntwo");
    editor.process_keypress(plain(Key::Down));
    editor.process_keypress(plain(Key::Backspace));
    assert_eq!(lines(&editor), ["onetwo"]);
    assert_eq!(place(&editor), (0, 3));
    assert_eq!(editor.output.dirty, 1);
}

#[test]
fn delete_takes_the_character_under_the_cursor() {
    let mut editor = editor_with("abc\ndef");
    editor.process_keypress(plain(Key::Right));
    editor.process_keypress(plain(Key::Delete));
    assert_eq!(lines(&editor), ["ac", "def"]);
    assert_eq!(place(&editor), (0, 1));
    editor.process_keypress(plain(Key::End));
    editor.process_keypress(plain(Key::Delete));
    assert_eq!(lines(&editor), ["acdef"]);
    assert_eq!(place(&editor), (0, 2));
    assert_eq!(editor.output.dirty, 2);
}

#[test]
fn delete_at_the_end_of_the_document_does_nothing() {
    let mut editor = editor_with("abc");
    editor.process_keypress(plain(Key::End));
    editor.process_keypress(plain(Key::Delete));
    assert_eq!(lines(&editor), ["abc"]);
    assert_eq!(place(&editor), (1, 0));
    assert_eq!(editor.output.dirty, 0);
}

#[test]
fn page_down_and_page_up_go_to_the_ends_of_the_window() {
    let text: Vec<String> = (0..100).map(|i| format!("line {}", i)).collect();
    let mut editor = editor_with(&text.join("\n"));
    editor.process_keypress(plain(Key::PageDown));
    assert_eq!(place(&editor), (21, 0));
    editor.output.refresh_screen();
    editor.process_keypress(plain(Key::PageDown));
    assert_eq!(place(&editor), (21, 0));
    editor.process_keypress(plain(Key::Down));
    editor.output.refresh_screen();
    assert_eq!(editor.output.cursor.row_offset, 1);
    editor.process_keypress(plain(Key::PageDown));
    assert_eq!(place(&editor), (22, 0));
    editor.process_keypress(plain(Key::PageUp));
    assert_eq!(place(&editor), (1, 0));
    editor.output.cursor.row_offset = 90;
    editor.process_keypress(plain(Key::PageDown));
    assert_eq!(place(&editor), (100, 0));
    editor.process_keypress(plain(Key::PageUp));
    assert_eq!(place(&editor), (90, 0));
}

#[test]
fn page_down_in_a_window_without_lines() {
    let mut editor = Editor::new(
        (80, 2),
        Source::File {
            path: String::from("f"),
            text: String::from("a\nb\nc"),
        },
    );
    assert_eq!(editor.output.win_size, (80, 0));
    editor.output.cursor.row_offset = 2;
    editor.process_keypress(plain(Key::PageDown));
    assert_eq!(place(&editor), (1, 0));
    editor.output.cursor.row_offset = 7;
    editor.process_keypress(plain(Key::PageDown));
    assert_eq!(place(&editor), (3, 0));
}

#[test]
fn try_keypress_does_what_the_key_asks_for() {
    let mut editor = editor_with("abc");
    assert!(matches!(
        editor.try_keypress(plain(Key::Char('x'))),
        Some(Action::Continue)
    ));
    assert!(matches!(editor.try_keypress(plain(Key::End)), Some(Action::Continue)));
    assert!(matches!(editor.try_keypress(plain(Key::Enter)), Some(Action::Continue)));
    assert!(matches!(editor.try_keypress(control('s')), Some(Action::Save(_))));
    assert!(matches!(editor.try_keypress(control('q')), Some(Action::Continue)));
    assert_eq!(lines(&editor), ["xabc", ""]);
    assert_eq!(place(&editor), (1, 0));
    assert_eq!(editor.output.dirty, 2);
    assert_eq!(editor.quit_times, 2);
}

#[test]
fn try_keypress_stops_at_a_full_count_of_changes() {
    let mut editor = editor_with("abc\ndef");
    editor.output.dirty = u64::MAX;
    for key in [Key::Char('x'), Key::Tab, Key::Enter] {
        assert!(editor.try_keypress(plain(key)).is_none());
    }
    editor.output.cursor.cursor_x = 1;
    assert!(editor.try_keypress(plain(Key::Backspace)).is_none());
    assert!(editor.try_keypress(plain(Key::Delete)).is_none());
    assert_eq!(lines(&editor), ["abc", "def"]);
    assert_eq!(place(&editor), (0, 1));
    assert_eq!(editor.output.dirty, u64::MAX);
    assert_eq!(editor.quit_times, 3);
}

#[test]
fn try_keypress_goes_on_where_the_key_changes_nothing() {
    let mut editor = editor_with("abc\ndef");
    editor.output.dirty = u64::MAX;
    assert!(matches!(editor.try_keypress(plain(Key::Backspace)), Some(Action::Continue)));
    assert!(matches!(editor.try_keypress(plain(Key::Down)), Some(Action::Continue)));
    assert!(matches!(editor.try_keypress(plain(Key::PageDown)), Some(Action::Continue)));
    assert_eq!(place(&editor), (2, 0));
    assert!(matches!(editor.try_keypress(plain(Key::Delete)), Some(Action::Continue)));
    assert!(matches!(editor.try_keypress(plain(Key::Backspace)), Some(Action::Continue)));
    assert!(matches!(editor.try_keypress(plain(Key::Esc)), Some(Action::Continue)));
    assert!(matches!(editor.try_keypress(control('s')), Some(Action::Save(_))));
    assert!(matches!(editor.try_keypress(control('q')), Some(Action::Continue)));
    assert_eq!(editor.quit_times, 2);
    assert_eq!(lines(&editor), ["abc", "def"]);
    assert_eq!(editor.output.dirty, u64::MAX);
    editor.output.cursor.cursor_y = 1;
    editor.output.cursor.cursor_x = 3;
    assert!(matches!(editor.try_keypress(plain(Key::Delete)), Some(Action::Continue)));
    assert_eq!(place(&editor), (2, 0));
}

#[test]
fn try_keypress_counts_the_changes_of_the_key() {
    let mut editor = editor_with("abc");
    editor.output.dirty = u64::MAX - 1;
    editor.output.cursor.cursor_y = 1;
    assert!(editor.try_keypress(plain(Key::Char('x'))).is_none());
    assert_eq!(lines(&editor), ["abc"]);
    editor.output.cursor.cursor_y = 0;
    assert!(matches!(
        editor.try_keypress(plain(Key::Char('x'))),
        Some(Action::Continue)
    ));
    assert_eq!(lines(&editor), ["xabc"]);
    assert_eq!(editor.output.dirty, u64::MAX);
    assert!(editor.try_keypress(plain(Key::Delete)).is_none());
    assert_eq!(place(&editor), (0, 1));
    assert_eq!(lines(&editor), ["xabc"]);
}

#[test]
fn try_keypress_needs_a_line_for_page_down() {
    let mut editor = Editor::new(
        (80, 2),
        Source::File {
            path: String::from("f"),
            text: String::from("a\nb\nc"),
        },
    );
    assert!(editor.try_keypress(plain(Key::PageDown)).is_none());
    assert_eq!(place(&editor), (0, 0));
    assert!(matches!(editor.try_keypress(plain(Key::PageUp)), Some(Action::Continue)));
    editor.output.cursor.row_offset = 2;
    assert!(matches!(editor.try_keypress(plain(Key::PageDown)), Some(Action::Continue)));
    assert_eq!(place(&editor), (1, 0));
}

#[test]
fn page_keys_hold_the_cursor_in_the_line() {
    let mut editor = editor_with("a long first line\nab\n\nlast");
    editor.process_keypress(plain(Key::End));
    assert_eq!(place(&editor), (0, 17));
    editor.output.cursor.row_offset = 1;
    editor.process_keypress(plain(Key::PageUp));
    assert_eq!(place(&editor), (1, 2));
    editor.process_keypress(plain(Key::PageDown));
    assert_eq!(place(&editor), (4, 0));
}

#[test]
fn save_of_a_named_document_asks_to_write_the_file() {
    let mut editor = editor_with("abc\ndef");
    type_text(&mut editor, "x");
    match editor.process_keypress(control('s')) {
        Action::Save(request) => {
            assert_eq!(request.path, "test.txt");
            assert_eq!(request.contents, "xabc\ndef");
            assert_eq!(request.bytes, 8);
        }
        _ => panic!("no file to write"),
    }
    assert_eq!(editor.output.dirty, 1);
    editor.save_finished(Ok(8));
    assert_eq!(editor.output.dirty, 0);
    assert_eq!(editor.quit_times, 3);
    assert_eq!(message(&mut editor).as_deref(), Some("8 bytes written to disk"));
    assert!(matches!(editor.process_keypress(control('q')), Action::Quit));
}

#[test]
fn a_failed_save_keeps_the_changes_counted() {
    let mut editor = editor_with("abc");
    type_text(&mut editor, "xy");
    editor.process_keypress(control('q'));
    assert!(matches!(editor.process_keypress(control('s')), Action::Save(_)));
    editor.save_finished(Err(EditorError::WriteFailure));
    assert_eq!(editor.output.dirty, 2);
    assert_eq!(editor.quit_times, 2);
    assert_eq!(
        message(&mut editor).as_deref(),
        Some("Can't save! The file could not be written")
    );
    assert_eq!(lines(&editor), ["xyabc"]);
}

#[test]
fn a_failed_save_says_why() {
    let mut editor = editor_with("abc");
    editor.save_finished(Err(EditorError::NoFileName));
    assert_eq!(message(&mut editor).as_deref(), Some("no file name specified"));
    editor.save_finished(Err(EditorError::ReadFailure));
    assert_eq!(
        message(&mut editor).as_deref(),
        Some("Can't open! The file could not be read")
    );
}

#[test]
fn an_unreadable_file_gives_an_empty_document_and_a_message() {
    let mut editor = Editor::new((80, 24), Source::Unreadable);
    assert_eq!(lines(&editor).len(), 0);
    assert!(editor.output.editor_rows.filename.is_none());
    assert_eq!(
        message(&mut editor).as_deref(),
        Some("Can't open! The file could not be read")
    );
    type_text(&mut editor, "ok");
    assert_eq!(lines(&editor), ["ok"]);
    assert!(matches!(editor.process_keypress(control('s')), Action::AskFileName));
}

#[test]
fn save_of_an_unnamed_document_asks_for_a_name() {
    let mut editor = Editor::new((80, 24), Source::Untitled);
    type_text(&mut editor, "hi");
    assert!(matches!(editor.process_keypress(control('s')), Action::AskFileName));
    match editor.save_as(Some(String::from("new.txt"))) {
        Action::Save(request) => {
            assert_eq!(request.path, "new.txt");
            assert_eq!(request.contents, "hi");
        }
        _ => panic!("no file to write"),
    }
    assert_eq!(editor.output.editor_rows.filename.as_deref(), Some("new.txt"));
    editor.save_finished(Ok(2));
    assert_eq!(editor.output.dirty, 0);
    assert_eq!(message(&mut editor).as_deref(), Some("2 bytes written to disk"));
    assert!(matches!(editor.process_keypress(control('s')), Action::Save(_)));
}

#[test]
fn save_without_a_name_is_given_up() {
    let mut editor = Editor::new((80, 24), Source::Untitled);
    type_text(&mut editor, "hi");
    editor.process_keypress(control('q'));
    assert!(matches!(editor.process_keypress(control('s')), Action::AskFileName));
    assert!(matches!(editor.save_as(None), Action::Continue));
    assert_eq!(message(&mut editor).as_deref(), Some("Save Aborted"));
    assert!(editor.output.editor_rows.filename.is_none());
    assert_eq!(editor.output.dirty, 3);
    assert_eq!(editor.quit_times, 2);
}

#[test]
fn the_question_for_a_name_shows_what_was_typed() {
    let mut editor = Editor::new((80, 24), Source::Untitled);
    editor.ask_file_name("");
    assert_eq!(message(&mut editor).as_deref(), Some("Save as:  (ESC to cancel)"));
    editor.ask_file_name("notes.txt");
    assert_eq!(
        message(&mut editor).as_deref(),
        Some("Save as: notes.txt (ESC to cancel)")
    );
}

fn pending(step: PromptStep) -> String {
    match step {
        PromptStep::Pending(input) => input,
        _ => panic!("the question is over"),
    }
}

#[test]
fn an_answer_is_typed_and_accepted() {
    let mut editor = Editor::new((80, 24), Source::Untitled);
    editor.ask_file_name("");
    let mut input = String::new();
    input = pending(editor.prompt_key(input, plain(Key::Char('a'))));
    input = pending(editor.prompt_key(
        input,
        KeyPress {
            key: Key::Char('B'),
            modifiers: Modifiers::Shift,
        },
    ));
    input = pending(editor.prompt_key(input, plain(Key::Tab)));
    input = pending(editor.prompt_key(input, plain(Key::Char('c'))));
    assert_eq!(input, "aB\tc");
    input = pending(editor.prompt_key(input, plain(Key::Backspace)));
    input = pending(editor.prompt_key(input, plain(Key::Delete)));
    assert_eq!(input, "aB");
    input = pending(editor.prompt_key(input, control('x')));
    input = pending(editor.prompt_key(input, plain(Key::Left)));
    input = pending(editor.prompt_key(
        input,
        KeyPress {
            key: Key::Enter,
            modifiers: Modifiers::Shift,
        },
    ));
    assert_eq!(input, "aB");
    assert_eq!(message(&mut editor).as_deref(), Some("Save as:  (ESC to cancel)"));
    match editor.prompt_key(input, plain(Key::Enter)) {
        PromptStep::Accepted(answer) => assert_eq!(answer, "aB"),
        _ => panic!("not accepted"),
    }
    assert_eq!(message(&mut editor).as_deref(), Some(""));
}

#[test]
fn an_empty_answer_is_not_accepted() {
    let mut editor = Editor::new((80, 24), Source::Untitled);
    let mut input = pending(editor.prompt_key(String::new(), plain(Key::Enter)));
    assert_eq!(input, "");
    input = pending(editor.prompt_key(input, plain(Key::Backspace)));
    assert_eq!(input, "");
    input = pending(editor.prompt_key(input, plain(Key::Char('x'))));
    input = pending(editor.prompt_key(input, plain(Key::Backspace)));
    input = pending(editor.prompt_key(input, plain(Key::Enter)));
    assert_eq!(input, "");
}

#[test]
fn escape_gives_the_question_up() {
    let mut editor = Editor::new((80, 24), Source::Untitled);
    editor.ask_file_name("abc");
    assert!(matches!(
        editor.prompt_key(String::from("abc"), plain(Key::Esc)),
        PromptStep::Cancelled
    ));
    assert_eq!(message(&mut editor).as_deref(), Some(""));
    assert!(matches!(
        editor.prompt_key(
            String::from("abc"),
            KeyPress {
                key: Key::Esc,
                modifiers: Modifiers::Control,
            }
        ),
        PromptStep::Cancelled
    ));
}

#[test]
fn keys_say_how_they_move_and_what_they_type() {
    assert_eq!(plain(Key::Up).get_direction(), Some(Direction::Up));
    assert_eq!(plain(Key::End).get_direction(), Some(Direction::End));
    assert_eq!(plain(Key::PageUp).get_direction(), None);
    assert_eq!(control('a').get_direction(), None);
    assert_eq!(
        KeyPress {
            key: Key::Left,
            modifiers: Modifiers::Shift
        }
        .get_direction(),
        None
    );
    assert_eq!(plain(Key::Char('a')).get_typed(), Some('a'));
    assert_eq!(plain(Key::Tab).get_typed(), Some('\t'));
    assert_eq!(plain(Key::Enter).get_typed(), None);
    assert_eq!(control('a').get_typed(), None);
}
