use modal_editor::buffer::{LoadedFile, ModifiedTime, TextBuffer};
use modal_editor::editor::{Editor, EditorAction, EditorModes, SaveRequest};
use modal_editor::error::AppError;
use modal_editor::terminal::{CursorType, Position};

fn at(secs: u64) -> ModifiedTime {
    ModifiedTime { secs, nanos: 0 }
}

fn file(name: &str, lines: &[&str]) -> LoadedFile {
    LoadedFile {
        filename: String::from(name),
        rows: lines.iter().map(|s| s.to_string()).collect(),
        modified_time: at(100),
    }
}

fn editor_with(files: Vec<LoadedFile>) -> Editor {
    Editor::new(files, at(1), Position { x: 80, y: 24 })
}

fn three_buffers() -> Editor {
    editor_with(vec![file("a", &["first"]), file("b", &["second"]), file("c", &["third"])])
}

fn keys(editor: &mut Editor, text: &str) {
    for c in text.bytes() {
        let action = editor.process_keypress(c, at(2));
        assert!(matches!(action, EditorAction::Continue));
    }
}

fn last_key(editor: &mut Editor, text: &str) -> EditorAction {
    let bytes = text.as_bytes();
    keys(editor, &text[..bytes.len() - 1]);
    editor.process_keypress(bytes[bytes.len() - 1], at(2))
}

fn active(editor: &Editor) -> &TextBuffer {
    &editor.buffers[&editor.buff_vec[editor.current_buff_index]]
}

fn active_rows(editor: &Editor) -> Vec<&str> {
    active(editor).rows.iter().map(|s| s.as_str()).collect()
}

#[test]
fn editor_without_files_has_one_scratch_buffer() {
    let editor = editor_with(Vec::new());
    assert_eq!(editor.buff_vec, vec![1000]);
    assert_eq!(editor.current_buff_index, 0);
    assert_eq!(editor.mode, EditorModes::Normal);
    assert!(!editor.exit_flag);
    assert!(!editor.is_done());
    assert!(active(&editor).rows.is_empty());
    assert_eq!(active(&editor).filename, None);
    assert_eq!(active(&editor).modified_time, at(1));
    assert_eq!(editor.terminal.status_line_left, "");
    assert_eq!(editor.terminal.size, Position { x: 80, y: 24 });
}

#[test]
fn editor_opens_one_buffer_per_file() {
    let editor = three_buffers();
    assert_eq!(editor.buff_vec, vec![1000, 1001, 1002]);
    assert_eq!(editor.buffers.len(), 3);
    assert_eq!(editor.current_buff_index, 0);
    assert_eq!(active_rows(&editor), vec!["first"]);
    assert_eq!(editor.buffers[&1002].filename, Some(String::from("c")));
    assert_eq!(editor.terminal.status_line_left, "a");
    assert_eq!(editor.terminal.line_no_digits, 1);
}

#[test]
fn next_buffer_wraps_around() {
    let mut editor = three_buffers();
    keys(&mut editor, ":bn\r");
    assert_eq!(editor.current_buff_index, 1);
    assert_eq!(active_rows(&editor), vec!["second"]);
    assert_eq!(editor.mode, EditorModes::Normal);
    keys(&mut editor, ":bn\r");
    assert_eq!(editor.current_buff_index, 2);
    keys(&mut editor, ":bn\r");
    assert_eq!(editor.current_buff_index, 0);
    assert_eq!(active_rows(&editor), vec!["first"]);
    assert_eq!(editor.terminal.status_line_right, "3,0");
}

#[test]
fn previous_buffer_wraps_around() {
    let mut editor = three_buffers();
    keys(&mut editor, ":bp\r");
    assert_eq!(editor.current_buff_index, 2);
    assert_eq!(editor.terminal.status_line_right, "3,2");
    keys(&mut editor, ":bp\r");
    assert_eq!(editor.current_buff_index, 1);
    assert_eq!(editor.terminal.command_line, "");
}

#[test]
fn buffers_are_addressed_by_place() {
    let mut editor = three_buffers();
    keys(&mut editor, ":b2\r");
    assert_eq!(editor.current_buff_index, 2);
    assert_eq!(active_rows(&editor), vec!["third"]);
    keys(&mut editor, ":b0\r");
    assert_eq!(editor.current_buff_index, 0);
    assert_eq!(editor.buff_vec.len(), 3);
}

#[test]
fn the_place_after_the_last_opens_a_scratch_buffer() {
    let mut editor = three_buffers();
    keys(&mut editor, ":b3\r");
    assert_eq!(editor.buff_vec, vec![1000, 1001, 1002, 1003]);
    assert_eq!(editor.current_buff_index, 3);
    assert!(active(&editor).rows.is_empty());
    assert_eq!(active(&editor).filename, None);
    assert_eq!(active(&editor).modified_time, at(2));
    assert_eq!(editor.terminal.status_line_right, "4,3");
    assert_eq!(editor.mode, EditorModes::Normal);
}

#[test]
fn a_place_beyond_that_is_not_found() {
    let mut editor = three_buffers();
    keys(&mut editor, ":b1\r:b9\r");
    assert_eq!(editor.current_buff_index, 1);
    assert_eq!(editor.buff_vec.len(), 3);
    assert_eq!(editor.command_mode.command_string, "index not found");
    assert_eq!(editor.terminal.command_line, "index not found");
    assert_eq!(editor.terminal.status_line_right, "3,1");
    assert_eq!(editor.mode, EditorModes::Normal);
}

#[test]
fn closing_keeps_the_place_or_takes_the_last() {
    let mut editor = three_buffers();
    keys(&mut editor, ":b1\r:q\r");
    assert_eq!(editor.buff_vec, vec![1000, 1002]);
    assert_eq!(editor.current_buff_index, 1);
    assert_eq!(active_rows(&editor), vec!["third"]);
    assert_eq!(editor.mode, EditorModes::Normal);
    keys(&mut editor, ":q\r");
    assert_eq!(editor.buff_vec, vec![1000]);
    assert_eq!(editor.current_buff_index, 0);
    assert!(!editor.is_done());
    keys(&mut editor, ":q\r");
    assert!(editor.buff_vec.is_empty());
    assert!(editor.buffers.is_empty());
    assert!(editor.is_done());
}

#[test]
fn an_editor_without_buffers_takes_no_keys() {
    let mut editor = editor_with(Vec::new());
    keys(&mut editor, ":q\r");
    assert!(editor.is_done());
    keys(&mut editor, "ihello\x1b:w\r");
    assert!(editor.is_done());
    assert_eq!(editor.mode, EditorModes::Normal);
    assert!(matches!(editor.render_ui(), Err(AppError::BufferError(_))));
}

#[test]
fn quit_refuses_a_buffer_that_has_changed() {
    let mut editor = three_buffers();
    keys(&mut editor, "x:q\r");
    assert_eq!(editor.buff_vec.len(), 3);
    assert_eq!(editor.mode, EditorModes::Normal);
    assert_eq!(editor.command_mode.command_string, "file  changes use q! to force quit");
    assert_eq!(editor.terminal.command_line, "file  changes use q! to force quit");
    keys(&mut editor, ":q!\r");
    assert_eq!(editor.buff_vec, vec![1001, 1002]);
    assert_eq!(editor.current_buff_index, 0);
    assert_eq!(editor.terminal.command_line, "");
}

#[test]
fn typing_in_insert_mode() {
    let mut editor = editor_with(Vec::new());
    keys(&mut editor, "i");
    assert_eq!(editor.mode, EditorModes::Insert);
    assert_eq!(editor.terminal.cursor_type, CursorType::Ibeam);
    keys(&mut editor, "hi\rthere");
    assert_eq!(active_rows(&editor), vec!["hi", "there"]);
    assert_eq!(active(&editor).pos, Position { x: 5, y: 1 });
    assert_eq!(editor.terminal.status_line_left, " Insert ");
    keys(&mut editor, "\x7f\x7f");
    assert_eq!(active_rows(&editor), vec!["hi", "the"]);
    keys(&mut editor, "\x1b");
    assert_eq!(editor.mode, EditorModes::Normal);
    assert_eq!(editor.terminal.cursor_type, CursorType::Block);
    assert_eq!(active(&editor).pos, Position { x: 2, y: 1 });
    assert!(active(&editor).is_changed);
}

#[test]
fn commands_in_normal_mode() {
    let mut editor = editor_with(vec![file("a", &["one two three", "four", "five"])]);
    keys(&mut editor, "w");
    assert_eq!(active(&editor).pos, Position { x: 4, y: 0 });
    assert_eq!(editor.terminal.status_line_left, " Normal ");
    assert_eq!(editor.terminal.status_line_right, "\0");
    keys(&mut editor, "dw");
    assert_eq!(active_rows(&editor), vec!["one three", "four", "five"]);
    keys(&mut editor, "2dd");
    assert_eq!(active_rows(&editor), vec!["five"]);
    assert_eq!(active(&editor).pos, Position { x: 0, y: 0 });
    keys(&mut editor, "$5z");
    assert_eq!(editor.normal_mode.pending_operations.repeat, 5);
    keys(&mut editor, "x");
    assert_eq!(active_rows(&editor), vec!["fiv"]);
    assert_eq!(active(&editor).pos, Position { x: 2, y: 0 });
    assert_eq!(editor.normal_mode.pending_operations.repeat, 0);
}

#[test]
fn a_deletion_in_normal_mode_leaves_the_cursor_on_a_character() {
    let mut editor = editor_with(vec![file("a", &["ab", ""])]);
    keys(&mut editor, "j\x7f");
    assert_eq!(active_rows(&editor), vec!["ab"]);
    assert_eq!(active(&editor).pos, Position { x: 1, y: 0 });
}

#[test]
fn open_a_line_and_append() {
    let mut editor = editor_with(vec![file("a", &["  ab"])]);
    keys(&mut editor, "ox\x1b");
    assert_eq!(active_rows(&editor), vec!["  ab", "  x"]);
    keys(&mut editor, "Oy\x1b");
    assert_eq!(active_rows(&editor), vec!["  ab", "  y", "  x"]);
    keys(&mut editor, "Az\x1b");
    assert_eq!(active_rows(&editor), vec!["  ab", "  yz", "  x"]);
    keys(&mut editor, "0aq\x1b");
    assert_eq!(active_rows(&editor), vec!["  ab", " q yz", "  x"]);
}

#[test]
fn the_command_line_shows_what_is_typed() {
    let mut editor = three_buffers();
    keys(&mut editor, ":");
    assert_eq!(editor.mode, EditorModes::Command);
    assert_eq!(editor.terminal.command_line, ":");
    assert_eq!(editor.terminal.cursor_type, CursorType::Block);
    keys(&mut editor, "wq");
    assert_eq!(editor.terminal.command_line, ":wq");
    assert_eq!(editor.terminal.status_line_left, " Command ");
    keys(&mut editor, "\x7f");
    assert_eq!(editor.terminal.command_line, ":w");
    assert_eq!(editor.mode, EditorModes::Command);
    keys(&mut editor, "\x7f");
    assert_eq!(editor.terminal.command_line, "");
    assert_eq!(editor.mode, EditorModes::Normal);
    keys(&mut editor, ":bx\x1b");
    assert_eq!(editor.terminal.command_line, "");
    assert_eq!(editor.mode, EditorModes::Normal);
}

#[test]
fn a_word_that_is_no_command_leaves_a_message() {
    let mut editor = three_buffers();
    keys(&mut editor, ":nonsense\r");
    assert_eq!(editor.mode, EditorModes::Normal);
    assert_eq!(editor.terminal.command_line, "invalid command");
    assert_eq!(editor.buff_vec.len(), 3);
}

#[test]
fn save_asks_for_a_look_at_the_file_and_then_for_a_write() {
    let mut editor = editor_with(vec![file("notes.txt", &["a", "b"])]);
    keys(&mut editor, "x");
    let request = match last_key(&mut editor, ":w\r") {
        EditorAction::Stat(request) => request,
        _ => panic!("a look at the file was expected"),
    };
    assert_eq!(request.name, "notes.txt");
    assert!(!request.quit);
    assert!(!request.forced);
    assert_eq!(editor.mode, EditorModes::Command);
    let (request, text) = match editor.save_checked(request, at(100)) {
        EditorAction::Write(request, text) => (request, text),
        _ => panic!("a write was expected"),
    };
    assert_eq!(text, "\nb");
    editor.save_finished(request, Ok(at(200)));
    assert_eq!(editor.mode, EditorModes::Normal);
    assert_eq!(editor.terminal.command_line, "saved file notes.txt");
    assert_eq!(active(&editor).modified_time, at(200));
    assert!(!active(&editor).is_changed);
    assert_eq!(editor.buff_vec.len(), 1);
}

#[test]
fn save_guard_refuses_when_the_file_changed_on_disk() {
    let mut editor = editor_with(vec![file("notes.txt", &["a", "b"])]);
    keys(&mut editor, "x");
    let request = match last_key(&mut editor, ":w\r") {
        EditorAction::Stat(request) => request,
        _ => panic!("a look at the file was expected"),
    };
    let action = editor.save_checked(request, at(150));
    assert!(matches!(action, EditorAction::Continue));
    assert_eq!(editor.mode, EditorModes::Normal);
    assert_eq!(editor.terminal.command_line, "file changed use w! to overwrite ");
    assert_eq!(active_rows(&editor), vec!["", "b"]);
    assert_eq!(active(&editor).modified_time, at(100));
    assert!(active(&editor).is_changed);
}

#[test]
fn forced_save_writes_without_a_look() {
    let mut editor = editor_with(vec![file("notes.txt", &["a", "b"])]);
    let (request, text) = match last_key(&mut editor, ":w!\r") {
        EditorAction::Write(request, text) => (request, text),
        _ => panic!("a write was expected"),
    };
    assert_eq!(request.name, "notes.txt");
    assert!(request.forced);
    assert_eq!(text, "a\nb");
    editor.save_finished(request, Ok(at(300)));
    assert_eq!(active(&editor).modified_time, at(300));
    assert_eq!(editor.terminal.command_line, "saved file notes.txt");
}

#[test]
fn save_under_a_name_names_a_scratch_buffer() {
    let mut editor = editor_with(Vec::new());
    keys(&mut editor, "ihello\x1b");
    let (request, text) = match last_key(&mut editor, ":w out.txt\r") {
        EditorAction::Write(request, text) => (request, text),
        _ => panic!("a write was expected"),
    };
    assert_eq!(request.name, "out.txt");
    assert_eq!(text, "hello");
    editor.save_finished(request, Ok(at(9)));
    assert_eq!(active(&editor).filename, Some(String::from("out.txt")));
    assert!(!active(&editor).is_changed);
    assert_eq!(editor.terminal.command_line, "saved file out.txt");
}

#[test]
fn save_without_a_name_fails_at_once() {
    let mut editor = editor_with(Vec::new());
    keys(&mut editor, ":w\r");
    assert_eq!(editor.mode, EditorModes::Normal);
    assert_eq!(editor.terminal.command_line, "Empty file name");
    keys(&mut editor, ":wq!\r");
    assert_eq!(editor.terminal.command_line, "Empty file name");
    assert_eq!(editor.terminal.status_line_right, "failed");
    assert_eq!(editor.buff_vec.len(), 1);
}

#[test]
fn save_and_quit_closes_the_buffer_after_the_write() {
    let mut editor = three_buffers();
    let request = match last_key(&mut editor, ":wq\r") {
        EditorAction::Stat(request) => request,
        _ => panic!("a look at the file was expected"),
    };
    assert!(request.quit);
    let request = match editor.save_checked(request, at(100)) {
        EditorAction::Write(request, _) => request,
        _ => panic!("a write was expected"),
    };
    assert_eq!(editor.buff_vec.len(), 3);
    editor.save_finished(request, Ok(at(101)));
    assert_eq!(editor.buff_vec, vec![1001, 1002]);
    assert_eq!(editor.current_buff_index, 0);
    assert_eq!(editor.mode, EditorModes::Normal);
    assert_eq!(editor.terminal.command_line, "saved file a");
}

#[test]
fn a_failed_write_keeps_the_buffer_open() {
    let mut editor = three_buffers();
    keys(&mut editor, "x");
    let request = match last_key(&mut editor, ":wq!\r") {
        EditorAction::Write(request, _) => request,
        _ => panic!("a write was expected"),
    };
    editor.save_finished(request, Err(AppError::FileWriteError));
    assert_eq!(editor.buff_vec.len(), 3);
    assert_eq!(editor.mode, EditorModes::Normal);
    assert_eq!(editor.terminal.status_line_right, "failed");
    assert_eq!(editor.terminal.command_line, "");
    assert!(active(&editor).is_changed);
    assert_eq!(active(&editor).modified_time, at(100));
}

#[test]
fn save_steps_outside_command_mode_do_nothing() {
    let mut editor = three_buffers();
    let request = SaveRequest { name: String::from("a"), quit: true, forced: true };
    assert!(matches!(editor.save_checked(request, at(5)), EditorAction::Continue));
    let request = SaveRequest { name: String::from("a"), quit: true, forced: true };
    editor.save_finished(request, Ok(at(5)));
    assert_eq!(editor.buff_vec.len(), 3);
    assert_eq!(active(&editor).modified_time, at(100));
    assert_eq!(editor.terminal.command_line, "");
}

#[test]
fn render_ui_places_the_window() {
    let mut editor = editor_with(Vec::new());
    assert!(matches!(editor.render_ui(), Ok(true)));
    keys(&mut editor, "i");
    for _ in 0..30 {
        keys(&mut editor, "ab\r");
    }
    keys(&mut editor, "\x1b");
    assert!(matches!(editor.render_ui(), Ok(false)));
    assert_eq!(active(&editor).pos.y, 30);
    assert_eq!(editor.terminal.camera.y, 9);
    assert_eq!(editor.terminal.cursor.y, 21);
    assert_eq!(editor.terminal.line_no_digits, 2);
    keys(&mut editor, "gg");
    assert!(matches!(editor.render_ui(), Ok(false)));
    assert_eq!(editor.terminal.camera.y, 0);
    assert_eq!(editor.terminal.cursor, Position { x: 4, y: 0 });
}

#[test]
fn render_ui_refuses_a_screen_without_room() {
    let mut editor = Editor::new(Vec::new(), at(1), Position { x: 0, y: 24 });
    assert!(matches!(editor.render_ui(), Err(AppError::TermError)));
    let mut editor = Editor::new(Vec::new(), at(1), Position { x: 80, y: 2 });
    assert!(matches!(editor.render_ui(), Err(AppError::TermError)));
    let mut editor = Editor::new(Vec::new(), at(1), Position { x: 80, y: 3 });
    assert!(matches!(editor.render_ui(), Ok(true)));
}
