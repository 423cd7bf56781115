use modal_editor::buffer::{LoadedFile, ModifiedTime, TextBuffer};
use modal_editor::editor::EditorModes;
use modal_editor::error::{AppError, FileError};
use modal_editor::terminal::{CursorType, Position, Terminal};
use modal_editor::text::{
    char_count, chars_of, insert_chars, join_strings, number_text, remove_chars, slice_chars,
    spaces, string_of_char,
};

fn window(width: usize, height: usize) -> Terminal {
    Terminal::new(0, "", Position { x: width, y: height })
}

fn lines_buffer(count: usize) -> TextBuffer {
    let file = LoadedFile {
        filename: String::from("f"),
        rows: (0..count).map(|i| format!("line {}", i)).collect(),
        modified_time: ModifiedTime { secs: 0, nanos: 0 },
    };
    TextBuffer::new(Some(file), ModifiedTime { secs: 0, nanos: 0 })
}

#[test]
fn position_starts_at_the_origin() {
    assert_eq!(Position::new(), Position { x: 0, y: 0 });
}

#[test]
fn a_new_window_looks_at_the_top() {
    let terminal = Terminal::new(120, "notes.txt", Position { x: 80, y: 24 });
    assert_eq!(terminal.size, Position { x: 80, y: 24 });
    assert_eq!(terminal.camera, Position { x: 0, y: 0 });
    assert_eq!(terminal.cursor, Position { x: 0, y: 0 });
    assert_eq!(terminal.line_no_digits, 3);
    assert_eq!(terminal.status_line_left, "notes.txt");
    assert_eq!(terminal.status_line_right, "");
    assert_eq!(terminal.command_line, "");
    assert_eq!(terminal.cursor_type, CursorType::Block);
    assert!(terminal.is_start_first_time);
}

#[test]
fn line_number_width_is_the_number_of_digits() {
    assert_eq!(Terminal::get_line_no_padding(0), 1);
    assert_eq!(Terminal::get_line_no_padding(1), 1);
    assert_eq!(Terminal::get_line_no_padding(9), 1);
    assert_eq!(Terminal::get_line_no_padding(10), 2);
    assert_eq!(Terminal::get_line_no_padding(99), 2);
    assert_eq!(Terminal::get_line_no_padding(100), 3);
    assert_eq!(Terminal::get_line_no_padding(12345), 5);
    assert_eq!(Terminal::get_line_no_padding(usize::MAX), usize::MAX.to_string().len());
}

#[test]
fn camera_follows_the_cursor_down_and_up() {
    let mut terminal = window(80, 12);
    terminal.render_cursor_position(&Position { x: 0, y: 0 });
    assert_eq!((terminal.camera.y, terminal.cursor.y), (0, 0));
    terminal.render_cursor_position(&Position { x: 0, y: 9 });
    assert_eq!((terminal.camera.y, terminal.cursor.y), (0, 9));
    terminal.render_cursor_position(&Position { x: 0, y: 10 });
    assert_eq!((terminal.camera.y, terminal.cursor.y), (1, 9));
    terminal.render_cursor_position(&Position { x: 0, y: 25 });
    assert_eq!((terminal.camera.y, terminal.cursor.y), (16, 9));
    terminal.render_cursor_position(&Position { x: 0, y: 20 });
    assert_eq!((terminal.camera.y, terminal.cursor.y), (16, 4));
    terminal.render_cursor_position(&Position { x: 0, y: 3 });
    assert_eq!((terminal.camera.y, terminal.cursor.y), (3, 0));
    terminal.render_cursor_position(&Position { x: 0, y: 0 });
    assert_eq!((terminal.camera.y, terminal.cursor.y), (0, 0));
    assert_eq!(terminal.camera.x, 0);
}

#[test]
fn camera_on_the_smallest_screen() {
    let mut terminal = window(10, 3);
    terminal.render_cursor_position(&Position { x: 0, y: 5 });
    assert_eq!((terminal.camera.y, terminal.cursor.y), (5, 0));
    terminal.render_cursor_position(&Position { x: 0, y: 4 });
    assert_eq!((terminal.camera.y, terminal.cursor.y), (4, 0));
}

#[test]
fn cursor_column_is_taken_modulo_the_width() {
    let mut terminal = window(80, 12);
    terminal.line_no_digits = 3;
    terminal.render_cursor_position(&Position { x: 7, y: 0 });
    assert_eq!(terminal.cursor.x, 12);
    terminal.render_cursor_position(&Position { x: 80, y: 0 });
    assert_eq!(terminal.cursor.x, 5);
    terminal.render_cursor_position(&Position { x: 165, y: 0 });
    assert_eq!(terminal.cursor.x, 10);
}

#[test]
fn visible_rows_start_at_the_camera() {
    let mut terminal = window(80, 12);
    assert_eq!(terminal.visible_rows(), (0, 10));
    terminal.render_cursor_position(&Position { x: 0, y: 30 });
    assert_eq!(terminal.visible_rows(), (21, 31));
    assert_eq!(window(80, 1).visible_rows(), (0, 0));
}

#[test]
fn refresh_screen_shows_the_start_page_until_there_are_lines() {
    let mut terminal = window(80, 12);
    let empty = TextBuffer::new(None, ModifiedTime { secs: 0, nanos: 0 });
    assert!(terminal.refresh_screen(&empty, EditorModes::Normal));
    assert!(terminal.is_start_first_time);
    assert_eq!(terminal.line_no_digits, 1);
    let mut filled = lines_buffer(250);
    filled.pos = Position { x: 2, y: 100 };
    assert!(!terminal.refresh_screen(&filled, EditorModes::Normal));
    assert!(!terminal.is_start_first_time);
    assert_eq!(terminal.line_no_digits, 3);
    assert_eq!(terminal.camera.y, 91);
    assert_eq!(terminal.cursor, Position { x: 2 + 1 + 2, y: 9 });
    assert!(!terminal.refresh_screen(&empty, EditorModes::Normal));
    assert_eq!(terminal.line_no_digits, 1);
    assert_eq!(terminal.camera.y, 0);
}

#[test]
fn cursor_shape_follows_the_mode() {
    let mut terminal = window(80, 12);
    terminal.change_cursor(EditorModes::Insert);
    assert_eq!(terminal.cursor_type, CursorType::Ibeam);
    terminal.change_cursor(EditorModes::Command);
    assert_eq!(terminal.cursor_type, CursorType::Block);
    terminal.change_cursor(EditorModes::Insert);
    terminal.change_cursor(EditorModes::Normal);
    assert_eq!(terminal.cursor_type, CursorType::Block);
}

#[test]
fn keys_are_decoded() {
    assert_eq!(Terminal::read_key(&[0, 0, 0, 0], 0), 0);
    assert_eq!(Terminal::read_key(&[b'x', 0, 0, 0], 1), b'x');
    assert_eq!(Terminal::read_key(&[27, 0, 0, 0], 1), 27);
    assert_eq!(Terminal::read_key(&[27, b'[', b'A', 0], 3), b'k');
    assert_eq!(Terminal::read_key(&[27, b'[', b'B', 0], 3), b'j');
    assert_eq!(Terminal::read_key(&[27, b'[', b'C', 0], 3), b'l');
    assert_eq!(Terminal::read_key(&[27, b'[', b'D', 0], 3), b'h');
    assert_eq!(Terminal::read_key(&[27, b'[', b'H', 0], 3), 27);
    assert_eq!(Terminal::read_key(&[27, b'O', b'A', 0], 3), 27);
    assert_eq!(Terminal::handle_other_keys(&[27, b'[', b'A', 0]), b'k');
    assert_eq!(Terminal::handle_other_keys(&[27, b'x', b'A', 0]), 27);
}

#[test]
fn file_error_messages() {
    assert_eq!(FileError::EmptyFileName.message(), "No filename");
    assert_eq!(FileError::FileChanged.message(), "file changed");
    assert_eq!(FileError::OtherError(AppError::TermError).message(), "other error");
}

#[test]
fn app_error_messages() {
    assert_eq!(AppError::TermError.message(), "Terminal error");
    assert_eq!(AppError::FileWriteError.message(), "File write error: ");
    assert_eq!(
        AppError::BufferError(String::from("render ui")).message(),
        "Error opening buffer render ui"
    );
    let io = std::io::Error::new(std::io::ErrorKind::Other, "disk on fire");
    assert_eq!(AppError::from(io).message(), "I/O error: disk on fire");
    let parse = "x".parse::<usize>().unwrap_err();
    let text = AppError::from(parse).message();
    assert!(text.starts_with("I/O error: "));
    assert!(text.len() > "I/O error: ".len());
}

#[test]
fn errors_are_made_from_outside_errors() {
    let io = std::io::Error::new(std::io::ErrorKind::NotFound, "gone");
    assert!(matches!(AppError::from(io), AppError::Io(_)));
    let parse = "".parse::<usize>().unwrap_err();
    assert!(matches!(AppError::from(parse), AppError::ParseIntError(_)));
}

#[test]
fn text_helpers() {
    let s = String::from("h\u{e9}llo");
    assert_eq!(char_count(&s), 5);
    assert_eq!(chars_of("h\u{e9}"), vec!['h', '\u{e9}']);
    assert_eq!(slice_chars(&s, 1, 3), "\u{e9}l");
    assert_eq!(remove_chars(&s, 1, 3), "hlo");
    assert_eq!(remove_chars(&s, 2, 2), "h\u{e9}llo");
    assert_eq!(insert_chars(&s, 2, &String::from("--")), "h\u{e9}--llo");
    assert_eq!(insert_chars(&s, 5, &String::from("!")), "h\u{e9}llo!");
    assert_eq!(join_strings(&String::from("ab"), &String::from("cd")), "abcd");
    assert_eq!(spaces(0), "");
    assert_eq!(spaces(3), "   ");
    assert_eq!(string_of_char('\u{e9}'), "\u{e9}");
}

#[test]
fn numbers_are_written_in_decimal() {
    assert_eq!(number_text(0), "0");
    assert_eq!(number_text(7), "7");
    assert_eq!(number_text(10), "10");
    assert_eq!(number_text(90210), "90210");
    assert_eq!(number_text(usize::MAX), usize::MAX.to_string());
}
