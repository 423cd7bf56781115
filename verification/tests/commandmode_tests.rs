use modal_editor::commandmode::{blank_flags, parse_index, word_bounds, CommandMode, CommandReturn};
use modal_editor::error::{AppError, FileError};

fn typed(keys: &str) -> CommandMode {
    let mut mode = CommandMode::new();
    for c in keys.bytes() {
        assert_eq!(mode.handle_key(c), CommandReturn::Nothing);
    }
    mode
}

fn entered(keys: &str) -> (CommandMode, CommandReturn) {
    let mut mode = typed(keys);
    let answer = mode.handle_key(13);
    (mode, answer)
}

#[test]
fn command_line_starts_empty() {
    let mode = CommandMode::new();
    assert_eq!(mode.command_string, "");
    assert_eq!(mode.command, "");
    assert_eq!(mode.value, None);
}

#[test]
fn command_line_takes_printable_keys() {
    let mode = typed("w my file");
    assert_eq!(mode.command_string, "w my file");
    let mut mode = typed("ab");
    assert_eq!(mode.handle_key(b':'), CommandReturn::Nothing);
    assert_eq!(mode.handle_key(7), CommandReturn::Nothing);
    assert_eq!(mode.handle_key(0), CommandReturn::Nothing);
    assert_eq!(mode.command_string, "ab");
    assert_eq!(mode.handle_key(200), CommandReturn::Nothing);
    assert_eq!(mode.command_string, "ab\u{c8}");
}

#[test]
fn save_commands() {
    assert_eq!(entered("w").1, CommandReturn::Save(None));
    assert_eq!(entered("w!").1, CommandReturn::ForceSave(None));
    assert_eq!(entered("wq").1, CommandReturn::SaveQuit(None));
    assert_eq!(entered("wq!").1, CommandReturn::ForceSaveQuit(None));
    assert_eq!(entered("w out.txt").1, CommandReturn::Save(Some(String::from("out.txt"))));
    assert_eq!(entered("w! out.txt").1, CommandReturn::ForceSave(Some(String::from("out.txt"))));
    assert_eq!(entered("wq out.txt").1, CommandReturn::SaveQuit(Some(String::from("out.txt"))));
    assert_eq!(
        entered("wq! out.txt").1,
        CommandReturn::ForceSaveQuit(Some(String::from("out.txt")))
    );
}

#[test]
fn quit_commands() {
    assert_eq!(entered("q").1, CommandReturn::Quit);
    assert_eq!(entered("q!").1, CommandReturn::ForceQuit);
    assert_eq!(entered("q ignored").1, CommandReturn::Quit);
}

#[test]
fn buffer_commands() {
    assert_eq!(entered("bn").1, CommandReturn::BuffNext);
    assert_eq!(entered("bp").1, CommandReturn::BuffPrev);
    assert_eq!(entered("b0").1, CommandReturn::BuffN(0));
    assert_eq!(entered("b7").1, CommandReturn::BuffN(7));
    assert_eq!(entered("b012").1, CommandReturn::BuffN(12));
    assert_eq!(
        entered("b18446744073709551615").1 == CommandReturn::BuffN(usize::MAX),
        usize::MAX as u128 == 18446744073709551615u128
    );
}

#[test]
fn words_are_found_between_white_space() {
    let (mode, answer) = entered("  w   name  more");
    assert_eq!(answer, CommandReturn::Save(Some(String::from("name"))));
    assert_eq!(mode.command, "w");
    assert_eq!(mode.value, Some(String::from("name")));
    assert_eq!(mode.command_string, "  w   name  more");
    let (mode, answer) = entered("w ");
    assert_eq!(answer, CommandReturn::Save(None));
    assert_eq!(mode.value, None);
}

#[test]
fn the_file_name_of_an_earlier_command_is_forgotten() {
    let mut mode = typed("w first");
    assert_eq!(mode.handle_key(13), CommandReturn::Save(Some(String::from("first"))));
    mode.escape("");
    assert_eq!(mode.handle_key(b'w'), CommandReturn::Nothing);
    assert_eq!(mode.handle_key(13), CommandReturn::Save(None));
}

#[test]
fn words_that_are_no_command_leave_a_message() {
    for keys in ["zz", "", "W", "qq", "w!!", "b", "bx", "bnn", "b1x", "b+3", "b-1", "b 1"] {
        let (mode, answer) = entered(keys);
        assert_eq!(answer, CommandReturn::Escape, "{:?}", keys);
        assert_eq!(mode.command_string, "invalid command", "{:?}", keys);
    }
    let (mode, answer) = entered("b99999999999999999999999999999999999999999");
    assert_eq!(answer, CommandReturn::Escape);
    assert_eq!(mode.command_string, "invalid command");
}

#[test]
fn escape_key_clears_the_line() {
    let mut mode = typed("wq");
    assert_eq!(mode.handle_key(27), CommandReturn::Escape);
    assert_eq!(mode.command_string, "");
    assert_eq!(mode.command, "");
}

#[test]
fn backspace_shrinks_the_line() {
    let mut mode = typed("wq");
    assert_eq!(mode.handle_key(127), CommandReturn::Nothing);
    assert_eq!(mode.command_string, "w");
    assert_eq!(mode.handle_key(127), CommandReturn::Escape);
    assert_eq!(mode.command_string, "");
    assert_eq!(mode.handle_key(127), CommandReturn::Escape);
    assert_eq!(mode.command_string, "");
}

#[test]
fn escape_shows_a_message() {
    let mut mode = typed("wq");
    mode.handle_key(13);
    mode.escape("index not found");
    assert_eq!(mode.command_string, "index not found");
    assert_eq!(mode.command, "");
}

#[test]
fn file_write_results_are_shown() {
    let mut mode = typed("w");
    mode.handle_file_write_result(Ok(String::from("notes.txt")));
    assert_eq!(mode.command_string, "saved file notes.txt");
    assert_eq!(mode.command, "");
    mode.handle_file_write_result(Err(FileError::EmptyFileName));
    assert_eq!(mode.command_string, "Empty file name");
    mode.handle_file_write_result(Err(FileError::FileChanged));
    assert_eq!(mode.command_string, "file changed use w! to overwrite ");
    mode.handle_file_write_result(Err(FileError::OtherError(AppError::FileWriteError)));
    assert_eq!(mode.command_string, "");
}

#[test]
fn word_bounds_on_flags() {
    let blank = vec![true, false, false, true, true, false];
    assert_eq!(word_bounds(&blank, 0), (1, 3));
    assert_eq!(word_bounds(&blank, 3), (5, 6));
    assert_eq!(word_bounds(&blank, 6), (6, 6));
    assert_eq!(word_bounds(&vec![true, true], 0), (2, 2));
    assert_eq!(word_bounds(&vec![], 0), (0, 0));
    assert_eq!(blank_flags(&vec!['a', ' ', '\u{a0}', '-']), vec![false, true, true, false]);
}

#[test]
fn parse_index_reads_digits_only() {
    let chars = |s: &str| s.chars().collect::<Vec<char>>();
    assert_eq!(parse_index(&chars("0")), Some(0));
    assert_eq!(parse_index(&chars("42")), Some(42));
    assert_eq!(parse_index(&chars("007")), Some(7));
    assert_eq!(parse_index(&chars("")), None);
    assert_eq!(parse_index(&chars("4a")), None);
    assert_eq!(parse_index(&chars("+4")), None);
    assert_eq!(parse_index(&chars(" 4")), None);
    assert_eq!(parse_index(&chars("\u{663}")), None);
    assert_eq!(parse_index(&chars(&usize::MAX.to_string())), Some(usize::MAX));
    assert_eq!(parse_index(&chars(&format!("{}0", usize::MAX))), None);
    assert_eq!(parse_index(&chars(&format!("{}", usize::MAX as u128 + 1))), None);
}
