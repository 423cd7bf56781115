use modal_editor::file::{file_contents, load_file};
use std::io::{BufRead, Cursor};

fn as_read_line_by_line(text: &str) -> Vec<String> {
    Cursor::new(text.as_bytes()).lines().map(|line| line.unwrap()).collect()
}

fn strings(lines: &[&str]) -> Vec<String> {
    lines.iter().map(|s| s.to_string()).collect()
}

#[test]
fn load_file_splits_at_line_feeds() {
    assert_eq!(load_file("a\nb"), strings(&["a", "b"]));
    assert_eq!(load_file("a\nb\n"), strings(&["a", "b"]));
    assert_eq!(load_file("a\n\nb\n"), strings(&["a", "", "b"]));
    assert_eq!(load_file("one line"), strings(&["one line"]));
}

#[test]
fn load_file_of_nothing_has_no_lines() {
    assert_eq!(load_file(""), Vec::<String>::new());
    assert_eq!(load_file("\n"), strings(&[""]));
    assert_eq!(load_file("\n\n"), strings(&["", ""]));
}

#[test]
fn load_file_drops_the_carriage_return_before_a_line_feed() {
    assert_eq!(load_file("a\r\nb\r\n"), strings(&["a", "b"]));
    assert_eq!(load_file("\r\n"), strings(&[""]));
    assert_eq!(load_file("a\r\r\n"), strings(&["a\r"]));
    assert_eq!(load_file("a\rb\n"), strings(&["a\rb"]));
    assert_eq!(load_file("a\r"), strings(&["a\r"]));
    assert_eq!(load_file("a\n\r"), strings(&["a", "\r"]));
}

#[test]
fn load_file_reads_like_a_line_reader() {
    let samples = [
        "",
        "\n",
        "\r",
        "\r\n",
        "x",
        "x\n",
        "x\r\n",
        "x\ny",
        "x\n\ny\r\n\r\nz",
        "tab\there\n  indented\n\n",
        "\u{e9}t\u{e9}\nsoir\u{e9}e\r\n",
        "\n\n\n",
        "a\r\r\nb\r",
    ];
    for text in samples {
        assert_eq!(load_file(text), as_read_line_by_line(text), "{:?}", text);
    }
}

#[test]
fn file_contents_joins_with_line_feeds() {
    assert_eq!(file_contents(&strings(&[])), "");
    assert_eq!(file_contents(&strings(&["a"])), "a");
    assert_eq!(file_contents(&strings(&["a", "b"])), "a\nb");
    assert_eq!(file_contents(&strings(&["", ""])), "\n");
    assert_eq!(file_contents(&strings(&["a", "", "b", ""])), "a\n\nb\n");
    let rows = strings(&["x", "y z", "\u{e9}"]);
    assert_eq!(file_contents(&rows), rows.join("\n"));
}

#[test]
fn written_lines_are_read_back() {
    let rows = strings(&["fn main() {", "    body();", "", "}"]);
    assert_eq!(load_file(&file_contents(&rows)), rows);
}
