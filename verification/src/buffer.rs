use vstd::prelude::*;
use std::collections::HashMap;
use crate::buffer::laws::{
    law_delete_keeps_cursor_legal, law_insert_keeps_cursor_legal, law_motion_keeps_cursor_legal,
    law_motion_leaves_text, lemma_repeating_a_step_that_stays, lemma_word_motion_frame,
};
use crate::buffer::model::{least, without, Document, Sticky};
use crate::error::{AppError, FileError};
use crate::file::{file_contents, joined};
use crate::insertmode::InsertType;
use crate::normalmode::motions::Motion;
use crate::terminal::Position;
use crate::text::{
    blanks, char_count, insert_chars, join_strings, remove_chars, slice_chars, spaces,
    string_of_char, text_of,
};
use crate::utils::{
    classes_of, classify_line, get_first_non_white_space, get_next_empty_string,
    get_previous_empty_string, next_big_word_start, next_word_start, texts, CharClass,
};

pub mod laws;
pub mod model;

verus! {

/// When a file was last modified, as time since the Unix epoch.
#[derive(Debug, Clone, Copy, PartialEq, Eq, Structural)]
pub struct ModifiedTime {
    pub secs: u64,
    pub nanos: u32,
}

/// The column that vertical motions aim for: a fixed one, or the end of
/// whatever line the cursor comes to.
#[derive(Debug, Clone, Copy, PartialEq, Eq, Structural)]
pub enum StickyColumn {
    Fixed(usize),
    EndOfLine,
}

impl View for StickyColumn {
    type V = Sticky;

    open spec fn view(&self) -> Sticky {
        match *self {
            StickyColumn::Fixed(c) => Sticky::Column(c as int),
            StickyColumn::EndOfLine => Sticky::LineEnd,
        }
    }
}

/// A file as it was found on disk: its name, its lines, and when it was last
/// modified.
pub struct LoadedFile {
    pub filename: String,
    pub rows: Vec<String>,
    pub modified_time: ModifiedTime,
}

/// One step of a save: what the caller has to do next, or that the save has
/// ended without a write.
pub enum SaveStep {
    /// Find out when the file of this name was last modified, and hand the
    /// answer to `write_checked`.
    Stat(String),
    /// Write the text (second) to the file of this name (first), and hand
    /// the outcome to `write_finished`.
    Write(String, String),
    /// Nothing is written, for this reason.
    Failed(FileError),
}

/// A `SaveStep` with texts in place of strings.
pub enum SavePlan {
    Stat(Seq<char>),
    Write(Seq<char>, Seq<char>),
    Failed(FileError),
}

impl View for SaveStep {
    type V = SavePlan;

    open spec fn view(&self) -> SavePlan {
        match *self {
            SaveStep::Stat(name) => SavePlan::Stat(name@),
            SaveStep::Write(name, text) => SavePlan::Write(name@, text@),
            SaveStep::Failed(e) => SavePlan::Failed(e),
        }
    }
}

/// A text with a cursor, and what is known of the file it belongs to.
pub struct TextBuffer {
    pub filename: Option<String>,
    pub modified_time: ModifiedTime,
    pub rows: Vec<String>,
    pub pos: Position,
    pub x_end: StickyColumn,
    pub is_changed: bool,
}

impl View for TextBuffer {
    type V = Document;

    open spec fn view(&self) -> Document {
        Document {
            lines: texts(self.rows@),
            x: self.pos.x as int,
            y: self.pos.y as int,
            sticky: self.x_end@,
        }
    }
}

impl TextBuffer {
    /// What is known of the file: its name, when it was last modified, and
    /// whether the text has changed since.
    pub open spec fn file_state(&self) -> (Option<String>, ModifiedTime, bool) {
        (self.filename, self.modified_time, self.is_changed)
    }

    /// Whether row `y` exists.
    fn is_valid_y(&self, y: usize) -> (r: bool)
        ensures
            r == self@.valid_y(y as int),
    {
        y < self.rows.len()
    }

    /// The length of the line under the cursor; 0 where the cursor is on no row.
    fn line_len(&self) -> (n: usize)
        ensures
            n == self@.line().len(),
    {
        if self.pos.y < self.rows.len() {
            char_count(&self.rows[self.pos.y])
        } else {
            0
        }
    }

    /// The number of columns that hold a character: of the line under the
    /// cursor or, with the cursor on no row, of the last line.
    fn width(&self) -> (n: usize)
        ensures
            forall|x: int| self@.valid_x(x) <==> 0 <= x < n,
    {
        let n = self.rows.len();
        if self.pos.y < n {
            char_count(&self.rows[self.pos.y])
        } else if n > 0 {
            char_count(&self.rows[n - 1])
        } else {
            0
        }
    }

    /// Whether column `x` holds a character: of the line under the cursor or,
    /// with the cursor on no row, of the last line.
    fn is_valid_x(&self, x: usize) -> (r: bool)
        ensures
            r == self@.valid_x(x as int),
    {
        x < self.width()
    }

    /// Puts the cursor in column `x` if that holds a character, of the line
    /// under the cursor or, with the cursor on no row, of the last line; else
    /// in column `default`.
    pub fn set_x_or(&mut self, default: usize, x: usize)
        ensures
            final(self)@ == old(self)@.set_x_or(default as int, x as int),
            final(self).file_state() == old(self).file_state(),
    {
        if self.is_valid_x(x) {
            self.pos.x = x;
        } else {
            self.pos.x = default;
        }
    }

    /// Does to the buffer what `Document::set_y_or` says.
    fn set_y_or(&mut self, default: usize, y: usize)
        ensures
            final(self)@ == old(self)@.set_y_or(default as int, y as int),
            final(self).file_state() == old(self).file_state(),
    {
        if self.is_valid_y(y) {
            self.pos.y = y
        } else {
            self.pos.y = default;
        }
    }

    /// The column of the last character of the line under the cursor; 0 for
    /// an empty line and where the cursor is on no row.
    pub fn end_of_line(&self) -> (x: usize)
        ensures
            x == self@.end_of_line(),
    {
        let n = self.line_len();
        if n > 0 {
            n - 1
        } else {
            0
        }
    }

    /// The column of the first character of the line under the cursor that is
    /// no white space; 0 if there is none and where the cursor is on no row.
    pub fn first_non_white_space(&self) -> (x: usize)
        ensures
            x == self@.first_non_white_space(),
    {
        if self.pos.y < self.rows.len() {
            get_first_non_white_space(self.rows[self.pos.y].as_str())
        } else {
            assert(classes_of(self@.line()) =~= Seq::<CharClass>::empty());
            0
        }
    }

    /// The last row; 0 in a buffer without lines.
    fn end_of_file(&self) -> (y: usize)
        ensures
            y == self@.end_of_file(),
    {
        let n = self.rows.len();
        if n > 0 {
            n - 1
        } else {
            0
        }
    }

    /// Does to the buffer what `Document::move_to_x` says.
    fn move_to_x(&mut self, x: usize)
        ensures
            final(self)@ == old(self)@.move_to_x(x as int),
            final(self).file_state() == old(self).file_state(),
    {
        let eol = self.end_of_line();
        self.set_x_or(eol, x);
    }

    /// Does to the buffer what `Document::move_to_line` says.
    fn move_to_line(&mut self, line: usize)
        ensures
            final(self)@ == old(self)@.move_to_line(line as int),
            final(self).file_state() == old(self).file_state(),
    {
        let eof = self.end_of_file();
        self.set_y_or(eof, line);
    }

    /// Does to the buffer what `Document::delete_str` says.
    fn delete_str(&mut self, start: usize, end: usize)
        ensures
            final(self)@ == old(self)@.delete_str(start as int, end as int),
            final(self).file_state() == old(self).file_state(),
    {
        if end < start || self.pos.y >= self.rows.len() {
            return ;
        }
        let n = char_count(&self.rows[self.pos.y]);
        let e = if end > n {
            n
        } else {
            end
        };
        if start < e {
            let line = remove_chars(&self.rows[self.pos.y], start, e);
            self.rows.set(self.pos.y, line);
        }
        assert(texts(self.rows@) =~= old(self)@.lines.update(
            old(self)@.y,
            without(old(self)@.line(), start as int, end as int),
        ));
        let x = self.pos.x;
        self.move_to_x(x);
    }

    /// Does to the buffer what `Document::delete_lines` says.
    fn delete_lines(&mut self, start: usize, end: usize)
        ensures
            final(self)@ == old(self)@.delete_lines(start as int, end as int),
            final(self).file_state() == old(self).file_state(),
    {
        let n = self.rows.len();
        let e = if end > n {
            n
        } else {
            end
        };
        if start < e {
            let mut k = start;
            while k < e
                invariant
                    start <= k <= e <= n,
                    n == old(self).rows.len(),
                    self.rows@ == old(self).rows@.subrange(0, start as int) + old(self).rows@.subrange(k as int, n as int),
                    self.pos == old(self).pos,
                    self.x_end == old(self).x_end,
                    self.file_state() == old(self).file_state(),
                decreases e - k,
            {
                self.rows.remove(start);
                k += 1;
                assert(self.rows@ =~= old(self).rows@.subrange(0, start as int) + old(self).rows@.subrange(k as int, n as int));
            }
            if self.rows.len() == 0 {
                self.rows.push(String::new());
            }
        }
        assert(texts(self.rows@) =~= {
            let left = without(old(self)@.lines, start as int, end as int);
            if left.len() == 0 && old(self)@.lines.len() > 0 {
                seq![Seq::<char>::empty()]
            } else {
                left
            }
        });
        let eof = self.end_of_file();
        let y = self.pos.y;
        self.set_y_or(eof, y);
        let x = self.pos.x;
        self.set_x_or(0, x);
    }

    /// Does to the buffer what `Document::apply_sticky` says.
    fn apply_sticky(&mut self)
        ensures
            final(self)@ == old(self)@.apply_sticky(),
            final(self).file_state() == old(self).file_state(),
    {
        match self.x_end {
            StickyColumn::Fixed(c) => self.move_to_x(c),
            StickyColumn::EndOfLine => {
                self.pos.x = self.end_of_line();
            },
        }
    }

    /// `move_to_x` for the column `a + b`, which may be beyond any integer
    /// that the machine holds.
    fn move_to_x_sum(&mut self, a: usize, b: usize)
        ensures
            final(self)@ == old(self)@.move_to_x(a + b),
            final(self).file_state() == old(self).file_state(),
    {
        match a.checked_add(b) {
            Some(x) => self.move_to_x(x),
            None => {
                let width = self.width();
                assert(!self@.valid_x(a + b));
                self.pos.x = self.end_of_line();
            },
        }
    }

    /// Does to the buffer what `Document::move_left` says.
    fn move_left(&mut self, repeat: usize)
        ensures
            final(self)@ == old(self)@.move_left(repeat as int),
            final(self).file_state() == old(self).file_state(),
    {
        self.pos.x = self.pos.x.saturating_sub(repeat);
        self.x_end = StickyColumn::Fixed(self.pos.x);
    }

    /// Does to the buffer what `Document::move_right` says.
    fn move_right(&mut self, repeat: usize)
        ensures
            final(self)@ == old(self)@.move_right(repeat as int),
            final(self).file_state() == old(self).file_state(),
    {
        let x = self.pos.x;
        self.move_to_x_sum(x, repeat);
        self.x_end = StickyColumn::Fixed(self.pos.x);
    }

    /// Does to the buffer what `Document::move_up` says.
    fn move_up(&mut self, repeat: usize)
        ensures
            final(self)@ == old(self)@.move_up(repeat as int),
            final(self).file_state() == old(self).file_state(),
    {
        let y = self.pos.y.saturating_sub(repeat);
        self.set_y_or(0, y);
        self.apply_sticky();
    }

    /// Does to the buffer what `Document::move_down` says.
    fn move_down(&mut self, repeat: usize)
        ensures
            final(self)@ == old(self)@.move_down(repeat as int),
            final(self).file_state() == old(self).file_state(),
    {
        let eof = self.end_of_file();
        match self.pos.y.checked_add(repeat) {
            Some(y) => self.set_y_or(eof, y),
            None => {
                self.pos.y = eof;
            },
        }
        self.apply_sticky();
    }

    /// Does to the buffer what `Document::move_backspace` says.
    fn move_backspace(&mut self, repeat: usize)
        ensures
            final(self)@ == old(self)@.move_backspace(repeat as int),
            final(self).file_state() == old(self).file_state(),
    {
        if self.pos.x == 0 {
            if self.pos.y == 0 {
                return ;
            }
            self.pos.y = self.pos.y - 1;
            self.pos.x = self.end_of_line();
            return ;
        }
        self.move_left(repeat);
    }

    /// Does to the buffer what `Document::move_to_start_of_line` says.
    fn move_to_start_of_line(&mut self)
        ensures
            final(self)@ == old(self)@.move_to_start_of_line(),
            final(self).file_state() == old(self).file_state(),
    {
        self.pos.x = 0;
        self.x_end = StickyColumn::Fixed(0);
    }

    /// Does to the buffer what `Document::move_to_end_of_line` says.
    fn move_to_end_of_line(&mut self, repeat: usize)
        ensures
            final(self)@ == old(self)@.move_to_end_of_line(repeat as int),
            final(self).file_state() == old(self).file_state(),
    {
        self.move_down(repeat.saturating_sub(1));
        self.pos.x = self.end_of_line();
        self.x_end = StickyColumn::EndOfLine;
    }

    /// Does to the buffer what `Document::move_to_first_non_white_space` says.
    fn move_to_first_non_white_space(&mut self)
        ensures
            final(self)@ == old(self)@.move_to_first_non_white_space(),
            final(self).file_state() == old(self).file_state(),
    {
        self.pos.x = self.first_non_white_space();
        self.x_end = StickyColumn::Fixed(self.pos.x);
    }

    /// Does to the buffer what `Document::next_line_start` says.
    fn next_line_start(&mut self)
        ensures
            final(self)@ == old(self)@.next_line_start(),
            final(self).file_state() == old(self).file_state(),
    {
        let eof = self.end_of_file();
        match self.pos.y.checked_add(1) {
            Some(y) => self.set_y_or(eof, y),
            None => {
                self.pos.y = eof;
            },
        }
        self.pos.x = self.first_non_white_space();
    }

    /// The nearest empty line below the cursor, or the last row.
    fn get_next_empty_string(&self) -> (y: usize)
        ensures
            y == crate::utils::next_empty_line(self@.lines, self@.y),
    {
        get_next_empty_string(&self.rows, self.pos.y)
    }

    /// The nearest empty line above the cursor, or row 0.
    fn get_previous_empty_string(&self) -> (y: usize)
        ensures
            y == crate::utils::prev_empty_line(self@.lines, self@.y),
    {
        get_previous_empty_string(&self.rows, self.pos.y)
    }

    /// Does to the buffer what `Document::move_previous_paragraph` says.
    fn move_previous_paragraph(&mut self, repeat: usize)
        ensures
            final(self)@ == old(self)@.move_previous_paragraph(repeat as nat),
            final(self).file_state() == old(self).file_state(),
    {
        let mut i: usize = 0;
        while i < repeat
            invariant
                i <= repeat,
                self@.move_previous_paragraph((repeat - i) as nat) == old(self)@.move_previous_paragraph(repeat as nat),
                self.file_state() == old(self).file_state(),
            decreases repeat - i,
        {
            let before = self.pos;
            let ghost stood = self@;
            let line = self.get_previous_empty_string();
            self.move_to_line(line);
            if self.pos.x == before.x && self.pos.y == before.y {
                proof {
                    lemma_repeating_a_step_that_stays(stood, (repeat - i) as nat);
                }
                return ;
            }
            i += 1;
        }
    }

    /// Does to the buffer what `Document::move_next_paragraph` says.
    fn move_next_paragraph(&mut self, repeat: usize)
        ensures
            final(self)@ == old(self)@.move_next_paragraph(repeat as nat),
            final(self).file_state() == old(self).file_state(),
    {
        let mut i: usize = 0;
        while i < repeat
            invariant
                i <= repeat,
                self@.move_next_paragraph((repeat - i) as nat) == old(self)@.move_next_paragraph(repeat as nat),
                self.file_state() == old(self).file_state(),
            decreases repeat - i,
        {
            let before = self.pos;
            let ghost stood = self@;
            let line = self.get_next_empty_string();
            self.move_to_line(line);
            if self.pos.x == before.x && self.pos.y == before.y {
                proof {
                    lemma_repeating_a_step_that_stays(stood, (repeat - i) as nat);
                }
                return ;
            }
            i += 1;
        }
    }

    /// Does to the buffer what `Document::word_step` says.
    fn word_step(&mut self)
        ensures
            final(self)@ == old(self)@.word_step(),
            final(self).file_state() == old(self).file_state(),
    {
        if self.pos.y >= self.rows.len() {
            return ;
        }
        let classes = classify_line(self.rows[self.pos.y].as_str());
        let word = next_word_start(&classes, self.pos.x);
        if classes.len() == word {
            self.next_line_start();
        } else {
            self.move_to_x(word);
        }
    }

    /// Does to the buffer what `Document::big_word_step` says.
    fn big_word_step(&mut self)
        ensures
            final(self)@ == old(self)@.big_word_step(),
            final(self).file_state() == old(self).file_state(),
    {
        if self.pos.y >= self.rows.len() {
            return ;
        }
        let classes = classify_line(self.rows[self.pos.y].as_str());
        let word = next_big_word_start(&classes, self.pos.x);
        if classes.len() == word {
            self.next_line_start();
        } else {
            self.move_to_x(word);
        }
    }

    /// Does to the buffer what `Document::move_next_word` says.
    fn move_next_word(&mut self, repeat: usize)
        ensures
            final(self)@ == old(self)@.move_next_word(repeat as nat),
            final(self).file_state() == old(self).file_state(),
    {
        let mut i: usize = 0;
        while i < repeat
            invariant
                i <= repeat,
                self@.move_next_word((repeat - i) as nat) == old(self)@.move_next_word(repeat as nat),
                self.file_state() == old(self).file_state(),
            decreases repeat - i,
        {
            let before = self.pos;
            let ghost stood = self@;
            self.word_step();
            if self.pos.x == before.x && self.pos.y == before.y {
                proof {
                    lemma_repeating_a_step_that_stays(stood, (repeat - i) as nat);
                }
                return ;
            }
            i += 1;
        }
    }

    /// Does to the buffer what `Document::move_next_word_after_white_space` says.
    fn move_next_word_after_white_space(&mut self, repeat: usize)
        ensures
            final(self)@ == old(self)@.move_next_word_after_white_space(repeat as nat),
            final(self).file_state() == old(self).file_state(),
    {
        let mut i: usize = 0;
        while i < repeat
            invariant
                i <= repeat,
                self@.move_next_word_after_white_space((repeat - i) as nat) == old(self)@.move_next_word_after_white_space(repeat as nat),
                self.file_state() == old(self).file_state(),
            decreases repeat - i,
        {
            let before = self.pos;
            let ghost stood = self@;
            self.big_word_step();
            if self.pos.x == before.x && self.pos.y == before.y {
                proof {
                    lemma_repeating_a_step_that_stays(stood, (repeat - i) as nat);
                }
                return ;
            }
            i += 1;
        }
    }

    /// Does to the buffer what `Document::clamp_x` says.
    fn clamp_x(&mut self)
        ensures
            final(self)@ == old(self)@.clamp_x(),
            final(self).file_state() == old(self).file_state(),
    {
        let x = self.pos.x;
        self.move_to_x(x);
    }

    /// Moves the cursor as `direction` says. The text is left as it is, and
    /// the cursor ends on a character wherever it started on one.
    pub fn motion(&mut self, direction: Motion)
        ensures
            final(self)@ == old(self)@.motion(direction),
            final(self)@.lines == old(self)@.lines,
            old(self)@.on_char() ==> final(self)@.on_char(),
            old(self)@.in_bounds() ==> final(self)@.in_bounds(),
            final(self).file_state() == old(self).file_state(),
    {
        proof {
            law_motion_leaves_text(old(self)@, direction);
            law_motion_keeps_cursor_legal(old(self)@, direction);
        }
        match direction {
            Motion::Left(repeat) => self.move_left(repeat),
            Motion::Right(repeat) => self.move_right(repeat),
            Motion::Up(repeat) => self.move_up(repeat),
            Motion::Down(repeat) => self.move_down(repeat),
            Motion::BackSpace(repeat) => self.move_backspace(repeat),
            Motion::Word(repeat) => self.move_next_word(repeat),
            Motion::WORD(repeat) => self.move_next_word_after_white_space(repeat),
            Motion::ParagraphStart(repeat) => {
                self.move_previous_paragraph(repeat);
                self.clamp_x();
            },
            Motion::ParagraphEnd(repeat) => {
                self.move_next_paragraph(repeat);
                self.clamp_x();
            },
            Motion::StartOfLine => self.move_to_start_of_line(),
            Motion::EndOfLine(repeat) => self.move_to_end_of_line(repeat),
            Motion::StartOfNonWhiteSpace => self.move_to_first_non_white_space(),
            Motion::GoToLine(line) => {
                self.move_to_line(line);
                self.clamp_x();
            },
            Motion::EndOfFile => {
                let eof = self.end_of_file();
                self.move_to_line(eof);
                self.clamp_x();
            },
        }
    }

    /// `delete_str` for the end `a + b`, which may be beyond any integer that
    /// the machine holds.
    fn delete_str_sum(&mut self, start: usize, a: usize, b: usize)
        ensures
            final(self)@ == old(self)@.delete_str(start as int, a + b),
            final(self).file_state() == old(self).file_state(),
    {
        match a.checked_add(b) {
            Some(end) => self.delete_str(start, end),
            None => {
                let n = self.line_len();
                self.delete_str(start, usize::MAX);
            },
        }
    }

    /// `delete_lines` for the end `a + b`, which may be beyond any integer
    /// that the machine holds.
    fn delete_lines_sum(&mut self, start: usize, a: usize, b: usize)
        ensures
            final(self)@ == old(self)@.delete_lines(start as int, a + b),
            final(self).file_state() == old(self).file_state(),
    {
        match a.checked_add(b) {
            Some(end) => self.delete_lines(start, end),
            None => {
                let n = self.rows.len();
                self.delete_lines(start, usize::MAX);
            },
        }
    }

    /// Does to the buffer what `Document::delete_left` says.
    fn delete_left(&mut self, repeat: usize)
        ensures
            final(self)@ == old(self)@.delete_left(repeat as int),
            final(self).file_state() == old(self).file_state(),
    {
        let x = self.pos.x.saturating_sub(repeat);
        let end = self.pos.x;
        self.delete_str(x, end);
        self.move_to_x(x);
        self.x_end = StickyColumn::Fixed(x);
    }

    /// Does to the buffer what `Document::delete_right` says.
    fn delete_right(&mut self, repeat: usize)
        ensures
            final(self)@ == old(self)@.delete_right(repeat as int),
            final(self).file_state() == old(self).file_state(),
    {
        if self.line_len() == 0 {
            return ;
        }
        let x = self.pos.x;
        self.delete_str_sum(x, x, repeat);
        self.x_end = StickyColumn::Fixed(self.pos.x);
    }

    /// Does to the buffer what `Document::delete_down` says.
    fn delete_down(&mut self, repeat: usize)
        ensures
            final(self)@ == old(self)@.delete_down(repeat as int),
            final(self).file_state() == old(self).file_state(),
    {
        let y = self.pos.y;
        match repeat.checked_add(1) {
            Some(count) => self.delete_lines_sum(y, y, count),
            None => {
                let n = self.rows.len();
                self.delete_lines(y, usize::MAX);
            },
        }
    }

    /// Does to the buffer what `Document::delete_to_end_of_line` says.
    fn delete_to_end_of_line(&mut self, repeat: usize)
        ensures
            final(self)@ == old(self)@.delete_to_end_of_line(repeat as int),
            final(self).file_state() == old(self).file_state(),
    {
        let x = self.pos.x;
        let n = self.line_len();
        self.delete_str(x, n);
        if self.pos.y >= self.rows.len() {
            return ;
        }
        if repeat > 1 {
            let y = self.pos.y;
            self.delete_lines_sum(y + 1, y, repeat);
        }
    }

    /// Does to the buffer what `Document::delete_to_first_non_white_space` says.
    fn delete_to_first_non_white_space(&mut self)
        ensures
            final(self)@ == old(self)@.delete_to_first_non_white_space(),
            final(self).file_state() == old(self).file_state(),
    {
        let first = self.first_non_white_space();
        let x = self.pos.x;
        if x > first {
            self.delete_str_sum(first, x, 1);
            self.move_to_x(first);
        } else {
            self.delete_str(x, first);
            self.move_to_x(x);
        }
    }

    /// Does to the buffer what `Document::delete_start_of_line` says.
    fn delete_start_of_line(&mut self)
        ensures
            final(self)@ == old(self)@.delete_start_of_line(),
            final(self).file_state() == old(self).file_state(),
    {
        let x = self.pos.x;
        self.delete_str_sum(0, x, 1);
        self.move_to_x(0);
    }

    /// Does to the buffer what `Document::delete_to_end_of_file` says.
    fn delete_to_end_of_file(&mut self)
        ensures
            final(self)@ == old(self)@.delete_to_end_of_file(),
            final(self).file_state() == old(self).file_state(),
    {
        let y = self.pos.y;
        let n = self.rows.len();
        self.delete_lines(y, n);
    }

    /// Does to the buffer what `Document::delete_backspace` says.
    fn delete_backspace(&mut self, repeat: usize)
        ensures
            final(self)@ == old(self)@.delete_backspace(repeat as int),
            final(self).file_state() == old(self).file_state(),
    {
        if self.pos.x == 0 {
            if self.pos.y == 0 || self.pos.y >= self.rows.len() {
                return ;
            }
            let y = self.pos.y;
            let above = char_count(&self.rows[y - 1]);
            let joined = join_strings(&self.rows[y - 1], &self.rows[y]);
            self.rows.set(y - 1, joined);
            self.rows.remove(y);
            self.pos.y = y - 1;
            self.pos.x = above;
            assert(texts(self.rows@) =~= old(self)@.lines.update(
                y - 1,
                old(self)@.lines[y - 1] + old(self)@.line(),
            ).remove(y as int));
            return ;
        }
        let x = self.pos.x.saturating_sub(repeat);
        let end = self.pos.x;
        self.delete_str(x, end);
        self.pos.x = x;
        self.x_end = StickyColumn::Fixed(x);
    }

    /// Does to the buffer what `Document::delete_word` says.
    fn delete_word(&mut self, repeat: usize)
        ensures
            final(self)@ == old(self)@.delete_word(repeat as nat),
            final(self).file_state() == old(self).file_state(),
    {
        let start = self.pos.x;
        let start_line = self.pos.y;
        self.move_next_word(repeat);
        let end = self.pos.x;
        let end_line = self.pos.y;
        let ghost to = self@;
        proof {
            lemma_word_motion_frame(old(self)@, repeat as nat);
        }
        if start_line == end_line {
            self.pos.x = start;
            assert(self@ == old(self)@);
            if start == end {
                self.delete_str_sum(start, start, 1);
            }
            self.delete_str(start, end);
            self.move_to_x(start);
            return ;
        }
        let count = self.rows.len();
        assert(start_line < end_line < count);
        let landed = end == self.first_non_white_space();
        let tail_from = if end < self.line_len() {
            end
        } else {
            self.line_len()
        };
        let tail = slice_chars(&self.rows[end_line], tail_from, self.line_len());
        self.pos.x = start;
        self.pos.y = start_line;
        assert(self@ == old(self)@);
        let n = self.line_len();
        if landed {
            if start == 0 || n == 0 {
                self.delete_lines(start_line, end_line);
            } else {
                self.delete_str(start, n);
                self.delete_lines(start_line + 1, end_line);
            }
            self.move_to_x(start);
            return ;
        }
        let head_to = if start < n {
            start
        } else {
            n
        };
        let head = slice_chars(&self.rows[start_line], 0, head_to);
        let joined = join_strings(&head, &tail);
        self.rows.set(start_line, joined);
        assert(self@ == old(self)@.with_line(
            old(self)@.line().subrange(0, least(start as int, n as int)) + to.line().subrange(
                least(to.x, to.line().len() as int),
                to.line().len() as int,
            ),
        )) by {
            assert(texts(self.rows@) =~= old(self)@.lines.update(start_line as int, joined@));
        }
        self.delete_lines(start_line + 1, end_line + 1);
        self.move_to_x(start);
    }

    /// Deletes what `direction` names and marks the buffer as changed. The
    /// motions that name no text to delete only move the cursor. A cursor
    /// that is at most just past the end of its line stays so.
    pub fn delete(&mut self, direction: Motion)
        ensures
            final(self)@ == old(self)@.delete(direction),
            old(self)@.in_bounds() ==> final(self)@.in_bounds(),
            final(self).is_changed,
            final(self).filename == old(self).filename,
            final(self).modified_time == old(self).modified_time,
    {
        proof {
            if old(self)@.in_bounds() {
                law_delete_keeps_cursor_legal(old(self)@, direction);
            }
        }
        self.is_changed = true;
        match direction {
            Motion::Left(repeat) => self.delete_left(repeat),
            Motion::Right(repeat) => self.delete_right(repeat),
            Motion::Down(repeat) => self.delete_down(repeat),
            Motion::Word(repeat) => self.delete_word(repeat),
            Motion::BackSpace(repeat) => self.delete_backspace(repeat),
            Motion::EndOfLine(repeat) => self.delete_to_end_of_line(repeat),
            Motion::StartOfNonWhiteSpace => self.delete_to_first_non_white_space(),
            Motion::StartOfLine => self.delete_start_of_line(),
            Motion::EndOfFile => self.delete_to_end_of_file(),
            Motion::Up(_) | Motion::GoToLine(_) | Motion::ParagraphStart(_) | Motion::ParagraphEnd(
                _,
            ) | Motion::WORD(_) => self.motion(direction),
        }
    }

    /// Types key `c` at the cursor: four spaces for a tab, else the character
    /// with the code `c`. The cursor ends behind what was typed. A buffer
    /// without lines gets its first line.
    pub fn insert_char(&mut self, c: u8)
        ensures
            final(self)@ == old(self)@.insert_char(c),
            old(self)@.in_bounds() ==> final(self)@.in_bounds(),
            final(self).file_state() == old(self).file_state(),
    {
        proof {
            if old(self)@.in_bounds() {
                law_insert_keeps_cursor_legal(old(self)@, c, InsertType::Nothing);
            }
        }
        let piece = if c == 9 {
            spaces(4)
        } else {
            string_of_char(c as char)
        };
        let width: usize = if c == 9 {
            4
        } else {
            1
        };
        assert(piece@ == Document::typed(c) && piece@.len() == width);
        if self.rows.len() == 0 {
            self.rows.push(piece);
            self.pos.x = width;
            assert(texts(self.rows@) =~= seq![Document::typed(c)]);
            return ;
        }
        let y = self.pos.y;
        let x = self.pos.x;
        if y < self.rows.len() {
            if x <= char_count(&self.rows[y]) {
                let line = insert_chars(&self.rows[y], x, &piece);
                let n = char_count(&line);
                self.rows.set(y, line);
                self.pos.x = x + width;
                assert(texts(self.rows@) =~= old(self)@.lines.update(y as int, line@));
            }
        }
    }

    /// Enter, while inserting: cuts the line at the cursor and opens a row
    /// below for what stood from the cursor on.
    pub fn split_line(&mut self)
        ensures
            final(self)@ == old(self)@.split_line(),
            old(self)@.in_bounds() ==> final(self)@.in_bounds(),
            final(self).file_state() == old(self).file_state(),
    {
        proof {
            if old(self)@.in_bounds() {
                law_insert_keeps_cursor_legal(old(self)@, 0, InsertType::Nothing);
            }
        }
        let count = self.rows.len();
        if count == 0 {
            self.rows.push(String::new());
            self.rows.push(String::new());
            self.pos.y = 1;
            assert(texts(self.rows@) =~= seq![Seq::<char>::empty(), Seq::<char>::empty()]);
            return ;
        }
        let y = self.pos.y;
        let x = self.pos.x;
        if y >= count {
            return ;
        }
        if x > self.end_of_line() {
            self.rows.insert(y + 1, String::new());
            self.pos.y = y + 1;
            self.pos.x = 0;
            assert(texts(self.rows@) =~= old(self)@.lines.insert(y + 1, Seq::<char>::empty()));
            return ;
        }
        let n = char_count(&self.rows[y]);
        let head = slice_chars(&self.rows[y], 0, x);
        let tail = slice_chars(&self.rows[y], x, n);
        if y < count - 1 {
            let indent = get_first_non_white_space(self.rows[y + 1].as_str());
            let line = join_strings(&spaces(indent), &tail);
            self.rows.set(y, head);
            self.rows.insert(y + 1, line);
            self.pos.y = y + 1;
            self.pos.x = indent;
            assert(texts(self.rows@) =~= old(self)@.lines.update(y as int, head@).insert(
                y + 1,
                line@,
            ));
        } else {
            self.rows.set(y, head);
            self.rows.insert(y + 1, tail);
            self.pos.y = y + 1;
            self.pos.x = 0;
            assert(texts(self.rows@) =~= old(self)@.lines.update(y as int, head@).insert(
                y + 1,
                tail@,
            ));
        }
    }

    /// Does to the buffer what `Document::insert_append` says.
    fn insert_append(&mut self, pos: usize)
        ensures
            final(self)@ == old(self)@.insert_append(pos as int),
            final(self).file_state() == old(self).file_state(),
    {
        if self.pos.y < self.rows.len() {
            let n = char_count(&self.rows[self.pos.y]);
            self.pos.x = if pos <= n {
                pos
            } else {
                n
            };
        }
    }

    /// Does to the buffer what `Document::insert_prev_line` says.
    fn insert_prev_line(&mut self)
        ensures
            final(self)@ == old(self)@.insert_prev_line(),
            final(self).file_state() == old(self).file_state(),
    {
        let y = self.pos.y;
        if y < self.rows.len() {
            let indent = self.first_non_white_space();
            let line = spaces(indent);
            self.rows.insert(y, line);
            self.pos.x = indent;
            assert(texts(self.rows@) =~= old(self)@.lines.insert(y as int, blanks(indent as int)));
        }
    }

    /// Does to the buffer what `Document::insert_next_line` says.
    fn insert_next_line(&mut self)
        ensures
            final(self)@ == old(self)@.insert_next_line(),
            final(self).file_state() == old(self).file_state(),
    {
        let y = self.pos.y;
        if y < self.rows.len() {
            let indent = self.first_non_white_space();
            let line = spaces(indent);
            self.rows.insert(y + 1, line);
            self.pos.y = y + 1;
            self.pos.x = indent;
            assert(texts(self.rows@) =~= old(self)@.lines.insert(y + 1, blanks(indent as int)));
        } else if self.rows.len() == 0 {
            self.rows.push(String::new());
            self.rows.push(String::new());
            self.pos.y = 1;
            assert(texts(self.rows@) =~= seq![Seq::<char>::empty(), Seq::<char>::empty()]);
        }
    }

    /// Puts the cursor where the way `pos` of entering Insert mode wants it,
    /// opening a row for `o` and `O`, and marks the buffer as changed.
    pub fn insert(&mut self, pos: InsertType)
        ensures
            final(self)@ == old(self)@.insert(pos),
            old(self)@.in_bounds() ==> final(self)@.in_bounds(),
            final(self).is_changed,
            final(self).filename == old(self).filename,
            final(self).modified_time == old(self).modified_time,
    {
        proof {
            if old(self)@.in_bounds() {
                law_insert_keeps_cursor_legal(old(self)@, 0, pos);
            }
        }
        self.is_changed = true;
        match pos {
            InsertType::Append => {
                let x = self.pos.x;
                if x < usize::MAX {
                    self.insert_append(x + 1);
                } else {
                    let n = self.line_len();
                    self.insert_append(x);
                }
            },
            InsertType::InsertStart => self.move_to_first_non_white_space(),
            InsertType::AppendEnd => {
                let n = self.line_len();
                self.insert_append(n);
            },
            InsertType::Next => self.insert_next_line(),
            InsertType::Prev => self.insert_prev_line(),
            InsertType::Nothing => (),
        }
    }

    /// Leaving Insert mode: takes a cursor that is beyond the last character
    /// of its line back onto it.
    pub fn fix_cursor_pos_escape_insert(&mut self)
        ensures
            final(self)@ == old(self)@.fix_cursor_pos_escape_insert(),
            final(self)@.lines == old(self)@.lines,
            old(self)@.in_bounds() ==> final(self)@.on_char(),
            final(self).file_state() == old(self).file_state(),
    {
        proof {
            if old(self)@.in_bounds() {
                law_insert_keeps_cursor_legal(old(self)@, 0, InsertType::Nothing);
            }
        }
        self.clamp_x();
    }

    /// A buffer for no file: without lines, last modified `now`.
    pub fn create_empty_buffer(now: ModifiedTime) -> (buffer: TextBuffer)
        ensures
            buffer.filename is None,
            buffer.modified_time == now,
            !buffer.is_changed,
            buffer.rows@.len() == 0,
            buffer.pos == (Position { x: 0, y: 0 }),
            buffer.x_end == StickyColumn::Fixed(0),
    {
        TextBuffer {
            is_changed: false,
            filename: None,
            modified_time: now,
            x_end: StickyColumn::Fixed(0),
            rows: Vec::new(),
            pos: Position::new(),
        }
    }

    /// A buffer for a file as it was found on disk.
    pub fn create_file_buffer(file: LoadedFile) -> (buffer: TextBuffer)
        ensures
            buffer.filename == Some(file.filename),
            buffer.modified_time == file.modified_time,
            !buffer.is_changed,
            buffer.rows == file.rows,
            buffer.pos == (Position { x: 0, y: 0 }),
            buffer.x_end == StickyColumn::Fixed(0),
    {
        TextBuffer {
            is_changed: false,
            modified_time: file.modified_time,
            filename: Some(file.filename),
            x_end: StickyColumn::Fixed(0),
            rows: file.rows,
            pos: Position::new(),
        }
    }

    /// A buffer for the file `file`, or, without one, for no file and last
    /// modified `now`. The cursor is at the origin and nothing has changed.
    pub fn new(file: Option<LoadedFile>, now: ModifiedTime) -> (buffer: TextBuffer)
        ensures
            !buffer.is_changed,
            buffer.pos == (Position { x: 0, y: 0 }),
            buffer.x_end == StickyColumn::Fixed(0),
            match file {
                Some(f) => buffer.filename == Some(f.filename) && buffer.modified_time
                    == f.modified_time && buffer.rows == f.rows,
                None => buffer.filename is None && buffer.modified_time == now
                    && buffer.rows@.len() == 0,
            },
    {
        match file {
            None => Self::create_empty_buffer(now),
            Some(f) => Self::create_file_buffer(f),
        }
    }

    /// The text of the buffer as it is written to a file: its lines, a line
    /// feed between each two.
    pub fn file_text(&self) -> (text: String)
        ensures
            text@ == joined(self@.lines),
    {
        file_contents(&self.rows)
    }

    /// The first step of a save under `filename`, or under the buffer's own
    /// name if none is given. Without any name the save fails with
    /// `EmptyFileName`. Under a name that is given, and under the buffer's
    /// own name when `force` is set, the text is to be written at once.
    /// Under the buffer's own name without `force`, the file's time of
    /// modification is to be looked up first.
    pub open spec fn save_plan(&self, force: bool, filename: Option<Seq<char>>) -> SavePlan {
        match filename {
            Some(name) => SavePlan::Write(name, joined(self@.lines)),
            None => match self.filename {
                Some(name) => if force {
                    SavePlan::Write(name@, joined(self@.lines))
                } else {
                    SavePlan::Stat(name@)
                },
                None => SavePlan::Failed(FileError::EmptyFileName),
            },
        }
    }

    /// The step of a save that follows the look at the file `name` on disk:
    /// if it was last modified at another time than the buffer knows of,
    /// someone else has changed it and the save fails with `FileChanged`;
    /// else the text is to be written.
    pub open spec fn checked_plan(&self, name: String, on_disk: ModifiedTime) -> SavePlan {
        if on_disk != self.modified_time {
            SavePlan::Failed(FileError::FileChanged)
        } else {
            SavePlan::Write(name@, joined(self@.lines))
        }
    }

    /// Begins a save and says what to do first; see `save_plan`. The buffer
    /// is not changed.
    pub fn write_buffer_file(&self, force: bool, filename: Option<String>) -> (step: SaveStep)
        ensures
            step@ == self.save_plan(force, text_of(filename)),
    {
        match filename {
            Some(name) => SaveStep::Write(name, self.file_text()),
            None => match &self.filename {
                Some(name) => if force {
                    SaveStep::Write(name.clone(), self.file_text())
                } else {
                    SaveStep::Stat(name.clone())
                },
                None => SaveStep::Failed(FileError::EmptyFileName),
            },
        }
    }

    /// Goes on with a save that is not forced, once it is known that the
    /// file `name` was last modified at `on_disk`; see `checked_plan`. The
    /// buffer is not changed.
    pub fn write_checked(&self, name: String, on_disk: ModifiedTime) -> (step: SaveStep)
        ensures
            step@ == self.checked_plan(name, on_disk),
    {
        if on_disk.secs != self.modified_time.secs || on_disk.nanos != self.modified_time.nanos {
            SaveStep::Failed(FileError::FileChanged)
        } else {
            SaveStep::Write(name, self.file_text())
        }
    }

    /// Ends a save under `name`. After a write that succeeded and left the
    /// file last modified at the time given, the buffer takes that time,
    /// counts as unchanged, and takes `name` as its own if it had none; the
    /// answer is `name`. After a write that failed the buffer stays as it
    /// is and the answer is the failure. The text and the cursor stay as
    /// they are in either case.
    pub fn write_finished(&mut self, name: String, outcome: Result<ModifiedTime, AppError>) -> (r:
        Result<String, FileError>)
        ensures
            final(self).rows == old(self).rows,
            final(self).pos == old(self).pos,
            final(self).x_end == old(self).x_end,
            match outcome {
                Ok(time) => {
                    &&& r == Ok::<String, FileError>(name)
                    &&& final(self).modified_time == time
                    &&& !final(self).is_changed
                    &&& final(self).filename == if old(self).filename is None {
                        Some(name)
                    } else {
                        old(self).filename
                    }
                },
                Err(e) => {
                    &&& r == Err::<String, FileError>(FileError::OtherError(e))
                    &&& final(self).file_state() == old(self).file_state()
                },
            },
    {
        match outcome {
            Ok(time) => {
                self.modified_time = time;
                self.is_changed = false;
                if self.filename.is_none() {
                    self.filename = Some(name.clone());
                }
                Ok(name)
            },
            Err(e) => Err(FileError::OtherError(e)),
        }
    }
}

/// The identifier of the first buffer that is opened.
pub const FIRST_BUFFER_ID: usize = 1000;

/// The buffer of a file as it was found on disk, or of no file: what
/// `TextBuffer::new` makes of it.
pub open spec fn opened(buffer: TextBuffer, file: Option<LoadedFile>, now: ModifiedTime) -> bool {
    &&& !buffer.is_changed
    &&& buffer.pos == (Position { x: 0, y: 0 })
    &&& buffer.x_end == StickyColumn::Fixed(0)
    &&& match file {
        Some(f) => buffer.filename == Some(f.filename) && buffer.modified_time == f.modified_time
            && buffer.rows == f.rows,
        None => buffer.filename is None && buffer.modified_time == now && buffer.rows@.len() == 0,
    }
}

impl TextBuffer {
    /// Opens one buffer for each file of `files`, in their order, or one
    /// buffer for no file if there are none. The buffers are numbered from
    /// `FIRST_BUFFER_ID` on, and their numbers are added to `buff_vec` in
    /// the same order.
    pub fn load_buffers(files: Vec<LoadedFile>, now: ModifiedTime, buff_vec: &mut Vec<usize>) -> (buffers:
        HashMap<usize, TextBuffer>)
        requires
            FIRST_BUFFER_ID + files@.len() <= usize::MAX,
        ensures
            ({
                let count = if files@.len() == 0 {
                    1
                } else {
                    files@.len() as int
                };
                &&& final(buff_vec)@ == old(buff_vec)@ + Seq::new(
                    count as nat,
                    |i: int| (FIRST_BUFFER_ID + i) as usize,
                )
                &&& forall|k: usize|
                    buffers@.contains_key(k) <==> FIRST_BUFFER_ID <= k < FIRST_BUFFER_ID + count
                &&& forall|i: int|
                    0 <= i < files@.len() ==> opened(
                        #[trigger] buffers@[(FIRST_BUFFER_ID + i) as usize],
                        Some(files@[i]),
                        now,
                    )
                &&& files@.len() == 0 ==> opened(buffers@[FIRST_BUFFER_ID], None, now)
            }),
    {
        broadcast use vstd::std_specs::hash::group_hash_axioms;

        let mut buffers: HashMap<usize, TextBuffer> = HashMap::new();
        let mut files = files;
        let ghost all = files@;
        let n = files.len();
        if n == 0 {
            let buffer = Self::new(None, now);
            buff_vec.push(FIRST_BUFFER_ID);
            buffers.insert(FIRST_BUFFER_ID, buffer);
            assert(buff_vec@ =~= old(buff_vec)@ + Seq::new(
                1,
                |i: int| (FIRST_BUFFER_ID + i) as usize,
            ));
            return buffers;
        }
        let mut i: usize = 0;
        while i < n
            invariant
                i <= n,
                n == all.len(),
                FIRST_BUFFER_ID + n <= usize::MAX,
                files@ == all.subrange(i as int, n as int),
                buff_vec@ == old(buff_vec)@ + Seq::new(
                    i as nat,
                    |j: int| (FIRST_BUFFER_ID + j) as usize,
                ),
                forall|k: usize|
                    buffers@.contains_key(k) <==> FIRST_BUFFER_ID <= k < FIRST_BUFFER_ID + i,
                forall|j: int|
                    0 <= j < i ==> opened(
                        #[trigger] buffers@[(FIRST_BUFFER_ID + j) as usize],
                        Some(all[j]),
                        now,
                    ),
            decreases n - i,
        {
            let file = files.remove(0);
            assert(file == all[i as int]);
            let buffer = Self::new(Some(file), now);
            let id = FIRST_BUFFER_ID + i;
            buffers.insert(id, buffer);
            buff_vec.push(id);
            i += 1;
            assert(files@ =~= all.subrange(i as int, n as int));
            assert(buff_vec@ =~= old(buff_vec)@ + Seq::new(
                i as nat,
                |j: int| (FIRST_BUFFER_ID + j) as usize,
            ));
        }
        buffers
    }
}

/// Save guard. A save that is not forced and goes to the buffer's own file
/// looks at the file first, and fails with `FileChanged` if the file was
/// modified at another time than the buffer knows of. A forced save, and a
/// save under a name that is given, is written without a look. No step
/// before the write changes the buffer.
pub proof fn law_save_guard(buffer: TextBuffer, name: String, on_disk: ModifiedTime)
    requires
        buffer.filename == Some(name),
    ensures
        buffer.save_plan(false, None) == SavePlan::Stat(name@),
        on_disk != buffer.modified_time ==> buffer.checked_plan(name, on_disk) == SavePlan::Failed(
            FileError::FileChanged,
        ),
        on_disk == buffer.modified_time ==> buffer.checked_plan(name, on_disk) == SavePlan::Write(
            name@,
            joined(buffer@.lines),
        ),
        buffer.save_plan(true, None) == SavePlan::Write(name@, joined(buffer@.lines)),
{
}

} // verus!
