use vstd::prelude::*;
use crate::insertmode::InsertType;
use crate::normalmode::motions::Motion;
use crate::text::blanks;
use crate::utils::{
    classes_of, first_non_blank, next_big_word, next_empty_line, next_word, prev_empty_line,
};

verus! {

/// The column that vertical motions aim for.
pub enum Sticky {
    /// A column that is kept where the line is long enough.
    Column(int),
    /// The end of whatever line the cursor comes to.
    LineEnd,
}

/// The mathematical content of a buffer: its lines, its cursor and the column
/// that vertical motions aim for. Every operation of the buffer is a function
/// from one document to the next.
pub struct Document {
    pub lines: Seq<Seq<char>>,
    pub x: int,
    pub y: int,
    pub sticky: Sticky,
}

/// One thing that can be done to a document.
pub enum Edit {
    /// A motion of the cursor.
    Move(Motion),
    /// A deletion of what a motion names.
    Delete(Motion),
    /// A key typed while inserting.
    Type(u8),
    /// Enter, while inserting.
    Enter,
    /// The cursor is placed for inserting.
    Open(InsertType),
    /// Inserting ends.
    Escape,
}

/// The smaller of two integers.
pub open spec fn least(a: int, b: int) -> int {
    if a <= b {
        a
    } else {
        b
    }
}

/// `a - b`, but not below 0.
pub open spec fn minus(a: int, b: int) -> int {
    if a >= b {
        a - b
    } else {
        0
    }
}

/// `s` without its items `from..to`, where `to` is cut down to the length of
/// `s`; `s` itself where that leaves nothing to remove.
pub open spec fn without<A>(s: Seq<A>, from: int, to: int) -> Seq<A> {
    let e = least(to, s.len() as int);
    if 0 <= from < e {
        s.subrange(0, from) + s.subrange(e, s.len() as int)
    } else {
        s
    }
}

impl Document {
    /// Row `y` exists.
    pub open spec fn valid_y(self, y: int) -> bool {
        0 <= y < self.lines.len()
    }

    /// The cursor is on a row of the document.
    pub open spec fn has_line(self) -> bool {
        self.valid_y(self.y)
    }

    /// The line under the cursor; the empty line if the cursor is on no row.
    pub open spec fn line(self) -> Seq<char> {
        if self.has_line() {
            self.lines[self.y]
        } else {
            Seq::empty()
        }
    }

    /// Column `x` holds a character: of the line under the cursor, or of the
    /// last line if the cursor is on no row.
    pub open spec fn valid_x(self, x: int) -> bool {
        if self.has_line() {
            0 <= x < self.lines[self.y].len()
        } else if self.lines.len() > 0 {
            0 <= x < self.lines.last().len()
        } else {
            false
        }
    }

    /// The column of the last character of the line under the cursor; 0 for an
    /// empty line.
    pub open spec fn end_of_line(self) -> int {
        minus(self.line().len() as int, 1)
    }

    /// The column of the first character of the line under the cursor that is
    /// no white space; 0 if there is none.
    pub open spec fn first_non_white_space(self) -> int {
        first_non_blank(classes_of(self.line()))
    }

    /// The last row; 0 in an empty document.
    pub open spec fn end_of_file(self) -> int {
        minus(self.lines.len() as int, 1)
    }

    /// The cursor is legal for inserting: on a row, and on a character of it
    /// or just past its last one. In a document without lines it is at the
    /// origin.
    pub open spec fn in_bounds(self) -> bool {
        if self.lines.len() == 0 {
            self.x == 0 && self.y == 0
        } else {
            self.has_line() && 0 <= self.x <= self.line().len()
        }
    }

    /// The cursor is legal for commands: on a row and on a character of it,
    /// or at column 0 of an empty line. In a document without lines it is at
    /// the origin.
    pub open spec fn on_char(self) -> bool {
        if self.lines.len() == 0 {
            self.x == 0 && self.y == 0
        } else {
            self.has_line() && 0 <= self.x <= self.end_of_line()
        }
    }

    /// The document with the cursor in column `x`.
    pub open spec fn at_x(self, x: int) -> Document {
        Document { x: x, ..self }
    }

    /// The document with the cursor on row `y`.
    pub open spec fn at_y(self, y: int) -> Document {
        Document { y: y, ..self }
    }

    /// The document with other lines.
    pub open spec fn with_lines(self, lines: Seq<Seq<char>>) -> Document {
        Document { lines: lines, ..self }
    }

    /// The document with another aim for vertical motions.
    pub open spec fn with_sticky(self, sticky: Sticky) -> Document {
        Document { sticky: sticky, ..self }
    }

    /// The document with the line under the cursor replaced.
    pub open spec fn with_line(self, line: Seq<char>) -> Document {
        self.with_lines(self.lines.update(self.y, line))
    }

    /// The cursor goes to column `x` if that holds a character, else to
    /// `default`.
    pub open spec fn set_x_or(self, default: int, x: int) -> Document {
        if self.valid_x(x) {
            self.at_x(x)
        } else {
            self.at_x(default)
        }
    }

    /// The cursor goes to row `y` if that exists, else to `default`.
    pub open spec fn set_y_or(self, default: int, y: int) -> Document {
        if self.valid_y(y) {
            self.at_y(y)
        } else {
            self.at_y(default)
        }
    }

    /// The cursor goes to column `x` if that holds a character, else to the
    /// end of the line.
    pub open spec fn move_to_x(self, x: int) -> Document {
        self.set_x_or(self.end_of_line(), x)
    }

    /// The cursor stays where it is if it is on a character, else goes to the
    /// end of the line.
    pub open spec fn clamp_x(self) -> Document {
        self.move_to_x(self.x)
    }

    /// The cursor goes to row `line` if that exists, else to the last row.
    pub open spec fn move_to_line(self, line: int) -> Document {
        self.set_y_or(self.end_of_file(), line)
    }

    /// The cursor takes the column that vertical motions aim for.
    pub open spec fn apply_sticky(self) -> Document {
        match self.sticky {
            Sticky::Column(c) => self.move_to_x(c),
            Sticky::LineEnd => self.at_x(self.end_of_line()),
        }
    }

    /// The characters `start..end` leave the line under the cursor, `end` cut
    /// down to the length of the line. The cursor stays if it is still on a
    /// character, else goes to the end of the line. Nothing happens if `end`
    /// is before `start` or the cursor is on no row.
    pub open spec fn delete_str(self, start: int, end: int) -> Document {
        if end < start || !self.has_line() {
            self
        } else {
            self.with_line(without(self.line(), start, end)).clamp_x()
        }
    }

    /// The rows `start..end` leave the document, `end` cut down to the number
    /// of rows. A document that loses all its rows keeps one empty line. The
    /// cursor stays on its row if that still exists, else goes to the last
    /// row; it stays in its column if that holds a character, else goes to
    /// column 0.
    pub open spec fn delete_lines(self, start: int, end: int) -> Document {
        let left = without(self.lines, start, end);
        let kept = if left.len() == 0 && self.lines.len() > 0 {
            seq![Seq::<char>::empty()]
        } else {
            left
        };
        let d = self.with_lines(kept);
        let d = d.set_y_or(d.end_of_file(), d.y);
        d.set_x_or(0, d.x)
    }

    /// `h`: `repeat` columns to the left, not beyond column 0.
    pub open spec fn move_left(self, repeat: int) -> Document {
        let x = minus(self.x, repeat);
        self.at_x(x).with_sticky(Sticky::Column(x))
    }

    /// `l`: `repeat` columns to the right if a character is there, else to the
    /// end of the line.
    pub open spec fn move_right(self, repeat: int) -> Document {
        let d = self.move_to_x(self.x + repeat);
        d.with_sticky(Sticky::Column(d.x))
    }

    /// `k`: `repeat` rows up, not beyond row 0, then to the column aimed for.
    pub open spec fn move_up(self, repeat: int) -> Document {
        self.set_y_or(0, minus(self.y, repeat)).apply_sticky()
    }

    /// `j`: `repeat` rows down if that row exists, else to the last row, then
    /// to the column aimed for.
    pub open spec fn move_down(self, repeat: int) -> Document {
        self.set_y_or(self.end_of_file(), self.y + repeat).apply_sticky()
    }

    /// Backspace as a motion: at column 0 of a row below the first, to the
    /// end of the row above; elsewhere `repeat` columns to the left.
    pub open spec fn move_backspace(self, repeat: int) -> Document {
        if self.x == 0 {
            if self.y == 0 {
                self
            } else {
                let d = self.at_y(minus(self.y, 1));
                d.at_x(d.end_of_line())
            }
        } else {
            self.move_left(repeat)
        }
    }

    /// `0`: to column 0.
    pub open spec fn move_to_start_of_line(self) -> Document {
        self.at_x(0).with_sticky(Sticky::Column(0))
    }

    /// `$`: `repeat - 1` rows down, then to the end of the line; vertical
    /// motions aim for the end of the line from now on.
    pub open spec fn move_to_end_of_line(self, repeat: int) -> Document {
        let d = self.move_down(minus(repeat, 1));
        d.at_x(d.end_of_line()).with_sticky(Sticky::LineEnd)
    }

    /// `^`: to the first character that is no white space.
    pub open spec fn move_to_first_non_white_space(self) -> Document {
        let x = self.first_non_white_space();
        self.at_x(x).with_sticky(Sticky::Column(x))
    }

    /// To the first character that is no white space of the row below; of the
    /// same row if it is the last.
    pub open spec fn next_line_start(self) -> Document {
        let d = self.set_y_or(self.end_of_file(), self.y + 1);
        d.at_x(d.first_non_white_space())
    }

    /// One step of `w`: to the next start of a word on the line, or, where
    /// the line has none, to the first character that is no white space of
    /// the row below.
    pub open spec fn word_step(self) -> Document {
        if !self.has_line() {
            self
        } else {
            let word = next_word(classes_of(self.line()), self.x);
            if self.line().len() == word {
                self.next_line_start()
            } else {
                self.move_to_x(word)
            }
        }
    }

    /// One step of `W`: to the next start of a word delimited by white space
    /// on the line, or, where the line has none, to the first character that
    /// is no white space of the row below.
    pub open spec fn big_word_step(self) -> Document {
        if !self.has_line() {
            self
        } else {
            let word = next_big_word(classes_of(self.line()), self.x);
            if self.line().len() == word {
                self.next_line_start()
            } else {
                self.move_to_x(word)
            }
        }
    }

    /// One step of `}`: to the nearest empty line below, or to the last row.
    pub open spec fn next_paragraph_step(self) -> Document {
        self.move_to_line(next_empty_line(self.lines, self.y))
    }

    /// One step of `{`: to the nearest empty line above, or to row 0.
    pub open spec fn previous_paragraph_step(self) -> Document {
        self.move_to_line(prev_empty_line(self.lines, self.y))
    }

    /// `w`, `repeat` times.
    pub open spec fn move_next_word(self, repeat: nat) -> Document
        decreases repeat,
    {
        if repeat == 0 {
            self
        } else {
            self.word_step().move_next_word((repeat - 1) as nat)
        }
    }

    /// `W`, `repeat` times.
    pub open spec fn move_next_word_after_white_space(self, repeat: nat) -> Document
        decreases repeat,
    {
        if repeat == 0 {
            self
        } else {
            self.big_word_step().move_next_word_after_white_space((repeat - 1) as nat)
        }
    }

    /// `}`, `repeat` times; the column is left alone.
    pub open spec fn move_next_paragraph(self, repeat: nat) -> Document
        decreases repeat,
    {
        if repeat == 0 {
            self
        } else {
            self.next_paragraph_step().move_next_paragraph((repeat - 1) as nat)
        }
    }

    /// `{`, `repeat` times; the column is left alone.
    pub open spec fn move_previous_paragraph(self, repeat: nat) -> Document
        decreases repeat,
    {
        if repeat == 0 {
            self
        } else {
            self.previous_paragraph_step().move_previous_paragraph((repeat - 1) as nat)
        }
    }

    /// Where a motion takes the cursor. No motion changes the lines.
    pub open spec fn motion(self, direction: Motion) -> Document {
        match direction {
            Motion::Left(repeat) => self.move_left(repeat as int),
            Motion::Right(repeat) => self.move_right(repeat as int),
            Motion::Up(repeat) => self.move_up(repeat as int),
            Motion::Down(repeat) => self.move_down(repeat as int),
            Motion::BackSpace(repeat) => self.move_backspace(repeat as int),
            Motion::Word(repeat) => self.move_next_word(repeat as nat),
            Motion::WORD(repeat) => self.move_next_word_after_white_space(repeat as nat),
            Motion::ParagraphStart(repeat) => self.move_previous_paragraph(repeat as nat).clamp_x(),
            Motion::ParagraphEnd(repeat) => self.move_next_paragraph(repeat as nat).clamp_x(),
            Motion::StartOfLine => self.move_to_start_of_line(),
            Motion::EndOfLine(repeat) => self.move_to_end_of_line(repeat as int),
            Motion::StartOfNonWhiteSpace => self.move_to_first_non_white_space(),
            Motion::GoToLine(line) => self.move_to_line(line as int).clamp_x(),
            Motion::EndOfFile => self.move_to_line(self.end_of_file()).clamp_x(),
        }
    }

    /// `dh`: the `repeat` characters before the cursor leave the line; the
    /// cursor goes to where they began.
    pub open spec fn delete_left(self, repeat: int) -> Document {
        let x = minus(self.x, repeat);
        self.delete_str(x, self.x).move_to_x(x).with_sticky(Sticky::Column(x))
    }

    /// `dl` and `x`: the `repeat` characters from the cursor on leave the
    /// line; the cursor stays, or goes to the end of what is left. Nothing
    /// happens on an empty line.
    pub open spec fn delete_right(self, repeat: int) -> Document {
        if self.line().len() == 0 {
            self
        } else {
            let d = self.delete_str(self.x, self.x + repeat);
            d.with_sticky(Sticky::Column(d.x))
        }
    }

    /// `dd` and `dj`: the row of the cursor and the `repeat` rows below it
    /// leave the document.
    pub open spec fn delete_down(self, repeat: int) -> Document {
        self.delete_lines(self.y, self.y + repeat + 1)
    }

    /// `d$`: the line loses what stands from the cursor on, and the document
    /// the `repeat - 1` rows below.
    pub open spec fn delete_to_end_of_line(self, repeat: int) -> Document {
        let d = self.delete_str(self.x, self.line().len() as int);
        if d.has_line() && repeat > 1 {
            d.delete_lines(d.y + 1, d.y + repeat)
        } else {
            d
        }
    }

    /// `d^`: the line loses what stands between the cursor and its first
    /// character that is no white space, the character under the cursor
    /// included where that one comes first; the cursor goes to where the
    /// removed text began.
    pub open spec fn delete_to_first_non_white_space(self) -> Document {
        let first = self.first_non_white_space();
        if self.x > first {
            self.delete_str(first, self.x + 1).move_to_x(first)
        } else {
            self.delete_str(self.x, first).move_to_x(self.x)
        }
    }

    /// `d0`: the line loses what stands before the cursor and the character
    /// under it; the cursor goes to column 0.
    pub open spec fn delete_start_of_line(self) -> Document {
        self.delete_str(0, self.x + 1).move_to_x(0)
    }

    /// `dG`: the row of the cursor and all rows below it leave the document.
    pub open spec fn delete_to_end_of_file(self) -> Document {
        self.delete_lines(self.y, self.lines.len() as int)
    }

    /// Backspace: at column 0 of a row below the first, the line is joined to
    /// the end of the line above, and the cursor goes to where the two meet;
    /// at column 0 of row 0 nothing happens; elsewhere the `repeat`
    /// characters before the cursor leave the line and the cursor goes to
    /// where they began.
    pub open spec fn delete_backspace(self, repeat: int) -> Document {
        if self.x == 0 {
            if self.y == 0 || !self.has_line() {
                self
            } else {
                let above = self.lines[self.y - 1];
                Document {
                    lines: self.lines.update(self.y - 1, above + self.line()).remove(self.y),
                    x: above.len() as int,
                    y: self.y - 1,
                    sticky: self.sticky,
                }
            }
        } else {
            let x = minus(self.x, repeat);
            self.delete_str(x, self.x).at_x(x).with_sticky(Sticky::Column(x))
        }
    }

    /// `dw`. The text between the cursor and the place `to` where `w` would
    /// take it leaves the document, and the cursor stays where that text
    /// began, or goes to the end of what is left of its line.
    /// Within one line, the characters from the cursor up to `to` leave,
    /// and one character where `w` does not move the cursor.
    /// Across lines: where `to` is the first character that is no white
    /// space of its line, that line stays whole, the rows between leave,
    /// and the line of the cursor leaves too if the cursor is at its start,
    /// else loses what stands from the cursor on. Else what stands before
    /// the cursor is joined with what stands from `to` on, and the rows
    /// between leave.
    pub open spec fn delete_word(self, repeat: nat) -> Document {
        let to = self.move_next_word(repeat);
        if to.y == self.y {
            let d = if to.x == self.x {
                self.delete_str(self.x, self.x + 1)
            } else {
                self
            };
            d.delete_str(self.x, to.x).move_to_x(self.x)
        } else if to.x == to.first_non_white_space() {
            if self.x == 0 || self.line().len() == 0 {
                self.delete_lines(self.y, to.y).move_to_x(self.x)
            } else {
                self.delete_str(self.x, self.line().len() as int).delete_lines(
                    self.y + 1,
                    to.y,
                ).move_to_x(self.x)
            }
        } else {
            let head = self.line().subrange(0, least(self.x, self.line().len() as int));
            let tail = to.line().subrange(
                least(to.x, to.line().len() as int),
                to.line().len() as int,
            );
            self.with_line(head + tail).delete_lines(self.y + 1, to.y + 1).move_to_x(self.x)
        }
    }

    /// What a deletion does to the text and the cursor. The motions that
    /// name no text to delete (`Up`, `GoToLine`, the paragraph motions and
    /// `WORD`) only move the cursor.
    pub open spec fn delete(self, direction: Motion) -> Document {
        match direction {
            Motion::Left(repeat) => self.delete_left(repeat as int),
            Motion::Right(repeat) => self.delete_right(repeat as int),
            Motion::Down(repeat) => self.delete_down(repeat as int),
            Motion::Word(repeat) => self.delete_word(repeat as nat),
            Motion::BackSpace(repeat) => self.delete_backspace(repeat as int),
            Motion::EndOfLine(repeat) => self.delete_to_end_of_line(repeat as int),
            Motion::StartOfNonWhiteSpace => self.delete_to_first_non_white_space(),
            Motion::StartOfLine => self.delete_start_of_line(),
            Motion::EndOfFile => self.delete_to_end_of_file(),
            Motion::Up(_) | Motion::GoToLine(_) | Motion::ParagraphStart(_) | Motion::ParagraphEnd(
                _,
            ) | Motion::WORD(_) => self.motion(direction),
        }
    }

    /// The text that key `c` stands for when typed: four spaces for a tab,
    /// else the character with the code `c`.
    pub open spec fn typed(c: u8) -> Seq<char> {
        if c == 9 {
            blanks(4)
        } else {
            seq![c as char]
        }
    }

    /// Typing key `c`: its text goes in before the cursor and the cursor
    /// ends behind it. A document without lines gets its first line. Nothing
    /// happens where the cursor is on no row or beyond the end of its line.
    pub open spec fn insert_char(self, c: u8) -> Document {
        let piece = Self::typed(c);
        if self.lines.len() == 0 {
            self.with_lines(seq![piece]).at_x(piece.len() as int)
        } else if self.has_line() && 0 <= self.x <= self.line().len() {
            self.with_line(
                self.line().subrange(0, self.x) + piece + self.line().subrange(
                    self.x,
                    self.line().len() as int,
                ),
            ).at_x(self.x + piece.len())
        } else {
            self
        }
    }

    /// Enter. With the cursor on a character, the line is cut before it and
    /// what stood from the cursor on becomes the next row: where rows follow
    /// below, indented like the row that followed, the cursor behind that
    /// indentation; on the last row as it is, the cursor at its start. With
    /// the cursor beyond the last character, an empty row opens below and
    /// the cursor goes to its start. A document without lines gets two
    /// empty ones, the cursor on the second.
    pub open spec fn split_line(self) -> Document {
        if self.lines.len() == 0 {
            self.with_lines(seq![Seq::<char>::empty(), Seq::<char>::empty()]).at_y(1)
        } else if !self.has_line() {
            self
        } else if self.x > self.end_of_line() {
            self.with_lines(self.lines.insert(self.y + 1, Seq::<char>::empty())).at_y(
                self.y + 1,
            ).at_x(0)
        } else {
            let head = self.line().subrange(0, self.x);
            let tail = self.line().subrange(self.x, self.line().len() as int);
            if self.y < self.end_of_file() {
                let indent = first_non_blank(classes_of(self.lines[self.y + 1]));
                self.with_lines(
                    self.lines.update(self.y, head).insert(self.y + 1, blanks(indent) + tail),
                ).at_y(self.y + 1).at_x(indent)
            } else {
                self.with_lines(self.lines.update(self.y, head).insert(self.y + 1, tail)).at_y(
                    self.y + 1,
                ).at_x(0)
            }
        }
    }

    /// The cursor goes to column `pos`, or to just past the end of the line
    /// if that comes first. Nothing happens where the cursor is on no row.
    pub open spec fn insert_append(self, pos: int) -> Document {
        if self.has_line() {
            self.at_x(least(pos, self.line().len() as int))
        } else {
            self
        }
    }

    /// `O`: a row opens above the cursor, indented like the line under the
    /// cursor, and the cursor goes behind that indentation.
    pub open spec fn insert_prev_line(self) -> Document {
        if self.has_line() {
            let indent = self.first_non_white_space();
            self.with_lines(self.lines.insert(self.y, blanks(indent))).at_x(indent)
        } else {
            self
        }
    }

    /// `o`: a row opens below the cursor, indented like the line under the
    /// cursor, and the cursor goes behind that indentation. A document
    /// without lines gets two empty ones, the cursor on the second.
    pub open spec fn insert_next_line(self) -> Document {
        if self.has_line() {
            let indent = self.first_non_white_space();
            self.with_lines(self.lines.insert(self.y + 1, blanks(indent))).at_y(self.y + 1).at_x(
                indent,
            )
        } else if self.lines.len() == 0 {
            self.with_lines(seq![Seq::<char>::empty(), Seq::<char>::empty()]).at_y(1)
        } else {
            self
        }
    }

    /// Where the cursor is put when Insert mode is entered.
    pub open spec fn insert(self, pos: InsertType) -> Document {
        match pos {
            InsertType::Append => self.insert_append(self.x + 1),
            InsertType::InsertStart => self.move_to_first_non_white_space(),
            InsertType::AppendEnd => self.insert_append(self.line().len() as int),
            InsertType::Next => self.insert_next_line(),
            InsertType::Prev => self.insert_prev_line(),
            InsertType::Nothing => self,
        }
    }

    /// Leaving Insert mode: a cursor beyond the last character goes back
    /// onto it.
    pub open spec fn fix_cursor_pos_escape_insert(self) -> Document {
        self.clamp_x()
    }

    /// The document after one edit.
    pub open spec fn apply(self, edit: Edit) -> Document {
        match edit {
            Edit::Move(direction) => self.motion(direction),
            Edit::Delete(direction) => self.delete(direction),
            Edit::Type(c) => self.insert_char(c),
            Edit::Enter => self.split_line(),
            Edit::Open(pos) => self.insert(pos),
            Edit::Escape => self.fix_cursor_pos_escape_insert(),
        }
    }

    /// The document after a list of edits, the first of the list first.
    pub open spec fn apply_all(self, edits: Seq<Edit>) -> Document
        decreases edits.len(),
    {
        if edits.len() == 0 {
            self
        } else {
            self.apply_all(edits.drop_last()).apply(edits.last())
        }
    }

    /// The lines of a document from which the text between two places has
    /// been cut: what stands before column `x0` of row `y0` is joined with
    /// what stands from column `x1` of row `y1` on, and the rows between
    /// are gone.
    pub open spec fn cut(lines: Seq<Seq<char>>, y0: int, x0: int, y1: int, x1: int) -> Seq<
        Seq<char>,
    > {
        lines.subrange(0, y0) + seq![
            lines[y0].subrange(0, x0) + lines[y1].subrange(x1, lines[y1].len() as int),
        ] + lines.subrange(y1 + 1, lines.len() as int)
    }
}

} // verus!
