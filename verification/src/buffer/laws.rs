use vstd::prelude::*;
use crate::buffer::model::{least, minus, without, Document, Edit, Sticky};
use crate::insertmode::InsertType;
use crate::normalmode::motions::Motion;
use crate::text::blanks;
use crate::utils::{
    classes_of, first_non_blank, lemma_first_at_or_after, lemma_last_before, next_empty_line,
    prev_empty_line, CharClass,
};

verus! {

/// A repeated motion whose step leaves the cursor where it is leaves it
/// there however often it is repeated.
pub proof fn lemma_repeating_a_step_that_stays(d: Document, repeat: nat)
    ensures
        d.word_step() == d ==> d.move_next_word(repeat) == d,
        d.big_word_step() == d ==> d.move_next_word_after_white_space(repeat) == d,
        d.next_paragraph_step() == d ==> d.move_next_paragraph(repeat) == d,
        d.previous_paragraph_step() == d ==> d.move_previous_paragraph(repeat) == d,
    decreases repeat,
{
    if repeat > 0 {
        lemma_repeating_a_step_that_stays(d, (repeat - 1) as nat);
    }
}

/// The first character that is no white space lies on the line, or is column
/// 0.
pub proof fn lemma_first_non_blank_bounds(classes: Seq<CharClass>)
    ensures
        0 <= first_non_blank(classes),
        first_non_blank(classes) < classes.len() || first_non_blank(classes) == 0,
{
    lemma_first_at_or_after(|i: int| classes[i] != CharClass::WhiteSpace, 0, classes.len() as int);
}

/// The nearest empty line below is a row of the document, or row 0.
pub proof fn lemma_next_empty_line_bounds(lines: Seq<Seq<char>>, from: int)
    requires
        0 <= from,
    ensures
        0 <= next_empty_line(lines, from),
        next_empty_line(lines, from) < lines.len() || next_empty_line(lines, from) == 0,
{
    if from + 1 <= lines.len() {
        lemma_first_at_or_after(|i: int| lines[i].len() == 0, from + 1, lines.len() as int);
    }
}

/// The nearest empty line above is a row of the document, or row 0.
pub proof fn lemma_prev_empty_line_bounds(lines: Seq<Seq<char>>, from: int)
    ensures
        0 <= prev_empty_line(lines, from),
        prev_empty_line(lines, from) < lines.len() || prev_empty_line(lines, from) == 0,
{
    let top = if from < lines.len() {
        from
    } else {
        lines.len() as int
    };
    lemma_last_before(|i: int| lines[i].len() == 0, top);
}

/// One step of `w` leaves the lines and the aim of vertical motions alone,
/// keeps the cursor on a row, and never takes it to a row above.
pub proof fn lemma_word_step_frame(d: Document)
    ensures
        d.word_step().lines == d.lines,
        d.word_step().sticky == d.sticky,
        d.has_line() ==> d.word_step().has_line() && d.word_step().y >= d.y,
        !d.has_line() ==> d.word_step() == d,
{
}

/// `w` leaves the lines and the aim of vertical motions alone, keeps the
/// cursor on a row, and never takes it to a row above.
pub proof fn lemma_word_motion_frame(d: Document, repeat: nat)
    ensures
        d.move_next_word(repeat).lines == d.lines,
        d.move_next_word(repeat).sticky == d.sticky,
        d.has_line() ==> d.move_next_word(repeat).has_line() && d.move_next_word(repeat).y >= d.y,
        !d.has_line() ==> d.move_next_word(repeat) == d,
    decreases repeat,
{
    if repeat > 0 {
        lemma_word_step_frame(d);
        lemma_word_motion_frame(d.word_step(), (repeat - 1) as nat);
    }
}

/// One step of `w` or `W` keeps a legal cursor legal, of either kind.
pub proof fn lemma_word_steps_legal(d: Document)
    ensures
        d.in_bounds() ==> d.word_step().in_bounds() && d.big_word_step().in_bounds(),
        d.on_char() ==> d.word_step().on_char() && d.big_word_step().on_char(),
        d.word_step().lines == d.lines,
        d.big_word_step().lines == d.lines,
{
    if d.has_line() {
        let below = d.set_y_or(d.end_of_file(), d.y + 1);
        lemma_first_non_blank_bounds(classes_of(below.line()));
    }
}

/// One step of `{` or `}` keeps the cursor on a row and changes nothing but
/// the row.
pub proof fn lemma_paragraph_steps(d: Document)
    requires
        0 <= d.y,
    ensures
        0 <= d.next_paragraph_step().y,
        0 <= d.previous_paragraph_step().y,
        d.next_paragraph_step() == d.at_y(d.next_paragraph_step().y),
        d.previous_paragraph_step() == d.at_y(d.previous_paragraph_step().y),
        d.lines.len() > 0 ==> d.next_paragraph_step().has_line()
            && d.previous_paragraph_step().has_line(),
        d.lines.len() == 0 ==> d.next_paragraph_step().y == 0 && d.previous_paragraph_step().y
            == 0,
{
    lemma_next_empty_line_bounds(d.lines, d.y);
    lemma_prev_empty_line_bounds(d.lines, d.y);
}

/// The repeated motions keep a legal cursor legal and leave the lines alone.
/// The paragraph motions, which leave the column alone, are taken together
/// with the move onto a character that follows them.
pub proof fn lemma_repeated_motions_legal(d: Document, repeat: nat)
    ensures
        d.in_bounds() ==> d.move_next_word(repeat).in_bounds(),
        d.in_bounds() ==> d.move_next_word_after_white_space(repeat).in_bounds(),
        d.on_char() ==> d.move_next_word(repeat).on_char(),
        d.on_char() ==> d.move_next_word_after_white_space(repeat).on_char(),
        d.move_next_word(repeat).lines == d.lines,
        d.move_next_word_after_white_space(repeat).lines == d.lines,
    decreases repeat,
{
    if repeat > 0 {
        lemma_word_steps_legal(d);
        lemma_repeated_motions_legal(d.word_step(), (repeat - 1) as nat);
        lemma_repeated_motions_legal(d.big_word_step(), (repeat - 1) as nat);
    }
}

/// The paragraph motions change nothing but the row, and keep the cursor on
/// a row where it was on one.
pub proof fn lemma_paragraph_motions(d: Document, repeat: nat)
    requires
        0 <= d.y,
    ensures
        d.move_next_paragraph(repeat) == d.at_y(d.move_next_paragraph(repeat).y),
        d.move_previous_paragraph(repeat) == d.at_y(d.move_previous_paragraph(repeat).y),
        d.has_line() ==> d.move_next_paragraph(repeat).has_line() && d.move_previous_paragraph(
            repeat,
        ).has_line(),
        d.lines.len() == 0 && d.y == 0 ==> d.move_next_paragraph(repeat).y == 0
            && d.move_previous_paragraph(repeat).y == 0,
    decreases repeat,
{
    if repeat > 0 {
        lemma_paragraph_steps(d);
        lemma_paragraph_motions(d.next_paragraph_step(), (repeat - 1) as nat);
        lemma_paragraph_motions(d.previous_paragraph_step(), (repeat - 1) as nat);
    }
}

/// The paragraph motions leave the lines alone.
pub proof fn lemma_paragraph_motions_off(d: Document, repeat: nat)
    ensures
        d.move_next_paragraph(repeat).lines == d.lines,
        d.move_previous_paragraph(repeat).lines == d.lines,
    decreases repeat,
{
    if repeat > 0 {
        lemma_paragraph_motions_off(d.next_paragraph_step(), (repeat - 1) as nat);
        lemma_paragraph_motions_off(d.previous_paragraph_step(), (repeat - 1) as nat);
    }
}

/// No motion changes the text.
pub proof fn law_motion_leaves_text(d: Document, direction: Motion)
    ensures
        d.motion(direction).lines == d.lines,
{
    match direction {
        Motion::Word(repeat) => lemma_repeated_motions_legal(d, repeat as nat),
        Motion::WORD(repeat) => lemma_repeated_motions_legal(d, repeat as nat),
        Motion::ParagraphStart(repeat) => {
            if d.y >= 0 {
                lemma_paragraph_motions(d, repeat as nat);
            } else {
                lemma_paragraph_motions_off(d, repeat as nat);
            }
        },
        Motion::ParagraphEnd(repeat) => {
            if d.y >= 0 {
                lemma_paragraph_motions(d, repeat as nat);
            } else {
                lemma_paragraph_motions_off(d, repeat as nat);
            }
        },
        _ => {},
    }
}

/// Cursor legality under motions: a cursor that is on a character (or at
/// column 0 of an empty line) is so again after any motion, and a cursor that
/// is at most just past the end of its line is so again after any motion.
pub proof fn law_motion_keeps_cursor_legal(d: Document, direction: Motion)
    ensures
        d.on_char() ==> d.motion(direction).on_char(),
        d.in_bounds() ==> d.motion(direction).in_bounds(),
{
    lemma_first_non_blank_bounds(classes_of(d.line()));
    match direction {
        Motion::Word(repeat) => lemma_repeated_motions_legal(d, repeat as nat),
        Motion::WORD(repeat) => lemma_repeated_motions_legal(d, repeat as nat),
        Motion::ParagraphStart(repeat) => {
            if d.in_bounds() {
                lemma_paragraph_motions(d, repeat as nat);
            }
        },
        Motion::ParagraphEnd(repeat) => {
            if d.in_bounds() {
                lemma_paragraph_motions(d, repeat as nat);
            }
        },
        _ => {},
    }
}

/// Removing characters from the line under the cursor leaves the cursor on a
/// character, wherever it was on the line before.
pub proof fn lemma_delete_str_legal(d: Document, start: int, end: int)
    requires
        0 <= start,
    ensures
        d.delete_str(start, end).lines.len() == d.lines.len(),
        d.delete_str(start, end).y == d.y,
        d.in_bounds() ==> d.delete_str(start, end).in_bounds(),
        d.on_char() ==> d.delete_str(start, end).on_char(),
        d.in_bounds() && start <= end ==> d.delete_str(start, end).on_char(),
{
}

/// Removing rows leaves the cursor on a character, and a document that had
/// rows keeps at least one.
pub proof fn lemma_delete_lines_legal(d: Document, start: int, end: int)
    requires
        0 <= start,
    ensures
        d.lines.len() > 0 ==> d.delete_lines(start, end).lines.len() > 0,
        d.lines.len() == 0 ==> d.delete_lines(start, end).lines.len() == 0,
        d.in_bounds() ==> d.delete_lines(start, end).on_char(),
{
}

/// Cursor legality under `dw`.
pub proof fn lemma_delete_word_legal(d: Document, repeat: nat)
    ensures
        d.in_bounds() ==> d.delete_word(repeat).on_char(),
        d.lines.len() > 0 ==> d.delete_word(repeat).lines.len() > 0,
{
    lemma_word_motion_frame(d, repeat);
    let to = d.move_next_word(repeat);
    if d.in_bounds() || d.lines.len() > 0 {
        if to.y == d.y {
            let one = if to.x == d.x {
                d.delete_str(d.x, d.x + 1)
            } else {
                d
            };
            if d.in_bounds() {
                lemma_delete_str_legal(d, d.x, d.x + 1);
                lemma_delete_str_legal(one, d.x, to.x);
            }
        } else if to.x == to.first_non_white_space() {
            if d.x == 0 || d.line().len() == 0 {
                if d.in_bounds() {
                    lemma_delete_lines_legal(d, d.y, to.y);
                }
            } else {
                if d.in_bounds() {
                    lemma_delete_str_legal(d, d.x, d.line().len() as int);
                    lemma_delete_lines_legal(
                        d.delete_str(d.x, d.line().len() as int),
                        d.y + 1,
                        to.y,
                    );
                }
            }
        } else {
            let head = d.line().subrange(0, least(d.x, d.line().len() as int));
            let tail = to.line().subrange(
                least(to.x, to.line().len() as int),
                to.line().len() as int,
            );
            if d.in_bounds() {
                lemma_delete_lines_legal(d.with_line(head + tail), d.y + 1, to.y + 1);
            }
        }
    }
}

/// Backspace at column 0 of an empty line, below a line that is not empty:
/// the one deletion that leaves the cursor just past the end of a line.
pub open spec fn joins_empty_line(d: Document, direction: Motion) -> bool {
    &&& direction is BackSpace
    &&& d.x == 0
    &&& d.y > 0
    &&& d.line().len() == 0
    &&& d.lines[d.y - 1].len() > 0
}

/// Cursor legality under deletions. A cursor that is at most just past the
/// end of its line is so again after any deletion. A cursor that is on a
/// character (or at column 0 of an empty line) is so again after any
/// deletion but one: Backspace at column 0 joins the line to the one above
/// and leaves the cursor where the two meet, which is just past the end if
/// the line that was joined on is empty.
pub proof fn law_delete_keeps_cursor_legal(d: Document, direction: Motion)
    requires
        d.in_bounds(),
    ensures
        d.delete(direction).in_bounds(),
        d.on_char() && !joins_empty_line(d, direction) ==> d.delete(direction).on_char(),
        d.delete(direction).clamp_x().on_char(),
{
    lemma_first_non_blank_bounds(classes_of(d.line()));
    match direction {
        Motion::Left(repeat) => {
            lemma_delete_str_legal(d, minus(d.x, repeat as int), d.x);
        },
        Motion::Right(repeat) => {
            lemma_delete_str_legal(d, d.x, d.x + repeat);
        },
        Motion::Down(repeat) => {
            lemma_delete_lines_legal(d, d.y, d.y + repeat + 1);
        },
        Motion::Word(repeat) => {
            lemma_delete_word_legal(d, repeat as nat);
        },
        Motion::BackSpace(repeat) => {
            lemma_delete_str_legal(d, minus(d.x, repeat as int), d.x);
        },
        Motion::EndOfLine(repeat) => {
            lemma_delete_str_legal(d, d.x, d.line().len() as int);
            let cut = d.delete_str(d.x, d.line().len() as int);
            lemma_delete_lines_legal(cut, cut.y + 1, cut.y + repeat);
        },
        Motion::StartOfNonWhiteSpace => {
            let first = d.first_non_white_space();
            lemma_delete_str_legal(d, first, d.x + 1);
            lemma_delete_str_legal(d, d.x, first);
        },
        Motion::StartOfLine => {
            lemma_delete_str_legal(d, 0, d.x + 1);
        },
        Motion::EndOfFile => {
            lemma_delete_lines_legal(d, d.y, d.lines.len() as int);
        },
        _ => {
            law_motion_keeps_cursor_legal(d, direction);
        },
    }
}

/// Cursor legality while inserting: typing, Enter and the ways of entering
/// Insert mode leave the cursor at most just past the end of its line, and
/// leaving Insert mode puts it on a character (or at column 0 of an empty
/// line).
pub proof fn law_insert_keeps_cursor_legal(d: Document, c: u8, pos: InsertType)
    requires
        d.in_bounds(),
    ensures
        d.insert_char(c).in_bounds(),
        d.split_line().in_bounds(),
        d.insert(pos).in_bounds(),
        d.fix_cursor_pos_escape_insert().on_char(),
{
    lemma_first_non_blank_bounds(classes_of(d.line()));
    if d.has_line() && d.y + 1 < d.lines.len() {
        lemma_first_non_blank_bounds(classes_of(d.lines[d.y + 1]));
    }
}

/// Cursor legality: whatever is done to a document whose cursor is legal for
/// inserting, in whatever order, the cursor is legal for inserting
/// afterwards.
pub proof fn law_cursor_stays_in_bounds(d: Document, edits: Seq<Edit>)
    requires
        d.in_bounds(),
    ensures
        d.apply_all(edits).in_bounds(),
    decreases edits.len(),
{
    if edits.len() > 0 {
        law_cursor_stays_in_bounds(d, edits.drop_last());
        let before = d.apply_all(edits.drop_last());
        match edits.last() {
            Edit::Move(direction) => law_motion_keeps_cursor_legal(before, direction),
            Edit::Delete(direction) => law_delete_keeps_cursor_legal(before, direction),
            Edit::Type(c) => law_insert_keeps_cursor_legal(before, c, InsertType::Nothing),
            Edit::Enter => law_insert_keeps_cursor_legal(before, 0, InsertType::Nothing),
            Edit::Open(pos) => law_insert_keeps_cursor_legal(before, 0, pos),
            Edit::Escape => law_insert_keeps_cursor_legal(before, 0, InsertType::Nothing),
        }
    }
}

/// Deleting leftwards removes what the motion skips: `delete(Left)` takes
/// from the text exactly the characters between the place where
/// `motion(Left)` ends and the cursor, and leaves the cursor where the
/// motion ends, or on the last character if nothing is left there.
pub proof fn law_delete_left_removes_what_motion_skips(d: Document, repeat: usize)
    requires
        d.in_bounds(),
        d.has_line(),
    ensures
        ({
            let to = d.motion(Motion::Left(repeat));
            let after = d.delete(Motion::Left(repeat));
            &&& after.lines == Document::cut(d.lines, d.y, to.x, d.y, d.x)
            &&& after.y == d.y
            &&& after.x == after.move_to_x(to.x).x
        }),
{
    let to = d.motion(Motion::Left(repeat));
    let after = d.delete(Motion::Left(repeat));
    assert(after.lines =~= Document::cut(d.lines, d.y, to.x, d.y, d.x)) by {
        let line = d.line();
        assert(without(line, to.x, d.x) =~= line.subrange(0, to.x) + line.subrange(
            d.x,
            line.len() as int,
        ));
    }
}

/// Deleting rightwards removes what the motion skips: where `motion(Right)`
/// finds a character to land on, `delete(Right)` takes from the text
/// exactly the characters between the cursor and that character, and leaves
/// the cursor in its column. (Where the motion is stopped by the end of the
/// line, the deletion takes the last character too.)
pub proof fn law_delete_right_removes_what_motion_skips(d: Document, repeat: usize)
    requires
        d.on_char(),
        d.has_line(),
        d.valid_x(d.x + repeat) || d.line().len() == 0,
    ensures
        ({
            let to = d.motion(Motion::Right(repeat));
            let after = d.delete(Motion::Right(repeat));
            &&& after.lines == Document::cut(d.lines, d.y, d.x, d.y, to.x)
            &&& after.y == d.y
            &&& after.x == d.x
        }),
{
    let to = d.motion(Motion::Right(repeat));
    let after = d.delete(Motion::Right(repeat));
    let line = d.line();
    assert(after.lines =~= Document::cut(d.lines, d.y, d.x, d.y, to.x)) by {
        assert(without(line, d.x, to.x) =~= line.subrange(0, d.x) + line.subrange(
            to.x,
            line.len() as int,
        ));
        if line.len() > 0 {
            assert(without(line, d.x, d.x + repeat) == without(line, d.x, to.x));
        }
    }
}

/// Deleting to the end of the line removes what the motion passes: `d$`
/// takes from the text everything from the cursor through the end of the
/// line on which `$` lands, the character on which it lands included, and
/// leaves the cursor on the last character that is left of its line.
pub proof fn law_delete_to_end_of_line_removes_through_target(d: Document, repeat: usize)
    requires
        d.in_bounds(),
        d.has_line(),
    ensures
        ({
            let to = d.motion(Motion::EndOfLine(repeat));
            let after = d.delete(Motion::EndOfLine(repeat));
            &&& to.has_line()
            &&& to.y >= d.y
            &&& after.lines == Document::cut(d.lines, d.y, d.x, to.y, to.line().len() as int)
            &&& after.y == d.y
            &&& after.x == minus(d.x, 1)
        }),
{
    let to = d.motion(Motion::EndOfLine(repeat));
    let after = d.delete(Motion::EndOfLine(repeat));
    let line = d.line();
    let first = d.delete_str(d.x, line.len() as int);
    assert(first.line() =~= line.subrange(0, d.x));
    assert(after.lines =~= Document::cut(d.lines, d.y, d.x, to.y, to.line().len() as int));
}

/// Deleting a word removes what the motion skips: where `w` moves the
/// cursor forward on its line, or takes it to a row below and there beyond
/// the first character that is no white space, `dw` takes from the text
/// exactly what lies between the cursor and the place where `w` ends, and
/// leaves the cursor in its column, or on the last character if nothing is
/// left there.
pub proof fn law_delete_word_removes_what_motion_skips(d: Document, repeat: usize)
    requires
        d.in_bounds(),
        d.has_line(),
        ({
            let to = d.motion(Motion::Word(repeat));
            ||| to.y == d.y && to.x > d.x
            ||| to.y > d.y && to.x != to.first_non_white_space()
        }),
    ensures
        ({
            let to = d.motion(Motion::Word(repeat));
            let after = d.delete(Motion::Word(repeat));
            &&& to.has_line()
            &&& after.lines == Document::cut(d.lines, d.y, d.x, to.y, to.x)
            &&& after.y == d.y
            &&& after.x == after.move_to_x(d.x).x
        }),
{
    let to = d.motion(Motion::Word(repeat));
    let after = d.delete(Motion::Word(repeat));
    lemma_word_motion_frame(d, repeat as nat);
    lemma_repeated_motions_legal(d, repeat as nat);
    let line = d.line();
    if to.y == d.y {
        assert(without(line, d.x, to.x) =~= line.subrange(0, d.x) + line.subrange(
            to.x,
            line.len() as int,
        ));
        assert(after.lines =~= Document::cut(d.lines, d.y, d.x, to.y, to.x));
    } else {
        let head = line.subrange(0, d.x);
        let tail = to.line().subrange(to.x, to.line().len() as int);
        let joined = d.with_line(head + tail);
        assert(joined.delete_lines(d.y + 1, to.y + 1).lines =~= Document::cut(
            d.lines,
            d.y,
            d.x,
            to.y,
            to.x,
        ));
    }
}

/// Enter and Backspace undo each other. Enter leaves the cursor on the row
/// that it opened, behind the indentation that it put there. Backspace from
/// the start of that row gives back the document as it was, but for that
/// indentation: it stays in the line, where the cursor was. The cursor is
/// back where Enter was pressed.
pub proof fn law_split_then_backspace_restores_line(d: Document)
    requires
        d.in_bounds(),
        d.has_line(),
    ensures
        ({
            let split = d.split_line();
            let joined = split.at_x(0).delete(Motion::BackSpace(1));
            let padding = if d.x <= d.end_of_line() && d.y < d.end_of_file() {
                blanks(first_non_blank(classes_of(d.lines[d.y + 1])))
            } else {
                Seq::<char>::empty()
            };
            &&& split.lines.len() == d.lines.len() + 1
            &&& split.y == d.y + 1
            &&& split.x == padding.len()
            &&& joined.lines == d.lines.update(
                d.y,
                d.line().subrange(0, d.x) + padding + d.line().subrange(
                    d.x,
                    d.line().len() as int,
                ),
            )
            &&& padding.len() == 0 ==> joined.lines == d.lines
            &&& joined.x == d.x
            &&& joined.y == d.y
        }),
{
    let split = d.split_line();
    let joined = split.at_x(0).delete(Motion::BackSpace(1));
    let line = d.line();
    let padding = if d.x <= d.end_of_line() && d.y < d.end_of_file() {
        blanks(first_non_blank(classes_of(d.lines[d.y + 1])))
    } else {
        Seq::<char>::empty()
    };
    if d.y + 1 < d.lines.len() {
        lemma_first_non_blank_bounds(classes_of(d.lines[d.y + 1]));
    }
    let whole = line.subrange(0, d.x) + padding + line.subrange(d.x, line.len() as int);
    assert(joined.lines =~= d.lines.update(d.y, whole)) by {
        if d.x > d.end_of_line() {
            assert(line + Seq::<char>::empty() =~= whole);
        } else if d.y < d.end_of_file() {
            assert(line.subrange(0, d.x) + (padding + line.subrange(d.x, line.len() as int))
                =~= whole);
        } else {
            assert(line.subrange(0, d.x) + line.subrange(d.x, line.len() as int) =~= whole);
        }
    }
    if padding.len() == 0 {
        assert(whole =~= line);
        assert(d.lines.update(d.y, whole) =~= d.lines);
    }
}

/// Sticky column. With a column to aim for, going down and up again by the
/// same number of rows, all of which exist, brings the cursor back to its
/// row and to that column if the line has a character there, else to the
/// end of the line. A cursor that is on a character and aims for its own
/// column therefore comes back to where it was, however short the lines in
/// between.
pub proof fn law_down_then_up_restores_column(d: Document, repeat: usize)
    requires
        d.has_line(),
        d.y + repeat < d.lines.len(),
        d.sticky is Column,
    ensures
        ({
            let back = d.motion(Motion::Down(repeat)).motion(Motion::Up(repeat));
            &&& back.lines == d.lines
            &&& back.sticky == d.sticky
            &&& back.y == d.y
            &&& back.x == d.move_to_x(d.sticky->Column_0).x
            &&& d.on_char() && d.sticky == Sticky::Column(d.x) ==> back.x == d.x
        }),
{
}

/// Horizontal motions set the column that vertical motions aim for to the
/// one they reach.
pub proof fn law_horizontal_motion_sets_column(d: Document, repeat: usize)
    ensures
        d.motion(Motion::Left(repeat)).sticky == Sticky::Column(d.motion(Motion::Left(repeat)).x),
        d.motion(Motion::Right(repeat)).sticky == Sticky::Column(
            d.motion(Motion::Right(repeat)).x,
        ),
        d.motion(Motion::StartOfLine).sticky == Sticky::Column(0),
        d.motion(Motion::StartOfNonWhiteSpace).sticky == Sticky::Column(
            d.motion(Motion::StartOfNonWhiteSpace).x,
        ),
{
}

/// Sticky end of line. `$` puts the cursor at the end of its line and makes
/// vertical motions aim for the end of the line; as long as they do, `j`
/// and `k` leave the cursor at the end of whatever line they reach, and go
/// on aiming for it.
pub proof fn law_line_end_is_tracked(d: Document, repeat: usize)
    ensures
        d.motion(Motion::EndOfLine(repeat)).sticky is LineEnd,
        d.motion(Motion::EndOfLine(repeat)).x == d.motion(Motion::EndOfLine(repeat)).end_of_line(),
        d.sticky is LineEnd ==> {
            let down = d.motion(Motion::Down(repeat));
            let up = d.motion(Motion::Up(repeat));
            &&& down.sticky is LineEnd
            &&& down.x == down.end_of_line()
            &&& up.sticky is LineEnd
            &&& up.x == up.end_of_line()
        },
{
}

} // verus!
