use vstd::prelude::*;
use crate::buffer::TextBuffer;
use crate::terminal::Position;
use crate::text::{char_count, chars_of, unicode_alphanumeric, unicode_whitespace};

verus! {

/// The three kinds of character that the small-word motion tells apart.
#[derive(PartialEq, Eq, Structural, Clone, Copy, Debug)]
pub enum CharClass {
    Keyword,
    WhiteSpace,
    Other,
}

impl CharClass {
    /// The class of a character of which it is known whether it is white
    /// space, whether it is a letter or a number, and whether it is `_`.
    /// White space wins; letters, numbers and `_` are keyword characters.
    pub open spec fn from_tests(whitespace: bool, alphanumeric: bool, underscore: bool) -> CharClass {
        if whitespace {
            CharClass::WhiteSpace
        } else if alphanumeric || underscore {
            CharClass::Keyword
        } else {
            CharClass::Other
        }
    }

    /// The class of a character, from the answers to the three tests.
    pub fn classify(whitespace: bool, alphanumeric: bool, underscore: bool) -> (class: CharClass)
        ensures
            class == Self::from_tests(whitespace, alphanumeric, underscore),
    {
        if whitespace {
            CharClass::WhiteSpace
        } else if alphanumeric || underscore {
            CharClass::Keyword
        } else {
            CharClass::Other
        }
    }
}

/// The class of the character `c`.
pub open spec fn class_of(c: char) -> CharClass {
    CharClass::from_tests(unicode_whitespace(c), unicode_alphanumeric(c), c == '_')
}

/// The classes of the characters of a line, position by position.
pub open spec fn classes_of(line: Seq<char>) -> Seq<CharClass> {
    Seq::new(line.len(), |i: int| class_of(line[i]))
}

/// The least index in `lo..hi` at which `p` holds, or `hi` if there is none.
pub open spec fn first_at_or_after(p: spec_fn(int) -> bool, lo: int, hi: int) -> int
    decreases hi - lo,
{
    if lo >= hi {
        hi
    } else if p(lo) {
        lo
    } else {
        first_at_or_after(p, lo + 1, hi)
    }
}

/// The greatest index below `hi` (and at least 0) at which `p` holds, or 0 if
/// there is none.
pub open spec fn last_before(p: spec_fn(int) -> bool, hi: int) -> int
    decreases hi,
{
    if hi <= 0 {
        0
    } else if p(hi - 1) {
        hi - 1
    } else {
        last_before(p, hi - 1)
    }
}

/// `first_at_or_after` lies in `lo..=hi`, satisfies `p` unless it is `hi`, and
/// nothing before it in the range satisfies `p`.
pub proof fn lemma_first_at_or_after(p: spec_fn(int) -> bool, lo: int, hi: int)
    requires
        lo <= hi,
    ensures
        lo <= first_at_or_after(p, lo, hi) <= hi,
        first_at_or_after(p, lo, hi) < hi ==> p(first_at_or_after(p, lo, hi)),
        forall|k: int| lo <= k < first_at_or_after(p, lo, hi) ==> !#[trigger] p(k),
    decreases hi - lo,
{
    if lo < hi && !p(lo) {
        lemma_first_at_or_after(p, lo + 1, hi);
    }
}

/// An index with the three properties of `lemma_first_at_or_after` is the
/// value of `first_at_or_after`.
pub proof fn lemma_first_is(p: spec_fn(int) -> bool, lo: int, hi: int, r: int)
    requires
        lo <= r <= hi,
        r < hi ==> p(r),
        forall|k: int| lo <= k < r ==> !#[trigger] p(k),
    ensures
        first_at_or_after(p, lo, hi) == r,
    decreases r - lo,
{
    if lo < r {
        assert(!p(lo));
        lemma_first_is(p, lo + 1, hi, r);
    }
}

/// `last_before` lies in `0..hi` (or is 0), satisfies `p` unless nothing below
/// `hi` does, and nothing between it and `hi` satisfies `p`.
pub proof fn lemma_last_before(p: spec_fn(int) -> bool, hi: int)
    ensures
        0 <= last_before(p, hi),
        hi > 0 ==> last_before(p, hi) < hi,
        forall|k: int| last_before(p, hi) < k < hi ==> !#[trigger] p(k),
        last_before(p, hi) > 0 ==> p(last_before(p, hi)),
    decreases hi,
{
    if hi > 0 && !p(hi - 1) {
        lemma_last_before(p, hi - 1);
    }
}

/// White space occurs somewhere in `from..i`.
pub open spec fn seen_space(classes: Seq<CharClass>, from: int, i: int) -> bool {
    exists|j: int| from <= j < i && #[trigger] classes[j] == CharClass::WhiteSpace
}

/// Seen from a cursor at `from`, a new word begins at `i`: the character there
/// is no white space, and either its class differs from that under the cursor
/// or white space lies between the two.
pub open spec fn word_starts_at(classes: Seq<CharClass>, from: int, i: int) -> bool {
    &&& 0 <= from < i < classes.len()
    &&& classes[i] != CharClass::WhiteSpace
    &&& (classes[i] != classes[from] || seen_space(classes, from, i))
}

/// Where the small-word motion lands within a line: at the first start of a
/// word after `from`, or at the length of the line if there is none. A cursor
/// that is not on a character yields 0.
pub open spec fn next_word(classes: Seq<CharClass>, from: int) -> int {
    if 0 <= from < classes.len() {
        first_at_or_after(|i: int| word_starts_at(classes, from, i), from + 1, classes.len() as int)
    } else {
        0
    }
}

/// Seen from a cursor at `from`, a white-space-delimited word begins at `i`:
/// the character there is no white space, and white space lies between the
/// cursor (included) and it.
pub open spec fn big_word_starts_at(classes: Seq<CharClass>, from: int, i: int) -> bool {
    &&& 0 <= from <= i < classes.len()
    &&& classes[i] != CharClass::WhiteSpace
    &&& seen_space(classes, from, i)
}

/// Where the white-space-delimited word motion lands within a line: at the
/// first start of such a word at or after `from`, or at the length of the line
/// if there is none.
pub open spec fn next_big_word(classes: Seq<CharClass>, from: int) -> int {
    first_at_or_after(|i: int| big_word_starts_at(classes, from, i), from, classes.len() as int)
}

/// The index of the first character that is no white space, or 0 if the line
/// has none.
pub open spec fn first_non_blank(classes: Seq<CharClass>) -> int {
    let r = first_at_or_after(
        |i: int| classes[i] != CharClass::WhiteSpace,
        0,
        classes.len() as int,
    );
    if r < classes.len() {
        r
    } else {
        0
    }
}

/// The nearest empty line strictly below row `from`, or the last row if there
/// is none (row 0 in an empty document).
pub open spec fn next_empty_line(lines: Seq<Seq<char>>, from: int) -> int {
    let r = first_at_or_after(|i: int| lines[i].len() == 0, from + 1, lines.len() as int);
    if r < lines.len() {
        r
    } else if lines.len() == 0 {
        0
    } else {
        lines.len() - 1
    }
}

/// The nearest empty line strictly above row `from`, or row 0 if there is
/// none.
pub open spec fn prev_empty_line(lines: Seq<Seq<char>>, from: int) -> int {
    let top = if from < lines.len() {
        from
    } else {
        lines.len() as int
    };
    last_before(|i: int| lines[i].len() == 0, top)
}

/// The texts of a list of strings.
pub open spec fn texts(strings: Seq<String>) -> Seq<Seq<char>> {
    Seq::new(strings.len(), |i: int| strings[i]@)
}

/// The class of one character.
pub fn find_char_class(c: char) -> (class: CharClass)
    ensures
        class == class_of(c),
{
    CharClass::classify(c.is_whitespace(), c.is_alphanumeric(), c == '_')
}

/// The classes of the characters of `str`.
pub fn classify_line(str: &str) -> (classes: Vec<CharClass>)
    ensures
        classes@ == classes_of(str@),
{
    let chars = chars_of(str);
    let mut classes: Vec<CharClass> = Vec::new();
    let mut i: usize = 0;
    while i < chars.len()
        invariant
            i <= chars.len(),
            chars@ == str@,
            classes@ == classes_of(str@.take(i as int)),
        decreases chars.len() - i,
    {
        classes.push(find_char_class(chars[i]));
        i += 1;
        assert(classes@ =~= classes_of(str@.take(i as int)));
    }
    assert(str@.take(i as int) =~= str@);
    classes
}

/// The small-word motion on a line whose characters are already classified.
pub fn next_word_start(classes: &Vec<CharClass>, index: usize) -> (r: usize)
    ensures
        r == next_word(classes@, index as int),
{
    let n = classes.len();
    if index >= n {
        return 0;
    }
    let first = classes[index];
    let mut seen = first == CharClass::WhiteSpace;
    let mut i: usize = index + 1;
    let ghost p = |k: int| word_starts_at(classes@, index as int, k);
    assert(seen == seen_space(classes@, index as int, i as int)) by {
        if seen {
            assert(classes@[index as int] == CharClass::WhiteSpace);
        }
    }
    while i < n
        invariant
            index < i <= n,
            n == classes.len(),
            first == classes@[index as int],
            seen == seen_space(classes@, index as int, i as int),
            p == (|k: int| word_starts_at(classes@, index as int, k)),
            forall|k: int| index < k < i ==> !#[trigger] p(k),
        decreases n - i,
    {
        let class = classes[i];
        if class == CharClass::WhiteSpace {
            seen = true;
        } else if seen || class != first {
            proof {
                assert(p(i as int));
                lemma_first_is(p, index as int + 1, n as int, i as int);
            }
            return i;
        }
        proof {
            assert(!p(i as int));
            if seen {
                if class == CharClass::WhiteSpace {
                    assert(classes@[i as int] == CharClass::WhiteSpace);
                } else {
                    let j = choose|j: int|
                        index <= j < i && #[trigger] classes@[j] == CharClass::WhiteSpace;
                    assert(classes@[j] == CharClass::WhiteSpace);
                }
            }
        }
        i += 1;
    }
    proof {
        lemma_first_is(p, index as int + 1, n as int, n as int);
    }
    n
}

/// The white-space-delimited word motion on a line whose characters are
/// already classified.
pub fn next_big_word_start(classes: &Vec<CharClass>, index: usize) -> (r: usize)
    ensures
        r == next_big_word(classes@, index as int),
{
    let n = classes.len();
    if index >= n {
        return n;
    }
    let mut seen = false;
    let mut i: usize = index;
    let ghost p = |k: int| big_word_starts_at(classes@, index as int, k);
    while i < n
        invariant
            index <= i <= n,
            n == classes.len(),
            seen == seen_space(classes@, index as int, i as int),
            p == (|k: int| big_word_starts_at(classes@, index as int, k)),
            forall|k: int| index <= k < i ==> !#[trigger] p(k),
        decreases n - i,
    {
        let class = classes[i];
        if class == CharClass::WhiteSpace {
            seen = true;
        } else if seen {
            proof {
                assert(p(i as int));
                lemma_first_is(p, index as int, n as int, i as int);
            }
            return i;
        }
        proof {
            assert(!p(i as int));
            if seen {
                if class == CharClass::WhiteSpace {
                    assert(classes@[i as int] == CharClass::WhiteSpace);
                } else {
                    let j = choose|j: int|
                        index <= j < i && #[trigger] classes@[j] == CharClass::WhiteSpace;
                    assert(classes@[j] == CharClass::WhiteSpace);
                }
            }
        }
        i += 1;
    }
    proof {
        lemma_first_is(p, index as int, n as int, n as int);
    }
    n
}

/// The first character that is no white space, on a line whose characters are
/// already classified.
pub fn first_non_blank_index(classes: &Vec<CharClass>) -> (r: usize)
    ensures
        r == first_non_blank(classes@),
{
    let n = classes.len();
    let mut i: usize = 0;
    let ghost p = |k: int| classes@[k] != CharClass::WhiteSpace;
    while i < n
        invariant
            i <= n,
            n == classes.len(),
            p == (|k: int| classes@[k] != CharClass::WhiteSpace),
            forall|k: int| 0 <= k < i ==> !#[trigger] p(k),
        decreases n - i,
    {
        if classes[i] != CharClass::WhiteSpace {
            proof {
                assert(p(i as int));
                lemma_first_is(p, 0, n as int, i as int);
            }
            return i;
        }
        assert(!p(i as int));
        i += 1;
    }
    proof {
        lemma_first_is(p, 0, n as int, n as int);
    }
    0
}

/// Where the small-word motion lands from character `index` of `str`: on the
/// next character that is no white space and either differs in class from the
/// one at `index` or follows white space; at the length of `str` if there is
/// none; at 0 if `index` is not a character of `str`.
pub fn get_next_word(str: &str, index: usize) -> (r: usize)
    ensures
        r == next_word(classes_of(str@), index as int),
{
    let classes = classify_line(str);
    next_word_start(&classes, index)
}

/// Where the white-space-delimited word motion lands from character `index`
/// of `str`: on the first character at or after `index` that is no white
/// space and follows white space met since `index`; at the length of `str` if
/// there is none.
pub fn get_word_after_white_space(str: &str, index: usize) -> (r: usize)
    ensures
        r == next_big_word(classes_of(str@), index as int),
{
    let classes = classify_line(str);
    next_big_word_start(&classes, index)
}

/// The index of the first character of `str` that is no white space, or 0 if
/// there is none.
pub fn get_first_non_white_space(str: &str) -> (r: usize)
    ensures
        r == first_non_blank(classes_of(str@)),
{
    let classes = classify_line(str);
    first_non_blank_index(&classes)
}

/// The nearest empty string strictly after `index`, or the last index if
/// there is none (0 for an empty list).
pub fn get_next_empty_string(strings: &Vec<String>, index: usize) -> (r: usize)
    ensures
        r == next_empty_line(texts(strings@), index as int),
{
    let n = strings.len();
    let ghost lines = texts(strings@);
    let ghost p = |k: int| lines[k].len() == 0;
    if index >= n {
        return if n == 0 {
            0
        } else {
            n - 1
        };
    }
    let mut i: usize = index + 1;
    while i < n
        invariant
            index < i <= n,
            n == strings.len(),
            lines == texts(strings@),
            p == (|k: int| lines[k].len() == 0),
            forall|k: int| index < k < i ==> !#[trigger] p(k),
        decreases n - i,
    {
        if strings[i].as_str().is_empty() {
            proof {
                assert(p(i as int));
                lemma_first_is(p, index as int + 1, n as int, i as int);
            }
            return i;
        }
        assert(!p(i as int));
        i += 1;
    }
    proof {
        lemma_first_is(p, index as int + 1, n as int, n as int);
    }
    n - 1
}

/// The nearest empty string strictly before `index`, or 0 if there is none.
pub fn get_previous_empty_string(strings: &Vec<String>, index: usize) -> (r: usize)
    ensures
        r == prev_empty_line(texts(strings@), index as int),
{
    let n = strings.len();
    let ghost lines = texts(strings@);
    let ghost p = |k: int| lines[k].len() == 0;
    let top = if index < n {
        index
    } else {
        n
    };
    let mut i: usize = top;
    while i > 0
        invariant
            i <= top <= n,
            top == index || (top == n && index >= n),
            n == strings.len(),
            lines == texts(strings@),
            p == (|k: int| lines[k].len() == 0),
            last_before(p, top as int) == last_before(p, i as int),
        decreases i,
    {
        if strings[i - 1].as_str().is_empty() {
            assert(lines[i - 1] == strings@[i - 1]@);
            assert(p(i - 1));
            return i - 1;
        }
        assert(lines[i - 1] == strings@[i - 1]@);
        assert(!p(i - 1));
        i -= 1;
    }
    0
}

/// The length of row `y`; 0 if there is no such row.
pub open spec fn row_len(lines: Seq<Seq<char>>, y: int) -> int {
    if 0 <= y < lines.len() {
        lines[y].len() as int
    } else {
        0
    }
}

/// The column of the last character of a line of `len` characters; 0 for an
/// empty line.
pub open spec fn last_column(len: int) -> int {
    if len > 0 {
        len - 1
    } else {
        0
    }
}

/// The column in which a change of row lands: the end of the new row if the
/// cursor was at the end of its row or beyond the end of the new one, and
/// not in column 0; else column 0.
pub open spec fn new_x(x: int, current_row_len: int, new_row_len: int) -> int {
    if x != 0 && (x == last_column(current_row_len) || x > last_column(new_row_len)) {
        last_column(new_row_len)
    } else {
        0
    }
}

/// Where a change from `pos` to row `y` lands.
pub open spec fn y_move(lines: Seq<Seq<char>>, pos: Position, y: int) -> (int, int) {
    (new_x(pos.x as int, row_len(lines, pos.y as int), row_len(lines, y)), y)
}

/// The length of row `y` of a buffer; 0 if there is no such row.
fn length_of_row(buffer: &TextBuffer, y: usize) -> (n: usize)
    ensures
        n == row_len(buffer@.lines, y as int),
{
    if y < buffer.rows.len() {
        char_count(&buffer.rows[y])
    } else {
        0
    }
}

/// The column in which a change of row lands, from a cursor at `pos` on a
/// row of `current_row_len` characters to a row of `new_row_len`.
pub fn handle_new_x(pos: &Position, current_row_len: usize, new_row_len: usize) -> (x: usize)
    ensures
        x == new_x(pos.x as int, current_row_len as int, new_row_len as int),
{
    if pos.x != 0 && (pos.x == current_row_len.saturating_sub(1) || pos.x
        > new_row_len.saturating_sub(1)) {
        new_row_len.saturating_sub(1)
    } else {
        0
    }
}

/// Where a change from `pos` to row `new_y` of `buffer` lands.
pub fn handle_y_move(buffer: &TextBuffer, pos: &Position, new_y: usize) -> (p: Position)
    ensures
        (p.x as int, p.y as int) == y_move(buffer@.lines, *pos, new_y as int),
{
    let current_row_len = length_of_row(buffer, pos.y);
    let new_row_len = length_of_row(buffer, new_y);
    Position { x: handle_new_x(pos, current_row_len, new_row_len), y: new_y }
}

/// Where a step down from `pos` lands: on the row below, or on the same row
/// if it is the last.
pub fn go_down(buffer: &TextBuffer, pos: &Position) -> (p: Position)
    ensures
        (p.x as int, p.y as int) == y_move(
            buffer@.lines,
            *pos,
            if pos.y + 1 < buffer@.lines.len() {
                pos.y + 1
            } else {
                pos.y as int
            },
        ),
{
    let rows = buffer.rows.len();
    let y = if rows > 0 && pos.y < rows - 1 {
        pos.y + 1
    } else {
        pos.y
    };
    handle_y_move(buffer, pos, y)
}

/// Where a step up from `pos` lands: on the row above, or on row 0.
pub fn go_up(buffer: &TextBuffer, pos: &Position) -> (p: Position)
    ensures
        (p.x as int, p.y as int) == y_move(
            buffer@.lines,
            *pos,
            if pos.y > 0 {
                pos.y - 1
            } else {
                0
            },
        ),
{
    handle_y_move(buffer, pos, pos.y.saturating_sub(1))
}

/// Where a jump from `pos` to the last row lands.
pub fn go_to_last_row(buffer: &TextBuffer, pos: &Position) -> (p: Position)
    ensures
        (p.x as int, p.y as int) == y_move(
            buffer@.lines,
            *pos,
            if buffer@.lines.len() > 0 {
                buffer@.lines.len() - 1
            } else {
                0
            },
        ),
{
    handle_y_move(buffer, pos, buffer.rows.len().saturating_sub(1))
}

} // verus!
