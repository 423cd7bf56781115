use vstd::prelude::*;
use crate::buffer::TextBuffer;
use crate::editor::EditorModes;

verus! {

/// A place in a document or on the screen: `x` counts characters or columns,
/// `y` counts lines or rows, both from 0. As the size of a screen, `x` is its
/// width and `y` its height.
#[derive(Debug, Clone, Copy, PartialEq, Eq, Structural)]
pub struct Position {
    pub x: usize,
    pub y: usize,
}

impl Position {
    /// The origin.
    pub fn new() -> (p: Position)
        ensures
            p.x == 0,
            p.y == 0,
    {
        Position { x: 0, y: 0 }
    }
}

/// The shape of the cursor: a bar while inserting, a block otherwise.
#[derive(Debug, Clone, Copy, PartialEq, Eq, Structural)]
pub enum CursorType {
    Ibeam,
    Block,
}

/// The window through which a buffer is seen: the size of the screen, the
/// document row shown at its top (`camera.y`; `camera.x` stays 0), where the
/// cursor stands on the screen, how wide the line numbers are, and the texts
/// of the status line and the command line. The two bottom rows of the
/// screen belong to those lines; the rows above show the document.
pub struct Terminal {
    pub size: Position,
    pub camera: Position,
    pub cursor: Position,
    pub line_no_digits: usize,
    pub status_line_left: String,
    pub command_line: String,
    pub status_line_right: String,
    pub cursor_type: CursorType,
    pub is_start_first_time: bool,
}

/// The number of rows at the bottom of the screen that do not show the
/// document.
pub open spec fn bottom_rows() -> int {
    2
}

/// The number of columns beside the line number that do not show the
/// document.
pub open spec fn gutter_extra() -> int {
    2
}

/// The number of decimal digits of `n`; 1 for 0.
pub open spec fn digits(n: nat) -> nat
    decreases n,
{
    if n < 10 {
        1
    } else {
        1 + digits(n / 10)
    }
}

/// The row of the document that is shown at the top of `height` rows once
/// the cursor is on row `y`, if it was `camera` before: the camera moves
/// only if the cursor is outside the window, and then only as far as it
/// takes to bring it to the nearest edge.
pub open spec fn camera_for(camera: int, height: int, y: int) -> int {
    if y < camera {
        y
    } else if y >= camera + height {
        y - height + 1
    } else {
        camera
    }
}

/// The key that an escape sequence stands for: the arrow keys are the
/// motions `k`, `j`, `l` and `h`; any other sequence is Escape.
pub open spec fn decoded(seq: Seq<u8>) -> u8 {
    if seq[1] == 91 {
        if seq[2] == 65 {
            107
        } else if seq[2] == 66 {
            106
        } else if seq[2] == 67 {
            108
        } else if seq[2] == 68 {
            104
        } else {
            27
        }
    } else {
        27
    }
}

/// The key that what was read from the keyboard stands for: key 0 if
/// nothing was read, the decoded sequence if it begins with Escape, else its
/// first byte.
pub open spec fn key_of(buffer: Seq<u8>, bytes_read: int) -> u8 {
    if bytes_read == 0 {
        0
    } else if buffer[0] == 27 {
        decoded(buffer)
    } else {
        buffer[0]
    }
}

impl Terminal {
    /// The number of rows that show the document.
    pub open spec fn text_rows(&self) -> int {
        self.size.y - bottom_rows()
    }

    /// The screen is large enough to show a row of the document and a
    /// column of it beside the line numbers.
    pub open spec fn usable(&self) -> bool {
        &&& self.size.x > 0
        &&& self.size.y > bottom_rows()
        &&& self.line_no_digits + gutter_extra() + self.size.x <= usize::MAX
    }

    /// Document row `y` is shown on the screen.
    pub open spec fn shows(&self, y: int) -> bool {
        self.camera.y <= y < self.camera.y + self.text_rows()
    }

    /// A window of the size `size` onto a buffer of `buffer_len` lines: the
    /// camera at the top of the document, a block cursor, the name of the
    /// file on the status line.
    pub fn new(buffer_len: usize, filename: &str, size: Position) -> (terminal: Terminal)
        ensures
            terminal.size == size,
            terminal.camera == (Position { x: 0, y: 0 }),
            terminal.cursor == (Position { x: 0, y: 0 }),
            terminal.line_no_digits == digits(buffer_len as nat),
            terminal.status_line_left@ == filename@,
            terminal.command_line@.len() == 0,
            terminal.status_line_right@.len() == 0,
            terminal.cursor_type == CursorType::Block,
            terminal.is_start_first_time,
    {
        Terminal {
            line_no_digits: Self::get_line_no_padding(buffer_len),
            command_line: String::new(),
            is_start_first_time: true,
            size,
            camera: Position { x: 0, y: 0 },
            cursor: Position { x: 0, y: 0 },
            status_line_right: String::new(),
            status_line_left: String::from_str(filename),
            cursor_type: CursorType::Block,
        }
    }

    /// The width of the line numbers of a buffer of `buffer_len` lines: the
    /// number of decimal digits of `buffer_len`.
    pub fn get_line_no_padding(buffer_len: usize) -> (width: usize)
        ensures
            width == digits(buffer_len as nat),
            1 <= width <= 20,
    {
        let mut rest = buffer_len;
        let mut width: usize = 1;
        while rest >= 10
            invariant
                digits(buffer_len as nat) == (width - 1) + digits(rest as nat),
                1 <= width,
                width <= 20,
                rest as int * pow10((width - 1) as nat) <= usize::MAX,
            decreases rest,
        {
            proof {
                lemma_pow10_step((width - 1) as nat);
                assert(rest as int * pow10((width - 1) as nat) >= 10 * pow10((width - 1) as nat))
                    by (nonlinear_arith)
                    requires
                        rest >= 10,
                        pow10((width - 1) as nat) >= 1,
                ;
                assert((rest / 10) as int * pow10(width as nat) <= rest as int * pow10(
                    (width - 1) as nat,
                )) by (nonlinear_arith)
                    requires
                        pow10(width as nat) == 10 * pow10((width - 1) as nat),
                        pow10((width - 1) as nat) >= 1,
                        rest >= 0,
                ;
                lemma_pow10_bound(width as nat);
            }
            rest = rest / 10;
            width += 1;
        }
        width
    }

    /// Puts the cursor on the screen for a cursor at `pos` in the document,
    /// and moves the camera, as little as possible, so that the row of the
    /// cursor is shown. The column on the screen is the column in the
    /// document, taken modulo the width of the screen, behind the line
    /// numbers.
    pub fn render_cursor_position(&mut self, pos: &Position)
        requires
            old(self).usable(),
        ensures
            final(self).camera.y == camera_for(
                old(self).camera.y as int,
                old(self).text_rows(),
                pos.y as int,
            ),
            final(self).camera.x == old(self).camera.x,
            final(self).cursor.y == pos.y - final(self).camera.y,
            final(self).cursor.x == pos.x % old(self).size.x + old(self).line_no_digits
                + gutter_extra(),
            final(self).shows(pos.y as int),
            old(self).shows(pos.y as int) ==> final(self).camera == old(self).camera,
            final(self).size == old(self).size,
            final(self).line_no_digits == old(self).line_no_digits,
            final(self).status_line_left == old(self).status_line_left,
            final(self).command_line == old(self).command_line,
            final(self).status_line_right == old(self).status_line_right,
            final(self).cursor_type == old(self).cursor_type,
            final(self).is_start_first_time == old(self).is_start_first_time,
    {
        let bottom_ui_size: usize = 2;
        let left_ui_size = self.line_no_digits + 2;
        self.cursor.x = pos.x % self.size.x + left_ui_size;
        self.cursor.y = pos.y.saturating_sub(self.camera.y);
        if self.cursor.y >= self.size.y - bottom_ui_size {
            self.camera.y += self.cursor.y.saturating_sub(self.size.y - bottom_ui_size - 1);
            self.cursor.y = self.size.y - bottom_ui_size - 1;
        } else if self.cursor.y == 0 && self.camera.y != pos.y {
            self.camera.y = self.camera.y.saturating_sub(self.camera.y.saturating_sub(pos.y));
        }
    }

    /// Gets the window ready for a frame that shows `buffer`: places the
    /// cursor and the camera, and sets the width of the line numbers to fit
    /// the buffer. The answer says whether the frame is the start page, which
    /// is shown for as long as the first buffer has no lines; the width of
    /// the line numbers is then left as it is.
    pub fn refresh_screen(&mut self, buffer: &TextBuffer, mode: EditorModes) -> (start_page: bool)
        requires
            old(self).usable(),
        ensures
            start_page == (old(self).is_start_first_time && buffer.rows@.len() == 0),
            final(self).is_start_first_time == start_page,
            final(self).line_no_digits == if start_page {
                old(self).line_no_digits as nat
            } else {
                digits(buffer.rows@.len())
            },
            final(self).camera.y == camera_for(
                old(self).camera.y as int,
                old(self).text_rows(),
                buffer.pos.y as int,
            ),
            final(self).camera.x == old(self).camera.x,
            final(self).cursor.y == buffer.pos.y - final(self).camera.y,
            final(self).cursor.x == buffer.pos.x % old(self).size.x + old(self).line_no_digits
                + gutter_extra(),
            final(self).shows(buffer.pos.y as int),
            final(self).size == old(self).size,
            final(self).status_line_left == old(self).status_line_left,
            final(self).command_line == old(self).command_line,
            final(self).status_line_right == old(self).status_line_right,
            final(self).cursor_type == old(self).cursor_type,
    {
        self.render_cursor_position(&buffer.pos);
        if self.is_start_first_time && buffer.rows.len() == 0 {
            return true;
        }
        self.is_start_first_time = false;
        self.line_no_digits = Self::get_line_no_padding(buffer.rows.len());
        false
    }

    /// The rows of the document that the screen shows: from the camera on,
    /// as many as the screen has rows for the document. Rows beyond the end
    /// of the document are shown as empty.
    pub fn visible_rows(&self) -> (rows: (usize, usize))
        ensures
            rows.0 == self.camera.y,
            self.text_rows() < 0 ==> rows.1 == rows.0,
            0 <= self.text_rows() && self.camera.y + self.text_rows() <= usize::MAX ==> rows.1
                == self.camera.y + self.text_rows(),
            self.camera.y + self.text_rows() > usize::MAX ==> rows.1 == usize::MAX,
    {
        (self.camera.y, self.camera.y.saturating_add(self.size.y.saturating_sub(2)))
    }

    /// The key that an escape sequence of the keyboard stands for.
    pub fn handle_other_keys(seq: &[u8; 4]) -> (key: u8)
        ensures
            key == decoded(seq@),
    {
        if seq[1] == 91 {
            match seq[2] {
                65 => 107,
                66 => 106,
                67 => 108,
                68 => 104,
                _ => 27,
            }
        } else {
            27
        }
    }

    /// The key that the `bytes_read` bytes read into `buffer` stand for.
    pub fn read_key(buffer: &[u8; 4], bytes_read: usize) -> (key: u8)
        ensures
            key == key_of(buffer@, bytes_read as int),
    {
        if bytes_read == 0 {
            return 0;
        }
        if buffer[0] == 27 {
            Self::handle_other_keys(buffer)
        } else {
            buffer[0]
        }
    }

    /// Gives the cursor the shape that goes with `mode`: a bar while
    /// inserting, a block otherwise.
    pub fn change_cursor(&mut self, mode: EditorModes)
        ensures
            final(self).cursor_type == if mode == EditorModes::Insert {
                CursorType::Ibeam
            } else {
                CursorType::Block
            },
            final(self).size == old(self).size,
            final(self).camera == old(self).camera,
            final(self).cursor == old(self).cursor,
            final(self).line_no_digits == old(self).line_no_digits,
            final(self).status_line_left == old(self).status_line_left,
            final(self).command_line == old(self).command_line,
            final(self).status_line_right == old(self).status_line_right,
            final(self).is_start_first_time == old(self).is_start_first_time,
    {
        match mode {
            EditorModes::Insert => {
                self.cursor_type = CursorType::Ibeam;
            },
            _ => self.cursor_type = CursorType::Block,
        }
    }
}

/// 10 to the power `n`.
pub open spec fn pow10(n: nat) -> int
    decreases n,
{
    if n == 0 {
        1
    } else {
        10 * pow10((n - 1) as nat)
    }
}

/// A power of 10 is 10 times the one before, and at least 1.
pub proof fn lemma_pow10_step(n: nat)
    ensures
        pow10(n + 1) == 10 * pow10(n),
        pow10(n) >= 1,
    decreases n,
{
    if n > 0 {
        lemma_pow10_step((n - 1) as nat);
    }
}

/// A power of 10 that the machine holds has an exponent of at most 19.
pub proof fn lemma_pow10_bound(n: nat)
    ensures
        pow10(n) <= usize::MAX ==> n <= 19,
{
    if n >= 20 {
        lemma_pow10_grows(20, n);
        assert(pow10(20) == 100000000000000000000int) by {
            reveal_with_fuel(pow10, 21);
        }
    }
}

/// Powers of 10 grow with their exponent.
pub proof fn lemma_pow10_grows(m: nat, n: nat)
    requires
        m <= n,
    ensures
        pow10(m) <= pow10(n),
    decreases n - m,
{
    if m < n {
        lemma_pow10_step(m);
        lemma_pow10_grows(m + 1, n);
    }
}

} // verus!
