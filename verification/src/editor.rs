use vstd::prelude::*;
use std::collections::HashMap;
use crate::buffer::laws::{
    law_delete_keeps_cursor_legal, law_insert_keeps_cursor_legal, law_motion_keeps_cursor_legal,
};
use crate::buffer::{
    opened, LoadedFile, ModifiedTime, SavePlan, SaveStep, TextBuffer, FIRST_BUFFER_ID,
};
use crate::commandmode::{
    key_result, key_text, write_result_text, Command, CommandMode, CommandReturn,
};
use crate::error::{AppError, FileError};
use crate::insertmode::{InsertAction, InsertType};
use crate::normalmode::motions::{BufferAction, Motion};
use crate::normalmode::operation_pending::PendingOperations;
use crate::normalmode::NormalMode;
use crate::terminal::{camera_for, digits, gutter_extra, CursorType, Position, Terminal};
use crate::text::{decimal_text, number_text, string_of_char, text_of};

verus! {

/// The three modes of the editor.
#[derive(Debug, Copy, Clone, PartialEq, Eq, Structural)]
pub enum EditorModes {
    Normal,
    Insert,
    Command,
}

/// A save that is under way: the name of the file, whether the buffer is to
/// be closed once it is saved, and whether the save was forced.
pub struct SaveRequest {
    pub name: String,
    pub quit: bool,
    pub forced: bool,
}

/// What the caller of the editor has to do after a key.
pub enum EditorAction {
    /// Nothing but to show the next frame, or to stop if no buffer is left.
    Continue,
    /// Find out when the file named in the request was last modified, and
    /// hand the answer to `save_checked`.
    Stat(SaveRequest),
    /// Write the text to the file named in the request, and hand the outcome
    /// to `save_finished`.
    Write(SaveRequest, String),
}

/// The editor: its buffers, which of them is active, the mode, the commands
/// that are being typed, and the window.
/// The buffers are held under numbers; `buff_vec` lists the numbers in the
/// order in which the buffers were opened, and `current_buff_index` is the
/// place of the active buffer in that list.
pub struct Editor {
    pub terminal: Terminal,
    pub buffers: HashMap<usize, TextBuffer>,
    pub buff_vec: Vec<usize>,
    pub current_buff_index: usize,
    pub exit_flag: bool,
    pub save_flag: bool,
    pub mode: EditorModes,
    pub normal_mode: NormalMode,
    pub command_mode: CommandMode,
}

/// The message of `q` on a buffer that has changed.
pub open spec fn quit_refused_text() -> Seq<char> {
    "file  changes use q! to force quit"@
}

/// The message of `b` with an index that names no buffer.
pub open spec fn index_not_found_text() -> Seq<char> {
    "index not found"@
}

/// What the right of the status line shows after a change of buffer: the
/// number of buffers and the place of the active one.
pub open spec fn buffer_status_text(count: int, index: int) -> Seq<char> {
    decimal_text(count as nat) + seq![','] + decimal_text(index as nat)
}

/// What the left of the status line shows for a key taken in `mode`.
pub open spec fn mode_text(mode: EditorModes) -> Seq<char> {
    match mode {
        EditorModes::Normal => " Normal "@,
        EditorModes::Insert => " Insert "@,
        EditorModes::Command => " Command "@,
    }
}

/// What stands before the command on the command line: a colon in Command
/// mode, nothing otherwise.
pub open spec fn prompt(mode: EditorModes) -> Seq<char> {
    if mode == EditorModes::Command {
        seq![':']
    } else {
        Seq::empty()
    }
}

/// The place of the active buffer after the one at `index` of `count`
/// buffers has been closed: the same place, or the last if that place is
/// gone.
pub open spec fn index_after_close(index: int, count: int) -> int {
    if count <= 1 {
        0
    } else if index < count - 1 {
        index
    } else {
        count - 2
    }
}

impl Editor {
    /// The number of buffers.
    pub open spec fn count(&self) -> int {
        self.buff_vec@.len() as int
    }

    /// The buffer at place `i` of the list.
    pub open spec fn doc(&self, i: int) -> TextBuffer {
        self.buffers@[self.buff_vec@[i]]
    }

    /// The number under which the active buffer is held.
    pub open spec fn active_key(&self) -> usize {
        self.buff_vec@[self.current_buff_index as int]
    }

    /// The active buffer.
    pub open spec fn active(&self) -> TextBuffer {
        self.buffers@[self.active_key()]
    }

    /// The numbers in the list grow from each buffer to the next, and the
    /// buffers held are those that the list names.
    pub open spec fn ids_ok(&self) -> bool {
        &&& forall|i: int, j: int|
            0 <= i < j < self.buff_vec@.len() ==> #[trigger] self.buff_vec@[i]
                < #[trigger] self.buff_vec@[j]
        &&& forall|i: int|
            0 <= i < self.buff_vec@.len() ==> self.buffers@.contains_key(
                #[trigger] self.buff_vec@[i],
            )
        &&& forall|k: usize| #[trigger]
            self.buffers@.contains_key(k) ==> self.buff_vec@.contains(k)
    }

    /// The cursor of every buffer is legal: at most just past the end of its
    /// line in the active buffer while inserting, on a character (or at
    /// column 0 of an empty line) everywhere else.
    pub open spec fn cursors_ok(&self) -> bool {
        forall|i: int|
            0 <= i < self.buff_vec@.len() ==> {
                &&& (#[trigger] self.doc(i))@.in_bounds()
                &&& i != self.current_buff_index || self.mode != EditorModes::Insert
                    ==> self.doc(i)@.on_char()
            }
    }

    /// The editor is in order: the list of buffers is, the active place is a
    /// place of the list unless the list is empty, and all cursors are
    /// legal.
    pub open spec fn wf(&self) -> bool {
        &&& self.ids_ok()
        &&& self.buff_vec@.len() > 0 ==> self.current_buff_index < self.buff_vec@.len()
        &&& self.cursors_ok()
    }

    /// The size of the screen, the camera, the place of the cursor on the
    /// screen and the width of the line numbers are as before.
    pub open spec fn screen_kept(pre: Editor, post: Editor) -> bool {
        &&& post.terminal.size == pre.terminal.size
        &&& post.terminal.camera == pre.terminal.camera
        &&& post.terminal.cursor == pre.terminal.cursor
        &&& post.terminal.line_no_digits == pre.terminal.line_no_digits
        &&& post.terminal.is_start_first_time == pre.terminal.is_start_first_time
        &&& post.exit_flag == pre.exit_flag
        &&& post.save_flag == pre.save_flag
    }

    /// The list of buffers and the active place are as before, and no
    /// buffer but the active one has changed.
    pub open spec fn others_kept(pre: Editor, post: Editor) -> bool {
        &&& post.buff_vec@ == pre.buff_vec@
        &&& post.current_buff_index == pre.current_buff_index
        &&& post.buffers@ == pre.buffers@.insert(pre.active_key(), post.active())
    }

    /// The buffers, their list and the active place are as before.
    pub open spec fn buffers_kept(pre: Editor, post: Editor) -> bool {
        &&& post.buff_vec@ == pre.buff_vec@
        &&& post.current_buff_index == pre.current_buff_index
        &&& post.buffers@ == pre.buffers@
    }

    /// The active buffer has been closed: it is gone from the list and from
    /// the buffers held, and the active place is the same, or the last if
    /// that place is gone.
    pub open spec fn active_closed(pre: Editor, post: Editor) -> bool {
        &&& post.buff_vec@ == pre.buff_vec@.remove(pre.current_buff_index as int)
        &&& post.buffers@ == pre.buffers@.remove(pre.active_key())
        &&& post.current_buff_index == index_after_close(
            pre.current_buff_index as int,
            pre.count(),
        )
    }

    /// What a key does in Normal mode. The key goes into the command that is
    /// being typed. A command that is complete acts on the active buffer: a
    /// motion moves its cursor; a deletion deletes and then takes the cursor
    /// back onto a character; a change to Insert mode places the cursor for
    /// inserting; a change to Command mode opens an empty command line. The
    /// right of the status line shows the motion that is held.
    pub open spec fn normal_step(pre: Editor, post: Editor, c: u8) -> bool {
        let after = pre.normal_mode.after_key(c);
        &&& post.normal_mode == after.0
        &&& post.terminal.status_line_right@ == seq![after.0.pending_operations.motion]
        &&& Self::screen_kept(pre, post)
        &&& match after.1 {
            Ok(BufferAction::Move(direction)) => {
                &&& Self::others_kept(pre, post)
                &&& post.command_mode == pre.command_mode
                &&& post.active()@ == pre.active()@.motion(direction)
                &&& post.active().file_state() == pre.active().file_state()
                &&& post.mode == pre.mode
                &&& post.terminal.cursor_type == pre.terminal.cursor_type
                &&& post.terminal.command_line == pre.terminal.command_line
            },
            Ok(BufferAction::Delete(direction)) => {
                &&& Self::others_kept(pre, post)
                &&& post.command_mode == pre.command_mode
                &&& post.active()@ == pre.active()@.delete(direction).clamp_x()
                &&& post.active().is_changed
                &&& post.active().filename == pre.active().filename
                &&& post.active().modified_time == pre.active().modified_time
                &&& post.mode == pre.mode
                &&& post.terminal.cursor_type == pre.terminal.cursor_type
                &&& post.terminal.command_line == pre.terminal.command_line
            },
            Ok(BufferAction::ChangeMode(EditorModes::Insert, pos)) => {
                &&& Self::others_kept(pre, post)
                &&& post.command_mode == pre.command_mode
                &&& post.active()@ == pre.active()@.insert(pos)
                &&& post.active().is_changed
                &&& post.active().filename == pre.active().filename
                &&& post.active().modified_time == pre.active().modified_time
                &&& post.mode == EditorModes::Insert
                &&& post.terminal.cursor_type == CursorType::Ibeam
                &&& post.terminal.command_line == pre.terminal.command_line
            },
            Ok(BufferAction::ChangeMode(EditorModes::Command, _)) => {
                &&& Self::buffers_kept(pre, post)
                &&& post.mode == EditorModes::Command
                &&& post.terminal.cursor_type == CursorType::Block
                &&& post.command_mode.command_string@ == Seq::<char>::empty()
                &&& post.command_mode.command@.len() == 0
                &&& post.command_mode.value == pre.command_mode.value
                &&& post.terminal.command_line@ == seq![':']
            },
            Ok(BufferAction::ChangeMode(EditorModes::Normal, _)) => {
                &&& Self::buffers_kept(pre, post)
                &&& post.command_mode == pre.command_mode
                &&& post.mode == EditorModes::Normal
                &&& post.terminal.cursor_type == CursorType::Block
                &&& post.terminal.command_line == pre.terminal.command_line
            },
            Ok(BufferAction::Nothing) | Err(_) => {
                &&& Self::buffers_kept(pre, post)
                &&& post.command_mode == pre.command_mode
                &&& post.mode == pre.mode
                &&& post.terminal.cursor_type == pre.terminal.cursor_type
                &&& post.terminal.command_line == pre.terminal.command_line
            },
        }
    }

    /// What a key does in Insert mode: Backspace deletes backwards, Enter
    /// splits the line, a key of text is typed into the active buffer, and
    /// Escape takes the cursor back onto a character and the editor back to
    /// Normal mode.
    pub open spec fn insert_step(pre: Editor, post: Editor, c: u8) -> bool {
        &&& post.normal_mode == pre.normal_mode
        &&& post.command_mode == pre.command_mode
        &&& Self::screen_kept(pre, post)
        &&& Self::others_kept(pre, post)
        &&& post.terminal.status_line_right == pre.terminal.status_line_right
        &&& post.terminal.command_line == pre.terminal.command_line
        &&& post.active().filename == pre.active().filename
        &&& post.active().modified_time == pre.active().modified_time
        &&& match InsertAction::of_key(c) {
            InsertAction::Backspace => {
                &&& post.active()@ == pre.active()@.delete(Motion::BackSpace(1))
                &&& post.active().is_changed
                &&& post.mode == pre.mode
                &&& post.terminal.cursor_type == pre.terminal.cursor_type
            },
            InsertAction::Escape => {
                &&& post.active()@ == pre.active()@.fix_cursor_pos_escape_insert()
                &&& post.active().is_changed == pre.active().is_changed
                &&& post.mode == EditorModes::Normal
                &&& post.terminal.cursor_type == CursorType::Block
            },
            InsertAction::Newline => {
                &&& post.active()@ == pre.active()@.split_line()
                &&& post.active().is_changed == pre.active().is_changed
                &&& post.mode == pre.mode
                &&& post.terminal.cursor_type == pre.terminal.cursor_type
            },
            InsertAction::Chars(key) => {
                &&& post.active()@ == pre.active()@.insert_char(key)
                &&& post.active().is_changed == pre.active().is_changed
                &&& post.mode == pre.mode
                &&& post.terminal.cursor_type == pre.terminal.cursor_type
            },
            InsertAction::Nothing => {
                &&& post.active() == pre.active()
                &&& post.mode == pre.mode
                &&& post.terminal.cursor_type == pre.terminal.cursor_type
            },
        }
    }

    /// What the editor shows when a save has ended: the outcome on the
    /// command line and, after a forced save and quit that failed, `failed`
    /// on the right of the status line. The editor is in Normal mode.
    pub open spec fn save_shown(
        pre: Editor,
        post: Editor,
        quit: bool,
        forced: bool,
        result: Result<String, FileError>,
    ) -> bool {
        &&& post.normal_mode == pre.normal_mode
        &&& Self::screen_kept(pre, post)
        &&& post.mode == EditorModes::Normal
        &&& post.terminal.cursor_type == pre.terminal.cursor_type
        &&& post.command_mode.command_string@ == write_result_text(result)
        &&& post.command_mode.command@.len() == 0
        &&& post.terminal.command_line@ == write_result_text(result)
        &&& if quit && forced && result is Err {
            post.terminal.status_line_right@ == "failed"@
        } else {
            post.terminal.status_line_right == pre.terminal.status_line_right
        }
    }

    /// How a save ends that leaves the buffer as it is: the editor shows the
    /// outcome, and the active buffer is closed if the save succeeded and
    /// was part of a quit.
    pub open spec fn save_ended(
        pre: Editor,
        post: Editor,
        quit: bool,
        forced: bool,
        result: Result<String, FileError>,
    ) -> bool {
        &&& Self::save_shown(pre, post, quit, forced, result)
        &&& if quit && result is Ok {
            Self::active_closed(pre, post)
        } else {
            Self::buffers_kept(pre, post)
        }
    }

    /// What a buffer is after it has been written to the file `name`, which
    /// was then last modified at `time`: it takes that time, counts as
    /// unchanged, and takes the name as its own if it had none. The text
    /// and the cursor are as before.
    pub open spec fn written(before: TextBuffer, after: TextBuffer, name: String, time: ModifiedTime) -> bool {
        &&& after.rows == before.rows
        &&& after.pos == before.pos
        &&& after.x_end == before.x_end
        &&& after.modified_time == time
        &&& !after.is_changed
        &&& after.filename == if before.filename is None {
            Some(name)
        } else {
            before.filename
        }
    }

    /// What the look at the file does to a save that is under way. If the
    /// file was last modified at another time than the active buffer knows
    /// of, the save ends with `FileChanged`. Else nothing changes and the
    /// caller is asked to write the text of the buffer.
    pub open spec fn checked_step(
        pre: Editor,
        post: Editor,
        request: SaveRequest,
        on_disk: ModifiedTime,
        action: EditorAction,
    ) -> bool {
        if on_disk != pre.active().modified_time {
            &&& action is Continue
            &&& Self::save_ended(
                pre,
                post,
                request.quit,
                request.forced,
                Err(FileError::FileChanged),
            )
        } else {
            &&& action matches EditorAction::Write(asked, text)
            &&& asked == request
            &&& text@ == crate::file::joined(pre.active()@.lines)
            &&& post == pre
        }
    }

    /// What the outcome of the write does to a save that is under way. After
    /// a write that failed the save ends with the failure. After a write
    /// that succeeded the save ends well: the active buffer is closed if
    /// the save was part of a quit, and else counts as written.
    pub open spec fn finished_step(
        pre: Editor,
        post: Editor,
        request: SaveRequest,
        outcome: Result<ModifiedTime, AppError>,
    ) -> bool {
        match outcome {
            Ok(time) => {
                &&& Self::save_shown(pre, post, request.quit, request.forced, Ok(request.name))
                &&& if request.quit {
                    Self::active_closed(pre, post)
                } else {
                    &&& Self::others_kept(pre, post)
                    &&& Self::written(pre.active(), post.active(), request.name, time)
                }
            },
            Err(e) => Self::save_ended(
                pre,
                post,
                request.quit,
                request.forced,
                Err(FileError::OtherError(e)),
            ),
        }
    }

    /// How a command that needs no file ends: the command line is empty or
    /// shows `message`, and the editor is in Normal mode.
    pub open spec fn command_ended(pre: Editor, post: Editor, message: Seq<char>) -> bool {
        &&& post.normal_mode == pre.normal_mode
        &&& Self::screen_kept(pre, post)
        &&& post.mode == EditorModes::Normal
        &&& post.command_mode.command_string@ == message
        &&& post.terminal.command_line@ == message
    }

    /// What a save command does at once, before anything is read or
    /// written. Without a file name the save ends with `EmptyFileName`.
    /// Else the caller is asked to look at the file (a save to the buffer's
    /// own file that is not forced) or to write it, and the editor waits.
    pub open spec fn save_begun(
        pre: Editor,
        post: Editor,
        action: EditorAction,
        quit: bool,
        forced: bool,
        filename: Option<Seq<char>>,
    ) -> bool {
        match pre.active().save_plan(forced, filename) {
            SavePlan::Failed(e) => {
                &&& Self::save_ended(pre, post, quit, forced, Err(e))
                &&& action is Continue
            },
            SavePlan::Stat(name) => {
                &&& action matches EditorAction::Stat(request)
                &&& request.name@ == name
                &&& request.quit == quit
                &&& request.forced == forced
                &&& Self::waiting(pre, post)
            },
            SavePlan::Write(name, text) => {
                &&& action matches EditorAction::Write(request, written)
                &&& request.name@ == name
                &&& request.quit == quit
                &&& request.forced == forced
                &&& written@ == text
                &&& Self::waiting(pre, post)
            },
        }
    }

    /// Nothing has changed but the command line, which shows the command
    /// behind the prompt.
    pub open spec fn waiting(pre: Editor, post: Editor) -> bool {
        &&& post.normal_mode == pre.normal_mode
        &&& Self::screen_kept(pre, post)
        &&& Self::buffers_kept(pre, post)
        &&& post.mode == pre.mode
        &&& post.terminal.cursor_type == pre.terminal.cursor_type
        &&& post.terminal.status_line_right == pre.terminal.status_line_right
        &&& post.terminal.command_line@ == prompt(post.mode) + post.command_mode.command_string@
    }

    /// A key that completes no command changes the command line only: it
    /// shows `text` behind the prompt.
    pub open spec fn typing_step(pre: Editor, post: Editor, text: Seq<char>) -> bool {
        &&& post.normal_mode == pre.normal_mode
        &&& Self::screen_kept(pre, post)
        &&& Self::buffers_kept(pre, post)
        &&& post.mode == pre.mode
        &&& post.terminal.cursor_type == pre.terminal.cursor_type
        &&& post.terminal.status_line_right == pre.terminal.status_line_right
        &&& post.command_mode.command_string@ == text
        &&& post.terminal.command_line@ == prompt(post.mode) + text
    }

    /// Escape, and a word that is no command, lead back to Normal mode; the
    /// command line shows `text`, which is empty or a message.
    pub open spec fn escape_step(pre: Editor, post: Editor, text: Seq<char>) -> bool {
        &&& Self::command_ended(pre, post, text)
        &&& Self::buffers_kept(pre, post)
        &&& post.terminal.cursor_type == pre.terminal.cursor_type
        &&& post.terminal.status_line_right == pre.terminal.status_line_right
    }

    /// `q` and `q!`: the active buffer is closed, unless it has changed and
    /// the quit is not forced; then the command line says so, and the
    /// cursor is taken back onto a character.
    pub open spec fn quit_step(pre: Editor, post: Editor, forced: bool) -> bool {
        &&& post.terminal.status_line_right == pre.terminal.status_line_right
        &&& if pre.active().is_changed && !forced {
            &&& Self::command_ended(pre, post, quit_refused_text())
            &&& Self::others_kept(pre, post)
            &&& post.active()@ == pre.active()@.fix_cursor_pos_escape_insert()
            &&& post.active().file_state() == pre.active().file_state()
            &&& post.terminal.cursor_type == CursorType::Block
        } else {
            &&& Self::command_ended(pre, post, Seq::empty())
            &&& Self::active_closed(pre, post)
            &&& post.terminal.cursor_type == pre.terminal.cursor_type
        }
    }

    /// The place after `index` in a list of `count`, around the end.
    pub open spec fn place_after(index: int, count: int) -> int {
        if index + 1 >= count {
            0
        } else {
            index + 1
        }
    }

    /// The place before `index` in a list of `count`, around the start.
    pub open spec fn place_before(index: int, count: int) -> int {
        if index == 0 {
            count - 1
        } else {
            index - 1
        }
    }

    /// `bn`, `bp` and `b` with the index of a buffer: the buffer at place
    /// `place` becomes the active one, and the right of the status line
    /// shows the number of buffers and that place.
    pub open spec fn switch_step(pre: Editor, post: Editor, place: int) -> bool {
        &&& Self::command_ended(pre, post, Seq::empty())
        &&& post.buff_vec@ == pre.buff_vec@
        &&& post.buffers@ == pre.buffers@
        &&& post.current_buff_index == place
        &&& post.terminal.cursor_type == pre.terminal.cursor_type
        &&& post.terminal.status_line_right@ == buffer_status_text(pre.count(), place)
    }

    /// `b` with an index: the buffer at that place becomes the active one.
    /// If the index is the number of buffers, a buffer for no file is
    /// opened at the end of the list, under the number that follows the
    /// last, and becomes the active one. An index beyond that changes
    /// nothing and is answered with a message.
    pub open spec fn select_step(pre: Editor, post: Editor, n: usize, now: ModifiedTime) -> bool {
        let count = pre.count();
        if n == count && pre.buff_vec@.last() < usize::MAX {
            let id = (pre.buff_vec@.last() + 1) as usize;
            &&& Self::command_ended(pre, post, Seq::empty())
            &&& post.buff_vec@ == pre.buff_vec@.push(id)
            &&& post.buffers@ == pre.buffers@.insert(id, post.buffers@[id])
            &&& opened(post.buffers@[id], None, now)
            &&& post.current_buff_index == n
            &&& post.terminal.cursor_type == pre.terminal.cursor_type
            &&& post.terminal.status_line_right@ == buffer_status_text(count + 1, n as int)
        } else if n < count {
            Self::switch_step(pre, post, n as int)
        } else {
            &&& Self::command_ended(pre, post, index_not_found_text())
            &&& Self::buffers_kept(pre, post)
            &&& post.terminal.cursor_type == pre.terminal.cursor_type
            &&& post.terminal.status_line_right@ == buffer_status_text(
                count,
                pre.current_buff_index as int,
            )
        }
    }

    /// What a command does.
    /// No command yet changes the command line only. Escape, and a word
    /// that is no command, lead back to Normal mode. `q` closes the active
    /// buffer unless it has changed, and `q!` closes it in any case. `bn`
    /// and `bp` go to the next and the previous buffer, around the ends of
    /// the list. `b` and an index goes to the buffer at that place, and
    /// opens a buffer for no file if the index is the number of buffers.
    /// `w`, `w!`, `wq` and `wq!` begin a save.
    pub open spec fn command_run(
        pre: Editor,
        post: Editor,
        command: Command,
        text: Seq<char>,
        now: ModifiedTime,
        action: EditorAction,
    ) -> bool {
        let index = pre.current_buff_index as int;
        let count = pre.count();
        match command {
            Command::Nothing => action is Continue && Self::typing_step(pre, post, text),
            Command::Escape => action is Continue && Self::escape_step(pre, post, text),
            Command::Quit => action is Continue && Self::quit_step(pre, post, false),
            Command::ForceQuit => action is Continue && Self::quit_step(pre, post, true),
            Command::BuffNext => action is Continue && Self::switch_step(
                pre,
                post,
                Self::place_after(index, count),
            ),
            Command::BuffPrev => action is Continue && Self::switch_step(
                pre,
                post,
                Self::place_before(index, count),
            ),
            Command::BuffN(n) => action is Continue && Self::select_step(pre, post, n, now),
            Command::Save(filename) => Self::save_begun(pre, post, action, false, false, filename),
            Command::ForceSave(filename) => Self::save_begun(
                pre,
                post,
                action,
                false,
                true,
                filename,
            ),
            Command::SaveQuit(filename) => Self::save_begun(
                pre,
                post,
                action,
                true,
                false,
                filename,
            ),
            Command::ForceSaveQuit(filename) => Self::save_begun(
                pre,
                post,
                action,
                true,
                true,
                filename,
            ),
        }
    }

    /// What a key does in Command mode: what the command does that the key
    /// completes, on a command line that shows what it shows after the
    /// key.
    pub open spec fn command_step(
        pre: Editor,
        post: Editor,
        c: u8,
        now: ModifiedTime,
        action: EditorAction,
    ) -> bool {
        let text = pre.command_mode.command_string@;
        Self::command_run(pre, post, key_result(text, c), key_text(text, c), now, action)
    }

    /// What a key does: what it does in the mode that the editor is in. The
    /// left of the status line then names that mode. (The relations for the
    /// three modes leave the left of the status line open.)
    pub open spec fn step(
        pre: Editor,
        post: Editor,
        c: u8,
        now: ModifiedTime,
        action: EditorAction,
    ) -> bool {
        &&& post.terminal.status_line_left@ == mode_text(pre.mode)
        &&& match pre.mode {
            EditorModes::Normal => action is Continue && Self::normal_step(pre, post, c),
            EditorModes::Insert => action is Continue && Self::insert_step(pre, post, c),
            EditorModes::Command => Self::command_step(pre, post, c, now, action),
        }
    }

    /// The editor with one buffer for each file of `files`, or with one
    /// buffer for no file if there are none; the first buffer active, in
    /// Normal mode, on a screen of the size `size`.
    pub fn new(files: Vec<LoadedFile>, now: ModifiedTime, size: Position) -> (editor: Editor)
        requires
            FIRST_BUFFER_ID + files@.len() <= usize::MAX,
        ensures
            editor.wf(),
            editor.mode == EditorModes::Normal,
            editor.current_buff_index == 0,
            !editor.exit_flag,
            editor.count() == if files@.len() == 0 {
                1
            } else {
                files@.len() as int
            },
            forall|i: int| 0 <= i < files@.len() ==> opened(editor.doc(i), Some(files@[i]), now),
            files@.len() == 0 ==> opened(editor.doc(0), None, now),
            editor.normal_mode.pending_operations == PendingOperations::empty(),
            editor.command_mode.command_string@.len() == 0,
            editor.terminal.size == size,
            editor.terminal.camera == (Position { x: 0, y: 0 }),
            editor.terminal.cursor_type == CursorType::Block,
            editor.terminal.status_line_left@ == if files@.len() == 0 {
                Seq::<char>::empty()
            } else {
                files@[0].filename@
            },
    {
        let mut buff_vec: Vec<usize> = Vec::new();
        let mut lines: usize = 0;
        let mut name = String::new();
        if files.len() > 0 {
            lines = files[0].rows.len();
            name = files[0].filename.clone();
        }
        let buffers = TextBuffer::load_buffers(files, now, &mut buff_vec);
        let terminal = Terminal::new(lines, name.as_str(), size);
        let editor = Editor {
            normal_mode: NormalMode::new(),
            buff_vec,
            command_mode: CommandMode::new(),
            current_buff_index: 0,
            terminal,
            buffers,
            exit_flag: false,
            save_flag: false,
            mode: EditorModes::Normal,
        };
        proof {
            let count = editor.count();
            assert forall|i: int| 0 <= i < count implies (#[trigger] editor.doc(i))@.on_char()
                && editor.doc(i)@.in_bounds() by {
                assert(editor.buff_vec@[i] == (FIRST_BUFFER_ID + i) as usize);
                if files@.len() > 0 {
                    assert(opened(editor.buffers@[(FIRST_BUFFER_ID + i) as usize], Some(files@[i]), now));
                }
            }
            assert forall|k: usize| #[trigger] editor.buffers@.contains_key(k) implies editor.buff_vec@.contains(k) by {
                assert(editor.buff_vec@[k - FIRST_BUFFER_ID] == k);
            }
        }
        editor
    }

    /// Whether no buffer is left, so that the editor is done.
    pub fn is_done(&self) -> (done: bool)
        ensures
            done == (self.count() == 0),
    {
        self.buff_vec.len() == 0
    }

    /// The number under which the active buffer is held.
    fn get_buff_key(&self) -> (key: usize)
        requires
            self.wf(),
            self.count() > 0,
        ensures
            key == self.active_key(),
            self.buffers@.contains_key(key),
    {
        self.buff_vec[self.current_buff_index]
    }

    /// Takes the active buffer out of the buffers held.
    fn take_active(&mut self) -> (taken: (usize, TextBuffer))
        requires
            old(self).ids_ok(),
            old(self).count() > 0,
            old(self).current_buff_index < old(self).count(),
        ensures
            taken.0 == old(self).active_key(),
            taken.1 == old(self).active(),
            final(self).buffers@ == old(self).buffers@.remove(taken.0),
            *final(self) == (Editor { buffers: final(self).buffers, ..*old(self) }),
    {
        broadcast use vstd::std_specs::hash::group_hash_axioms;

        let key = self.buff_vec[self.current_buff_index];
        match self.buffers.remove(&key) {
            Some(buffer) => (key, buffer),
            None => vstd::pervasive::unreached(),
        }
    }

    /// Puts a buffer among the buffers held, under `key`.
    fn put_active(&mut self, key: usize, buffer: TextBuffer)
        ensures
            final(self).buffers@ == old(self).buffers@.insert(key, buffer),
            *final(self) == (Editor { buffers: final(self).buffers, ..*old(self) }),
    {
        broadcast use vstd::std_specs::hash::group_hash_axioms;

        self.buffers.insert(key, buffer);
    }

    /// Takes the cursor of the active buffer back onto a character, gives the
    /// cursor its block shape and goes to Normal mode.
    fn activate_normal_mode(&mut self)
        requires
            old(self).wf(),
            old(self).count() > 0,
        ensures
            final(self).wf(),
            Self::others_kept(*old(self), *final(self)),
            final(self).active()@ == old(self).active()@.fix_cursor_pos_escape_insert(),
            final(self).active().file_state() == old(self).active().file_state(),
            final(self).mode == EditorModes::Normal,
            final(self).terminal.cursor_type == CursorType::Block,
            final(self).terminal.status_line_left == old(self).terminal.status_line_left,
            final(self).terminal.status_line_right == old(self).terminal.status_line_right,
            final(self).terminal.command_line == old(self).terminal.command_line,
            final(self).normal_mode == old(self).normal_mode,
            final(self).command_mode == old(self).command_mode,
            Self::screen_kept(*old(self), *final(self)),
    {
        let (key, mut buffer) = self.take_active();
        buffer.fix_cursor_pos_escape_insert();
        self.put_active(key, buffer);
        self.terminal.change_cursor(EditorModes::Normal);
        self.mode = EditorModes::Normal;
        proof {
            Self::lemma_active_legal(*old(self));
            law_insert_keeps_cursor_legal(old(self).active()@, 0, InsertType::Nothing);
            Self::lemma_put_back(*old(self), *self, buffer);
            Self::lemma_edit_keeps_wf(*old(self), *self);
        }
    }

    /// In an editor that is in order and has buffers, the active buffer is
    /// among the buffers held and its cursor is legal for the mode.
    pub proof fn lemma_active_legal(editor: Editor)
        requires
            editor.wf(),
            editor.count() > 0,
        ensures
            editor.buffers@.contains_key(editor.active_key()),
            editor.active()@.in_bounds(),
            editor.mode != EditorModes::Insert ==> editor.active()@.on_char(),
    {
        let i = editor.current_buff_index as int;
        assert(editor.doc(i)@.in_bounds());
    }

    /// Taking the active buffer out and putting a buffer back in its place
    /// leaves the other buffers as they were.
    pub proof fn lemma_put_back(pre: Editor, post: Editor, buffer: TextBuffer)
        requires
            pre.wf(),
            pre.count() > 0,
            post.buff_vec@ == pre.buff_vec@,
            post.current_buff_index == pre.current_buff_index,
            post.buffers@ == pre.buffers@.remove(pre.active_key()).insert(
                pre.active_key(),
                buffer,
            ),
        ensures
            Self::others_kept(pre, post),
            post.active() == buffer,
    {
        assert(post.buffers@ =~= pre.buffers@.insert(pre.active_key(), buffer));
    }

    /// An editor that differs from one in order at most in its active
    /// buffer, its mode and what it shows is in order too, if the cursor of
    /// the active buffer is legal for the mode.
    pub proof fn lemma_edit_keeps_wf(pre: Editor, post: Editor)
        requires
            pre.wf(),
            pre.count() > 0,
            Self::others_kept(pre, post),
            post.active()@.in_bounds(),
            post.mode != EditorModes::Insert ==> post.active()@.on_char(),
        ensures
            post.wf(),
    {
        let key = pre.active_key();
        assert(post.buffers@.contains_key(key));
        assert forall|i: int| 0 <= i < post.buff_vec@.len() implies {
            &&& (#[trigger] post.doc(i))@.in_bounds()
            &&& i != post.current_buff_index || post.mode != EditorModes::Insert
                ==> post.doc(i)@.on_char()
        } by {
            if i != pre.current_buff_index {
                assert(pre.buff_vec@[i] != pre.buff_vec@[pre.current_buff_index as int]);
                assert(post.doc(i) == pre.doc(i));
                assert(pre.doc(i)@.in_bounds());
            }
        }
        assert forall|k: usize| #[trigger] post.buffers@.contains_key(k) implies post.buff_vec@.contains(k) by {
            if k != key {
                assert(pre.buffers@.contains_key(k));
            } else {
                assert(pre.buff_vec@[pre.current_buff_index as int] == k);
            }
        }
    }

    /// Shows the command on the command line, behind a colon in Command
    /// mode.
    fn show_command_line(&mut self)
        ensures
            final(self).terminal.command_line@ == prompt(old(self).mode) + old(self).command_mode.command_string@,
            *final(self) == (Editor {
                terminal: Terminal {
                    command_line: final(self).terminal.command_line,
                    ..old(self).terminal
                },
                ..*old(self)
            }),
    {
        let mut line = if self.mode == EditorModes::Command {
            string_of_char(':')
        } else {
            String::new()
        };
        line.append(self.command_mode.command_string.as_str());
        self.terminal.command_line = line;
    }

    /// Shows the number of buffers and the place of the active one on the
    /// right of the status line.
    fn show_buffer_status(&mut self)
        ensures
            final(self).terminal.status_line_right@ == buffer_status_text(
                old(self).count(),
                old(self).current_buff_index as int,
            ),
            *final(self) == (Editor {
                terminal: Terminal {
                    status_line_right: final(self).terminal.status_line_right,
                    ..old(self).terminal
                },
                ..*old(self)
            }),
    {
        let mut text = number_text(self.buff_vec.len());
        text.push(',');
        text.append(number_text(self.current_buff_index).as_str());
        self.terminal.status_line_right = text;
    }

    /// Closes the active buffer.
    fn close_active(&mut self)
        requires
            old(self).wf(),
            old(self).count() > 0,
            old(self).mode != EditorModes::Insert,
        ensures
            final(self).wf(),
            Self::active_closed(*old(self), *final(self)),
            *final(self) == (Editor {
                buffers: final(self).buffers,
                buff_vec: final(self).buff_vec,
                current_buff_index: final(self).current_buff_index,
                ..*old(self)
            }),
    {
        broadcast use vstd::std_specs::hash::group_hash_axioms;

        let key = self.get_buff_key();
        let index = self.current_buff_index;
        self.buffers.remove(&key);
        self.buff_vec.remove(index);
        let left = self.buff_vec.len();
        self.current_buff_index = if left == 0 {
            0
        } else if index < left {
            index
        } else {
            left - 1
        };
        proof {
            Self::lemma_close_keeps_wf(*old(self), *self);
        }
    }

    /// An editor from which the active buffer has been closed outside
    /// Insert mode is in order if it was.
    pub proof fn lemma_close_keeps_wf(pre: Editor, post: Editor)
        requires
            pre.wf(),
            pre.count() > 0,
            pre.mode != EditorModes::Insert,
            post.mode != EditorModes::Insert,
            Self::active_closed(pre, post),
        ensures
            post.wf(),
    {
        let index = pre.current_buff_index as int;
        let key = pre.active_key();
        assert forall|i: int| 0 <= i < post.buff_vec@.len() implies #[trigger] post.buff_vec@[i]
            == pre.buff_vec@[if i < index {
            i
        } else {
            i + 1
        }] && post.buff_vec@[i] != key by {
            let j = if i < index {
                i
            } else {
                i + 1
            };
            assert(pre.buff_vec@[j] != pre.buff_vec@[index]);
        }
        assert forall|i: int, j: int| 0 <= i < j < post.buff_vec@.len() implies #[trigger] post.buff_vec@[i]
            < #[trigger] post.buff_vec@[j] by {
            let a = if i < index {
                i
            } else {
                i + 1
            };
            let b = if j < index {
                j
            } else {
                j + 1
            };
            assert(pre.buff_vec@[a] < pre.buff_vec@[b]);
        }
        assert forall|i: int| 0 <= i < post.buff_vec@.len() implies {
            &&& post.buffers@.contains_key(#[trigger] post.buff_vec@[i])
            &&& post.doc(i)@.in_bounds()
            &&& post.doc(i)@.on_char()
        } by {
            let j = if i < index {
                i
            } else {
                i + 1
            };
            assert(pre.buffers@.contains_key(pre.buff_vec@[j]));
            assert(post.doc(i) == pre.doc(j));
            assert(pre.doc(j)@.in_bounds());
        }
        assert forall|k: usize| #[trigger] post.buffers@.contains_key(k) implies post.buff_vec@.contains(k) by {
            assert(pre.buffers@.contains_key(k));
            let j = choose|j: int| 0 <= j < pre.buff_vec@.len() && pre.buff_vec@[j] == k;
            let i = if j < index {
                j
            } else {
                j - 1
            };
            assert(post.buff_vec@[i] == k);
        }
    }

    /// Ends a save: shows the outcome, goes to Normal mode, and closes the
    /// active buffer after a save that succeeded and was part of a quit.
    fn finish_save(&mut self, quit: bool, forced: bool, result: Result<String, FileError>)
        requires
            old(self).wf(),
            old(self).count() > 0,
            old(self).mode != EditorModes::Insert,
        ensures
            final(self).wf(),
            Self::save_ended(*old(self), *final(self), quit, forced, result),
            final(self).terminal.status_line_left == old(self).terminal.status_line_left,
    {
        let ok = result.is_ok();
        if quit && forced && !ok {
            self.terminal.status_line_right = String::from_str("failed");
        }
        self.mode = EditorModes::Normal;
        self.command_mode.handle_file_write_result(result);
        self.show_command_line();
        assert(self.terminal.command_line@ =~= write_result_text(result));
        proof {
            Self::lemma_same_buffers_keep_wf(*old(self), *self);
        }
        if quit && ok {
            self.close_active();
        }
    }

    /// An editor with the buffers, the list and the active place of one
    /// that is in order is in order too, unless it has gone to Insert mode.
    pub proof fn lemma_same_buffers_keep_wf(pre: Editor, post: Editor)
        requires
            pre.wf(),
            pre.mode != EditorModes::Insert || post.mode == EditorModes::Insert,
            post.buff_vec@ == pre.buff_vec@,
            post.buffers@ == pre.buffers@,
            pre.count() > 0 ==> post.current_buff_index < pre.count(),
            post.mode == EditorModes::Insert ==> post.current_buff_index
                == pre.current_buff_index,
        ensures
            post.wf(),
    {
        assert forall|i: int| 0 <= i < post.buff_vec@.len() implies {
            &&& (#[trigger] post.doc(i))@.in_bounds()
            &&& i != post.current_buff_index || post.mode != EditorModes::Insert
                ==> post.doc(i)@.on_char()
        } by {
            assert(post.doc(i) == pre.doc(i));
            assert(pre.doc(i)@.in_bounds());
        }
    }

    /// Begins a save of the active buffer.
    fn begin_save(&mut self, forced: bool, filename: Option<String>, quit: bool) -> (action:
        EditorAction)
        requires
            old(self).wf(),
            old(self).count() > 0,
            old(self).mode != EditorModes::Insert,
        ensures
            final(self).wf(),
            Self::save_begun(*old(self), *final(self), action, quit, forced, text_of(filename)),
            final(self).terminal.status_line_left == old(self).terminal.status_line_left,
    {
        broadcast use vstd::std_specs::hash::group_hash_axioms;

        let key = self.get_buff_key();
        let step = match self.buffers.get(&key) {
            Some(buffer) => buffer.write_buffer_file(forced, filename),
            None => vstd::pervasive::unreached(),
        };
        match step {
            SaveStep::Failed(e) => {
                self.finish_save(quit, forced, Err(e));
                EditorAction::Continue
            },
            SaveStep::Stat(name) => {
                self.show_command_line();
                proof {
                    Self::lemma_same_buffers_keep_wf(*old(self), *self);
                }
                EditorAction::Stat(SaveRequest { name, quit, forced })
            },
            SaveStep::Write(name, text) => {
                self.show_command_line();
                proof {
                    Self::lemma_same_buffers_keep_wf(*old(self), *self);
                }
                EditorAction::Write(SaveRequest { name, quit, forced }, text)
            },
        }
    }

    /// Shows what has been typed of a command.
    fn run_typing(&mut self)
        requires
            old(self).wf(),
        ensures
            final(self).wf(),
            Self::typing_step(*old(self), *final(self), old(self).command_mode.command_string@),
            final(self).terminal.status_line_left == old(self).terminal.status_line_left,
            final(self).command_mode == old(self).command_mode,
    {
        self.show_command_line();
        proof {
            Self::lemma_same_buffers_keep_wf(*old(self), *self);
        }
    }

    /// Leaves Command mode with the command line as it is.
    fn run_escape(&mut self)
        requires
            old(self).wf(),
            old(self).mode != EditorModes::Insert,
        ensures
            final(self).wf(),
            Self::escape_step(*old(self), *final(self), old(self).command_mode.command_string@),
            final(self).terminal.status_line_left == old(self).terminal.status_line_left,
    {
        self.mode = EditorModes::Normal;
        self.show_command_line();
        assert(self.terminal.command_line@ =~= self.command_mode.command_string@);
        proof {
            Self::lemma_same_buffers_keep_wf(*old(self), *self);
        }
    }

    /// `q` and `q!`.
    fn run_quit(&mut self, forced: bool)
        requires
            old(self).wf(),
            old(self).count() > 0,
            old(self).mode != EditorModes::Insert,
        ensures
            final(self).wf(),
            Self::quit_step(*old(self), *final(self), forced),
            final(self).terminal.status_line_left == old(self).terminal.status_line_left,
            final(self).mode != EditorModes::Insert,
    {
        broadcast use vstd::std_specs::hash::group_hash_axioms;

        let key = self.get_buff_key();
        let changed = match self.buffers.get(&key) {
            Some(buffer) => buffer.is_changed,
            None => vstd::pervasive::unreached(),
        };
        if changed && !forced {
            self.command_mode.escape("file  changes use q! to force quit");
            proof {
                Self::lemma_same_buffers_keep_wf(*old(self), *self);
            }
            self.activate_normal_mode();
            let ghost fixed = *self;
            self.show_command_line();
            assert(self.terminal.command_line@ =~= self.command_mode.command_string@);
            proof {
                Self::lemma_same_buffers_keep_wf(fixed, *self);
            }
        } else {
            self.leave_command_mode();
            self.close_active();
        }
    }

    /// Makes the buffer at `place` the active one.
    fn run_switch(&mut self, place: usize)
        requires
            old(self).wf(),
            place < old(self).count(),
            old(self).mode != EditorModes::Insert,
        ensures
            final(self).wf(),
            Self::switch_step(*old(self), *final(self), place as int),
            final(self).terminal.status_line_left == old(self).terminal.status_line_left,
            final(self).mode != EditorModes::Insert,
    {
        self.current_buff_index = place;
        proof {
            Self::lemma_same_buffers_keep_wf(*old(self), *self);
        }
        let ghost chosen = *self;
        self.show_buffer_status();
        proof {
            Self::lemma_same_buffers_keep_wf(chosen, *self);
        }
        self.leave_command_mode();
    }

    /// `b` with the index `n`.
    fn run_select(&mut self, n: usize, now: ModifiedTime)
        requires
            old(self).wf(),
            old(self).count() > 0,
            old(self).mode != EditorModes::Insert,
        ensures
            final(self).wf(),
            Self::select_step(*old(self), *final(self), n, now),
            final(self).terminal.status_line_left == old(self).terminal.status_line_left,
            final(self).mode != EditorModes::Insert,
    {
        broadcast use vstd::std_specs::hash::group_hash_axioms;

        let count = self.buff_vec.len();
        if n < count {
            self.run_switch(n);
            return ;
        }
        if n == count {
            match self.buff_vec[count - 1].checked_add(1) {
                Some(id) => {
                    let buffer = TextBuffer::new(None, now);
                    self.buff_vec.push(id);
                    self.buffers.insert(id, buffer);
                    self.current_buff_index = n;
                    proof {
                        Self::lemma_open_keeps_wf(*old(self), *self, id);
                    }
                    let ghost chosen = *self;
                    self.show_buffer_status();
                    proof {
                        Self::lemma_same_buffers_keep_wf(chosen, *self);
                    }
                    self.leave_command_mode();
                    return ;
                },
                None => {},
            }
        }
        self.show_buffer_status();
        self.command_mode.escape("index not found");
        self.mode = EditorModes::Normal;
        self.show_command_line();
        assert(self.terminal.command_line@ =~= self.command_mode.command_string@);
        proof {
            Self::lemma_same_buffers_keep_wf(*old(self), *self);
        }
    }

    /// Does what a command asks for.
    fn run_command(&mut self, command: CommandReturn, now: ModifiedTime) -> (action: EditorAction)
        requires
            old(self).wf(),
            old(self).count() > 0,
            old(self).mode != EditorModes::Insert,
        ensures
            final(self).wf(),
            Self::command_run(
                *old(self),
                *final(self),
                command@,
                old(self).command_mode.command_string@,
                now,
                action,
            ),
            final(self).terminal.status_line_left == old(self).terminal.status_line_left,
            final(self).mode != EditorModes::Insert,
            command@ is Nothing ==> final(self).command_mode == old(self).command_mode,
    {
        match command {
            CommandReturn::Nothing => {
                self.run_typing();
                EditorAction::Continue
            },
            CommandReturn::Escape => {
                self.run_escape();
                EditorAction::Continue
            },
            CommandReturn::Quit => {
                self.run_quit(false);
                EditorAction::Continue
            },
            CommandReturn::ForceQuit => {
                self.run_quit(true);
                EditorAction::Continue
            },
            CommandReturn::BuffNext => {
                let count = self.buff_vec.len();
                let place = if self.current_buff_index + 1 >= count {
                    0
                } else {
                    self.current_buff_index + 1
                };
                self.run_switch(place);
                EditorAction::Continue
            },
            CommandReturn::BuffPrev => {
                let count = self.buff_vec.len();
                let place = if self.current_buff_index == 0 {
                    count - 1
                } else {
                    self.current_buff_index - 1
                };
                self.run_switch(place);
                EditorAction::Continue
            },
            CommandReturn::BuffN(n) => {
                self.run_select(n, now);
                EditorAction::Continue
            },
            CommandReturn::Save(filename) => self.begin_save(false, filename, false),
            CommandReturn::ForceSave(filename) => self.begin_save(true, filename, false),
            CommandReturn::SaveQuit(filename) => self.begin_save(false, filename, true),
            CommandReturn::ForceSaveQuit(filename) => self.begin_save(true, filename, true),
        }
    }

    /// Takes a key in Command mode.
    fn process_command_mode(&mut self, c: u8, now: ModifiedTime) -> (action: EditorAction)
        requires
            old(self).wf(),
            old(self).count() > 0,
            old(self).mode != EditorModes::Insert,
        ensures
            final(self).wf(),
            Self::command_step(*old(self), *final(self), c, now, action),
            final(self).terminal.status_line_left == old(self).terminal.status_line_left,
            final(self).mode != EditorModes::Insert,
            c == 58 ==> final(self).command_mode == old(self).command_mode && action is Continue,
    {
        let command = self.command_mode.handle_key(c);
        let ghost typed = *self;
        proof {
            Self::lemma_same_buffers_keep_wf(*old(self), typed);
        }
        let action = self.run_command(command, now);
        proof {
            Self::lemma_command_run_from(*old(self), typed, *self, command@, now, action);
        }
        action
    }

    /// What a command does reads nothing of the command line as it was
    /// before the key.
    pub proof fn lemma_command_run_from(
        pre: Editor,
        typed: Editor,
        post: Editor,
        command: Command,
        now: ModifiedTime,
        action: EditorAction,
    )
        requires
            typed == (Editor { command_mode: typed.command_mode, ..pre }),
            Self::command_run(typed, post, command, typed.command_mode.command_string@, now, action),
        ensures
            Self::command_run(pre, post, command, typed.command_mode.command_string@, now, action),
    {
    }

    /// Empties the command line and goes to Normal mode.
    fn leave_command_mode(&mut self)
        requires
            old(self).wf(),
            old(self).mode != EditorModes::Insert,
        ensures
            final(self).wf(),
            final(self).mode == EditorModes::Normal,
            final(self).command_mode.command_string@ == Seq::<char>::empty(),
            final(self).command_mode.command@.len() == 0,
            final(self).command_mode.value == old(self).command_mode.value,
            final(self).terminal.command_line@ == Seq::<char>::empty(),
            *final(self) == (Editor {
                mode: final(self).mode,
                command_mode: final(self).command_mode,
                terminal: Terminal {
                    command_line: final(self).terminal.command_line,
                    ..old(self).terminal
                },
                ..*old(self)
            }),
    {
        proof {
            reveal_strlit("");
        }
        self.command_mode.escape("");
        self.mode = EditorModes::Normal;
        self.show_command_line();
        assert(self.command_mode.command_string@ =~= Seq::<char>::empty());
        assert(self.terminal.command_line@ =~= Seq::<char>::empty());
        proof {
            Self::lemma_same_buffers_keep_wf(*old(self), *self);
        }
    }

    /// An editor that has opened a buffer for no file at the end of its
    /// list, under a number greater than all others, and made it the active
    /// one outside Insert mode, is in order if it was.
    pub proof fn lemma_open_keeps_wf(pre: Editor, post: Editor, id: usize)
        requires
            pre.wf(),
            pre.count() > 0,
            pre.mode != EditorModes::Insert,
            post.mode != EditorModes::Insert,
            id > pre.buff_vec@.last(),
            post.buff_vec@ == pre.buff_vec@.push(id),
            post.buffers@ == pre.buffers@.insert(id, post.buffers@[id]),
            post.buffers@[id]@.on_char(),
            post.buffers@[id]@.in_bounds(),
            post.current_buff_index == pre.count(),
        ensures
            post.wf(),
    {
        let count = pre.count();
        assert forall|i: int| 0 <= i < count implies #[trigger] post.buff_vec@[i] < id
            && post.buff_vec@[i] == pre.buff_vec@[i] by {
            if i < count - 1 {
                assert(pre.buff_vec@[i] < pre.buff_vec@[count - 1]);
            }
        }
        assert forall|i: int, j: int| 0 <= i < j < post.buff_vec@.len() implies #[trigger] post.buff_vec@[i]
            < #[trigger] post.buff_vec@[j] by {
            if j < count {
                assert(pre.buff_vec@[i] < pre.buff_vec@[j]);
            }
        }
        assert forall|i: int| 0 <= i < post.buff_vec@.len() implies {
            &&& post.buffers@.contains_key(#[trigger] post.buff_vec@[i])
            &&& post.doc(i)@.in_bounds()
            &&& post.doc(i)@.on_char()
        } by {
            if i < count {
                assert(pre.buffers@.contains_key(pre.buff_vec@[i]));
                assert(post.doc(i) == pre.doc(i));
                assert(pre.doc(i)@.in_bounds());
            }
        }
        assert forall|k: usize| #[trigger] post.buffers@.contains_key(k) implies post.buff_vec@.contains(k) by {
            if k == id {
                assert(post.buff_vec@[count] == k);
            } else {
                assert(pre.buffers@.contains_key(k));
                let j = choose|j: int| 0 <= j < pre.buff_vec@.len() && pre.buff_vec@[j] == k;
                assert(post.buff_vec@[j] == k);
            }
        }
    }

    /// Changes to `mode`: places the cursor for inserting, or opens the
    /// command line.
    fn change_mode(&mut self, mode: EditorModes, pos: InsertType, now: ModifiedTime)
        requires
            old(self).wf(),
            old(self).count() > 0,
            old(self).mode != EditorModes::Insert,
        ensures
            final(self).wf(),
            final(self).mode == mode,
            final(self).normal_mode == old(self).normal_mode,
            mode != EditorModes::Command ==> final(self).command_mode == old(self).command_mode,
            Self::screen_kept(*old(self), *final(self)),
            final(self).terminal.status_line_right == old(self).terminal.status_line_right,
            final(self).terminal.cursor_type == if mode == EditorModes::Insert {
                CursorType::Ibeam
            } else {
                CursorType::Block
            },
            match mode {
                EditorModes::Insert => {
                    &&& Self::others_kept(*old(self), *final(self))
                    &&& final(self).active()@ == old(self).active()@.insert(pos)
                    &&& final(self).active().is_changed
                    &&& final(self).active().filename == old(self).active().filename
                    &&& final(self).active().modified_time == old(self).active().modified_time
                    &&& final(self).terminal.status_line_left == old(self).terminal.status_line_left
                    &&& final(self).terminal.command_line == old(self).terminal.command_line
                },
                EditorModes::Command => {
                    &&& Self::buffers_kept(*old(self), *final(self))
                    &&& final(self).terminal.status_line_left@ == seq![':']
                    &&& final(self).terminal.command_line@ == seq![':']
                    &&& final(self).command_mode.command_string@ == Seq::<char>::empty()
                    &&& final(self).command_mode.command@.len() == 0
                    &&& final(self).command_mode.value == old(self).command_mode.value
                },
                EditorModes::Normal => {
                    &&& Self::buffers_kept(*old(self), *final(self))
                    &&& final(self).terminal.status_line_left == old(self).terminal.status_line_left
                    &&& final(self).terminal.command_line == old(self).terminal.command_line
                },
            },
    {
        self.mode = mode;
        self.terminal.change_cursor(mode);
        match mode {
            EditorModes::Insert => {
                let ghost before = *self;
                proof {
                    Self::lemma_active_legal(*old(self));
                    assert(before.active() == old(self).active());
                }
                let (key, mut buffer) = self.take_active();
                buffer.insert(pos);
                self.put_active(key, buffer);
                proof {
                    law_insert_keeps_cursor_legal(old(self).active()@, 0, pos);
                    Self::lemma_put_back(*old(self), *self, buffer);
                    Self::lemma_edit_keeps_wf(*old(self), *self);
                }
            },
            EditorModes::Command => {
                proof {
                    reveal_strlit("");
                }
                self.command_mode.escape("");
                assert(self.command_mode.command_string@ =~= Seq::<char>::empty());
                proof {
                    Self::lemma_same_buffers_keep_wf(*old(self), *self);
                }
                let _ = self.process_command_mode(58, now);
                assert(self.terminal.command_line@ =~= seq![':']);
                self.terminal.status_line_left = string_of_char(':');
                proof {
                    Self::lemma_same_buffers_keep_wf(*old(self), *self);
                }
            },
            EditorModes::Normal => {
                proof {
                    Self::lemma_same_buffers_keep_wf(*old(self), *self);
                }
            },
        }
    }

    /// Takes a key in Normal mode.
    fn process_normal_mode(&mut self, c: u8, now: ModifiedTime)
        requires
            old(self).wf(),
            old(self).count() > 0,
            old(self).mode != EditorModes::Insert,
        ensures
            final(self).wf(),
            Self::normal_step(*old(self), *final(self), c),
    {
        let r = self.normal_mode.handle_keypress(c);
        proof {
            Self::lemma_same_buffers_keep_wf(*old(self), *self);
            Self::lemma_active_legal(*old(self));
        }
        let ghost keyed = *self;
        match r {
            Ok(BufferAction::Delete(direction)) => {
                let (key, mut buffer) = self.take_active();
                buffer.delete(direction);
                buffer.fix_cursor_pos_escape_insert();
                self.put_active(key, buffer);
                proof {
                    law_delete_keeps_cursor_legal(old(self).active()@, direction);
                    Self::lemma_put_back(keyed, *self, buffer);
                    Self::lemma_edit_keeps_wf(keyed, *self);
                }
            },
            Ok(BufferAction::Move(direction)) => {
                let (key, mut buffer) = self.take_active();
                buffer.motion(direction);
                self.put_active(key, buffer);
                proof {
                    law_motion_keeps_cursor_legal(old(self).active()@, direction);
                    Self::lemma_put_back(keyed, *self, buffer);
                    Self::lemma_edit_keeps_wf(keyed, *self);
                }
            },
            Ok(BufferAction::ChangeMode(mode, pos)) => self.change_mode(mode, pos, now),
            Ok(BufferAction::Nothing) => (),
            Err(_) => (),
        }
        let ghost acted = *self;
        self.terminal.status_line_right = string_of_char(
            self.normal_mode.pending_operations.motion,
        );
        proof {
            if acted.mode == EditorModes::Insert {
                Self::lemma_shown_keeps_wf(acted, *self);
            } else {
                Self::lemma_same_buffers_keep_wf(acted, *self);
            }
        }
    }

    /// An editor that differs from one in order only in what it shows is in
    /// order too.
    pub proof fn lemma_shown_keeps_wf(pre: Editor, post: Editor)
        requires
            pre.wf(),
            post.buff_vec@ == pre.buff_vec@,
            post.buffers@ == pre.buffers@,
            post.current_buff_index == pre.current_buff_index,
            post.mode == pre.mode,
        ensures
            post.wf(),
    {
        assert forall|i: int| 0 <= i < post.buff_vec@.len() implies {
            &&& (#[trigger] post.doc(i))@.in_bounds()
            &&& i != post.current_buff_index || post.mode != EditorModes::Insert
                ==> post.doc(i)@.on_char()
        } by {
            assert(post.doc(i) == pre.doc(i));
            assert(pre.doc(i)@.in_bounds());
        }
    }

    /// Takes a key in Insert mode.
    fn process_insert_mode(&mut self, c: u8)
        requires
            old(self).wf(),
            old(self).count() > 0,
            old(self).mode == EditorModes::Insert,
        ensures
            final(self).wf(),
            Self::insert_step(*old(self), *final(self), c),
            final(self).terminal.status_line_left == old(self).terminal.status_line_left,
    {
        proof {
            Self::lemma_active_legal(*old(self));
        }
        match InsertAction::handle_key(c) {
            InsertAction::Backspace => {
                let (key, mut buffer) = self.take_active();
                buffer.delete(Motion::BackSpace(1));
                self.put_active(key, buffer);
                proof {
                    law_delete_keeps_cursor_legal(old(self).active()@, Motion::BackSpace(1));
                    Self::lemma_put_back(*old(self), *self, buffer);
                    Self::lemma_edit_keeps_wf(*old(self), *self);
                }
            },
            InsertAction::Escape => self.activate_normal_mode(),
            InsertAction::Newline => {
                let (key, mut buffer) = self.take_active();
                buffer.split_line();
                self.put_active(key, buffer);
                proof {
                    law_insert_keeps_cursor_legal(old(self).active()@, 0, InsertType::Nothing);
                    Self::lemma_put_back(*old(self), *self, buffer);
                    Self::lemma_edit_keeps_wf(*old(self), *self);
                }
            },
            InsertAction::Chars(key_typed) => {
                let (key, mut buffer) = self.take_active();
                buffer.insert_char(key_typed);
                self.put_active(key, buffer);
                proof {
                    law_insert_keeps_cursor_legal(
                        old(self).active()@,
                        key_typed,
                        InsertType::Nothing,
                    );
                    Self::lemma_put_back(*old(self), *self, buffer);
                    Self::lemma_edit_keeps_wf(*old(self), *self);
                }
            },
            InsertAction::Nothing => {
                proof {
                    assert(self.buffers@ =~= self.buffers@.insert(self.active_key(), self.active()));
                }
            },
        }
    }

    /// Takes the key `c`, pressed at the time `now`, and says what the
    /// caller has to do before the next key. An editor without buffers takes
    /// no key.
    pub fn process_keypress(&mut self, c: u8, now: ModifiedTime) -> (action: EditorAction)
        requires
            old(self).wf(),
        ensures
            final(self).wf(),
            old(self).count() == 0 ==> *final(self) == *old(self) && action is Continue,
            old(self).count() > 0 ==> Self::step(*old(self), *final(self), c, now, action),
    {
        if self.buff_vec.len() == 0 {
            return EditorAction::Continue;
        }
        let mode = self.mode;
        let action = match mode {
            EditorModes::Normal => {
                self.process_normal_mode(c, now);
                EditorAction::Continue
            },
            EditorModes::Insert => {
                self.process_insert_mode(c);
                EditorAction::Continue
            },
            EditorModes::Command => self.process_command_mode(c, now),
        };
        let ghost acted = *self;
        self.terminal.status_line_left = match mode {
            EditorModes::Normal => String::from_str(" Normal "),
            EditorModes::Insert => String::from_str(" Insert "),
            EditorModes::Command => String::from_str(" Command "),
        };
        proof {
            Self::lemma_shown_keeps_wf(acted, *self);
            Self::lemma_step_shown(*old(self), acted, *self, c, now, action);
        }
        action
    }

    /// The relations for the three modes read nothing of the left of the
    /// status line.
    pub proof fn lemma_step_shown(
        pre: Editor,
        acted: Editor,
        post: Editor,
        c: u8,
        now: ModifiedTime,
        action: EditorAction,
    )
        requires
            post == (Editor {
                terminal: Terminal {
                    status_line_left: post.terminal.status_line_left,
                    ..acted.terminal
                },
                ..acted
            }),
            match pre.mode {
                EditorModes::Normal => Self::normal_step(pre, acted, c),
                EditorModes::Insert => Self::insert_step(pre, acted, c),
                EditorModes::Command => Self::command_step(pre, acted, c, now, action),
            },
        ensures
            match pre.mode {
                EditorModes::Normal => Self::normal_step(pre, post, c),
                EditorModes::Insert => Self::insert_step(pre, post, c),
                EditorModes::Command => Self::command_step(pre, post, c, now, action),
            },
    {
    }

    /// Goes on with a save for which the caller was asked to look at the
    /// file, once it is known that the file was last modified at `on_disk`.
    /// Nothing happens unless the editor is in Command mode and has a
    /// buffer.
    pub fn save_checked(&mut self, request: SaveRequest, on_disk: ModifiedTime) -> (action:
        EditorAction)
        requires
            old(self).wf(),
        ensures
            final(self).wf(),
            old(self).count() == 0 || old(self).mode != EditorModes::Command ==> *final(self)
                == *old(self) && action is Continue,
            old(self).count() > 0 && old(self).mode == EditorModes::Command ==> Self::checked_step(
                *old(self),
                *final(self),
                request,
                on_disk,
                action,
            ),
    {
        broadcast use vstd::std_specs::hash::group_hash_axioms;

        if self.buff_vec.len() == 0 || self.mode != EditorModes::Command {
            return EditorAction::Continue;
        }
        let key = self.get_buff_key();
        let quit = request.quit;
        let forced = request.forced;
        let changed = match self.buffers.get(&key) {
            Some(buffer) => on_disk.secs != buffer.modified_time.secs || on_disk.nanos
                != buffer.modified_time.nanos,
            None => vstd::pervasive::unreached(),
        };
        if changed {
            self.finish_save(quit, forced, Err(FileError::FileChanged));
            return EditorAction::Continue;
        }
        let text = match self.buffers.get(&key) {
            Some(buffer) => buffer.file_text(),
            None => vstd::pervasive::unreached(),
        };
        EditorAction::Write(request, text)
    }

    /// Ends a save for which the caller was asked to write the file, once
    /// the outcome of the write is known: the failure, or the time at which
    /// the file was last modified after the write. Nothing happens unless
    /// the editor is in Command mode and has a buffer.
    pub fn save_finished(&mut self, request: SaveRequest, outcome: Result<ModifiedTime, AppError>)
        requires
            old(self).wf(),
        ensures
            final(self).wf(),
            old(self).count() == 0 || old(self).mode != EditorModes::Command ==> *final(self)
                == *old(self),
            old(self).count() > 0 && old(self).mode == EditorModes::Command ==> Self::finished_step(
                *old(self),
                *final(self),
                request,
                outcome,
            ),
    {
        if self.buff_vec.len() == 0 || self.mode != EditorModes::Command {
            return ;
        }
        let quit = request.quit;
        let forced = request.forced;
        match outcome {
            Ok(time) => {
                proof {
                    Self::lemma_active_legal(*old(self));
                }
                let (key, mut buffer) = self.take_active();
                let result = buffer.write_finished(request.name, Ok(time));
                self.put_active(key, buffer);
                proof {
                    assert(buffer@ == old(self).active()@);
                    Self::lemma_put_back(*old(self), *self, buffer);
                    Self::lemma_edit_keeps_wf(*old(self), *self);
                }
                let ghost saved = *self;
                self.finish_save(quit, forced, result);
                proof {
                    if !quit {
                        assert(self.buffers@ =~= old(self).buffers@.insert(
                            old(self).active_key(),
                            self.active(),
                        ));
                    } else {
                        assert(self.buffers@ =~= old(self).buffers@.remove(old(self).active_key()));
                    }
                }
            },
            Err(e) => {
                self.finish_save(quit, forced, Err(FileError::OtherError(e)));
            },
        }
    }

    /// Gets the window ready for the next frame, which shows the active
    /// buffer. The answer is whether the frame is the start page. Without a
    /// buffer there is nothing to show, and a screen that is too small to
    /// show a row of the document is refused; the editor then stays as it
    /// is.
    pub fn render_ui(&mut self) -> (r: Result<bool, AppError>)
        requires
            old(self).wf(),
        ensures
            final(self).wf(),
            Self::buffers_kept(*old(self), *final(self)),
            final(self).mode == old(self).mode,
            final(self).normal_mode == old(self).normal_mode,
            final(self).command_mode == old(self).command_mode,
            match r {
                Ok(start_page) => {
                    &&& old(self).count() > 0
                    &&& old(self).terminal.usable()
                    &&& start_page == (old(self).terminal.is_start_first_time && old(self).active().rows@.len() == 0)
                    &&& final(self).terminal.is_start_first_time == start_page
                    &&& final(self).terminal.camera.y == camera_for(
                        old(self).terminal.camera.y as int,
                        old(self).terminal.text_rows(),
                        old(self).active().pos.y as int,
                    )
                    &&& final(self).terminal.shows(old(self).active().pos.y as int)
                    &&& final(self).terminal.cursor.y == old(self).active().pos.y - final(self).terminal.camera.y
                    &&& final(self).terminal.cursor.x == old(self).active().pos.x % old(self).terminal.size.x + old(self).terminal.line_no_digits + gutter_extra()
                    &&& final(self).terminal.line_no_digits == if start_page {
                        old(self).terminal.line_no_digits as nat
                    } else {
                        digits(old(self).active().rows@.len())
                    }
                    &&& final(self).terminal.size == old(self).terminal.size
                    &&& final(self).terminal.status_line_left == old(self).terminal.status_line_left
                    &&& final(self).terminal.command_line == old(self).terminal.command_line
                    &&& final(self).terminal.status_line_right == old(self).terminal.status_line_right
                    &&& final(self).terminal.cursor_type == old(self).terminal.cursor_type
                },
                Err(e) => {
                    &&& *final(self) == *old(self)
                    &&& old(self).count() == 0 || !old(self).terminal.usable()
                    &&& old(self).count() == 0 ==> e is BufferError
                    &&& old(self).count() > 0 ==> e is TermError
                },
            },
    {
        broadcast use vstd::std_specs::hash::group_hash_axioms;

        if self.buff_vec.len() == 0 {
            return Err(AppError::BufferError(String::from_str("render ui")));
        }
        let fits = match self.terminal.line_no_digits.checked_add(2) {
            Some(gutter) => gutter.checked_add(self.terminal.size.x).is_some(),
            None => false,
        };
        if self.terminal.size.x == 0 || self.terminal.size.y <= 2 || !fits {
            return Err(AppError::TermError);
        }
        let key = self.get_buff_key();
        let start_page = match self.buffers.get(&key) {
            Some(buffer) => self.terminal.refresh_screen(buffer, self.mode),
            None => vstd::pervasive::unreached(),
        };
        proof {
            Self::lemma_shown_keeps_wf(*old(self), *self);
        }
        Ok(start_page)
    }
}

} // verus!
