use vstd::prelude::*;
use crate::editor::EditorModes;
use crate::insertmode::InsertType;

verus! {

/// A request to move the cursor. The same requests name the text that a
/// deletion removes. Counts say how many times the motion is repeated;
/// `GoToLine` holds a row counted from 0.
#[derive(Debug, Clone, Copy, PartialEq, Eq, Structural)]
pub enum Motion {
    Left(usize),
    Right(usize),
    Up(usize),
    Down(usize),
    EndOfLine(usize),
    EndOfFile,
    GoToLine(usize),
    BackSpace(usize),
    StartOfLine,
    StartOfNonWhiteSpace,
    Word(usize),
    ParagraphEnd(usize),
    ParagraphStart(usize),
    WORD(usize),
}

/// What a completed Normal-mode command asks of the editor.
#[derive(Debug, Clone, Copy, PartialEq, Eq, Structural)]
pub enum BufferAction {
    Delete(Motion),
    ChangeMode(EditorModes, InsertType),
    Nothing,
    Move(Motion),
}

} // verus!
