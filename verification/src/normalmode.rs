use vstd::prelude::*;
use crate::editor::EditorModes;
use crate::insertmode::InsertType;
use crate::normalmode::motions::{BufferAction, Motion};
use crate::normalmode::operation_pending::PendingOperations;

pub mod motions;
pub mod operation_pending;

verus! {

/// Why a key of Normal mode gave no action.
#[derive(Debug, Clone, Copy, PartialEq, Eq, Structural)]
pub enum NormalKeyError {
    /// The key is a control character.
    InvalidKey,
    /// The command is not complete yet.
    NotMotion,
}

/// Normal mode: the command that is being typed.
#[derive(Debug, Clone, Copy, PartialEq, Eq, Structural)]
pub struct NormalMode {
    pub pending_operations: PendingOperations,
}

/// A count, but at least `least`.
pub open spec fn at_least(least: usize, count: usize) -> usize {
    if count > least {
        count
    } else {
        least
    }
}

/// What the operator `d` does with a motion.
pub open spec fn resolve_delete(motion: char, repeat: usize) -> BufferAction {
    if motion == 'd' {
        BufferAction::Delete(Motion::Down(if repeat > 0 {
            (repeat - 1) as usize
        } else {
            0
        }))
    } else if motion == 'h' {
        BufferAction::Delete(Motion::Left(repeat))
    } else if motion == 'l' {
        BufferAction::Delete(Motion::Right(repeat))
    } else if motion == '0' {
        BufferAction::Delete(Motion::StartOfLine)
    } else if motion == '$' {
        BufferAction::Delete(Motion::EndOfLine(repeat))
    } else if motion == 'G' {
        BufferAction::Delete(Motion::EndOfFile)
    } else if motion == 'w' {
        BufferAction::Delete(Motion::Word(repeat))
    } else if motion == 'W' {
        BufferAction::Delete(Motion::WORD(repeat))
    } else if motion == '{' {
        BufferAction::Delete(Motion::ParagraphStart(repeat))
    } else if motion == '}' {
        BufferAction::Delete(Motion::ParagraphEnd(repeat))
    } else if motion == '^' {
        BufferAction::Delete(Motion::StartOfNonWhiteSpace)
    } else if motion == 'j' {
        BufferAction::Delete(Motion::Down(repeat))
    } else if motion == 'k' {
        BufferAction::Delete(Motion::Up(repeat))
    } else if motion == '\x7F' {
        BufferAction::Delete(Motion::BackSpace(repeat))
    } else {
        BufferAction::Nothing
    }
}

/// What a motion or a command of one key does without an operator.
pub open spec fn resolve_plain(motion: char, repeat: usize) -> BufferAction {
    if motion == 'd' {
        BufferAction::Move(Motion::Down(1))
    } else if motion == 'h' {
        BufferAction::Move(Motion::Left(repeat))
    } else if motion == 'l' {
        BufferAction::Move(Motion::Right(repeat))
    } else if motion == '$' {
        BufferAction::Move(Motion::EndOfLine(repeat))
    } else if motion == 'G' {
        BufferAction::Move(Motion::EndOfFile)
    } else if motion == 'w' {
        BufferAction::Move(Motion::Word(repeat))
    } else if motion == 'W' {
        BufferAction::Move(Motion::WORD(repeat))
    } else if motion == '{' {
        BufferAction::Move(Motion::ParagraphStart(repeat))
    } else if motion == '}' {
        BufferAction::Move(Motion::ParagraphEnd(repeat))
    } else if motion == '^' {
        BufferAction::Move(Motion::StartOfNonWhiteSpace)
    } else if motion == 'j' {
        BufferAction::Move(Motion::Down(repeat))
    } else if motion == 'k' {
        BufferAction::Move(Motion::Up(repeat))
    } else if motion == '0' {
        BufferAction::Move(Motion::StartOfLine)
    } else if motion == 'x' {
        BufferAction::Delete(Motion::Right(1))
    } else if motion == '\x7F' {
        BufferAction::Delete(Motion::BackSpace(repeat))
    } else if motion == 'i' {
        BufferAction::ChangeMode(EditorModes::Insert, InsertType::Nothing)
    } else if motion == ':' {
        BufferAction::ChangeMode(EditorModes::Command, InsertType::Nothing)
    } else if motion == 'a' {
        BufferAction::ChangeMode(EditorModes::Insert, InsertType::Append)
    } else if motion == 'A' {
        BufferAction::ChangeMode(EditorModes::Insert, InsertType::AppendEnd)
    } else if motion == 'I' {
        BufferAction::ChangeMode(EditorModes::Insert, InsertType::InsertStart)
    } else if motion == 'o' {
        BufferAction::ChangeMode(EditorModes::Insert, InsertType::Next)
    } else if motion == 'O' {
        BufferAction::ChangeMode(EditorModes::Insert, InsertType::Prev)
    } else {
        BufferAction::Nothing
    }
}

/// The one action that a complete command stands for. With the operator `d`
/// a motion names what to delete; with the operator `g` the motion `g` goes
/// to the line that the count names, counted from 1; without an operator a
/// motion moves and a command of one key does what it says. Every other
/// pair does nothing.
pub open spec fn resolve(action: char, motion: char, repeat: usize) -> BufferAction {
    if action == '\0' {
        resolve_plain(motion, repeat)
    } else if action == 'd' {
        resolve_delete(motion, repeat)
    } else if action == 'g' && motion == 'g' {
        BufferAction::Move(Motion::GoToLine(if repeat > 0 {
            (repeat - 1) as usize
        } else {
            0
        }))
    } else {
        BufferAction::Nothing
    }
}

impl NormalMode {
    /// What the keys typed so far, and then `c`, come to: the command with
    /// `c` taken in, and the action if that completes it.
    pub open spec fn after_key(self, c: u8) -> (NormalMode, Result<BufferAction, NormalKeyError>) {
        let pending = self.pending_operations.with_key(c as char);
        if c < 32 {
            (self, Err(NormalKeyError::InvalidKey))
        } else if pending.motion != '\0' {
            (
                NormalMode { pending_operations: PendingOperations::empty() },
                Ok(resolve(pending.action, pending.motion, at_least(1, pending.repeat))),
            )
        } else {
            (NormalMode { pending_operations: pending }, Err(NormalKeyError::NotMotion))
        }
    }

    /// Normal mode with no command begun.
    pub fn new() -> (mode: NormalMode)
        ensures
            mode.pending_operations == PendingOperations::empty(),
    {
        let pending_operations = PendingOperations::new();
        Self { pending_operations }
    }

    /// Takes the key `c`. A control character is refused and changes
    /// nothing. Any other key goes into the command that is being typed; if
    /// that gives the command its motion, the command is resolved into its
    /// action, with a count of at least 1, and forgotten; if not, the answer
    /// is `NotMotion` and the command stays as far as it has come.
    pub fn handle_keypress(&mut self, c: u8) -> (r: Result<BufferAction, NormalKeyError>)
        ensures
            (*final(self), r) == old(self).after_key(c),
    {
        if c < 32 {
            return Err(NormalKeyError::InvalidKey);
        }
        self.pending_operations.insert_key(c as char);
        let motion_given = self.pending_operations.is_motion_given();
        if motion_given {
            let repeat = if self.pending_operations.repeat > 1 {
                self.pending_operations.repeat
            } else {
                1
            };
            let action = self.handle_operation(repeat);
            self.pending_operations.reset();
            return Ok(action);
        }
        Err(NormalKeyError::NotMotion)
    }

    /// The action that the operator and the motion held stand for, with the
    /// count `repeat`.
    pub fn handle_operation(&self, repeat: usize) -> (action: BufferAction)
        ensures
            action == resolve(
                self.pending_operations.action,
                self.pending_operations.motion,
                repeat,
            ),
    {
        if self.pending_operations.is_action_given() {
            match self.pending_operations.action {
                'd' => match self.pending_operations.motion {
                    'd' => BufferAction::Delete(Motion::Down(repeat.saturating_sub(1))),
                    'h' => BufferAction::Delete(Motion::Left(repeat)),
                    'l' => BufferAction::Delete(Motion::Right(repeat)),
                    '0' => BufferAction::Delete(Motion::StartOfLine),
                    '$' => BufferAction::Delete(Motion::EndOfLine(repeat)),
                    'G' => BufferAction::Delete(Motion::EndOfFile),
                    'w' => BufferAction::Delete(Motion::Word(repeat)),
                    'W' => BufferAction::Delete(Motion::WORD(repeat)),
                    '{' => BufferAction::Delete(Motion::ParagraphStart(repeat)),
                    '}' => BufferAction::Delete(Motion::ParagraphEnd(repeat)),
                    '^' => BufferAction::Delete(Motion::StartOfNonWhiteSpace),
                    'j' => BufferAction::Delete(Motion::Down(repeat)),
                    'k' => BufferAction::Delete(Motion::Up(repeat)),
                    '\x7F' => BufferAction::Delete(Motion::BackSpace(repeat)),
                    _ => BufferAction::Nothing,
                },
                'g' => match self.pending_operations.motion {
                    'g' => BufferAction::Move(Motion::GoToLine(repeat.saturating_sub(1))),
                    _ => BufferAction::Nothing,
                },
                _ => BufferAction::Nothing,
            }
        } else {
            match self.pending_operations.motion {
                'd' => BufferAction::Move(Motion::Down(1)),
                'h' => BufferAction::Move(Motion::Left(repeat)),
                'l' => BufferAction::Move(Motion::Right(repeat)),
                '$' => BufferAction::Move(Motion::EndOfLine(repeat)),
                'G' => BufferAction::Move(Motion::EndOfFile),
                'w' => BufferAction::Move(Motion::Word(repeat)),
                'W' => BufferAction::Move(Motion::WORD(repeat)),
                '{' => BufferAction::Move(Motion::ParagraphStart(repeat)),
                '}' => BufferAction::Move(Motion::ParagraphEnd(repeat)),
                '^' => BufferAction::Move(Motion::StartOfNonWhiteSpace),
                'j' => BufferAction::Move(Motion::Down(repeat)),
                'k' => BufferAction::Move(Motion::Up(repeat)),
                '0' => BufferAction::Move(Motion::StartOfLine),
                'x' => BufferAction::Delete(Motion::Right(1)),
                '\x7F' => BufferAction::Delete(Motion::BackSpace(repeat)),
                'i' => BufferAction::ChangeMode(EditorModes::Insert, InsertType::Nothing),
                ':' => BufferAction::ChangeMode(EditorModes::Command, InsertType::Nothing),
                'a' => BufferAction::ChangeMode(EditorModes::Insert, InsertType::Append),
                'A' => BufferAction::ChangeMode(EditorModes::Insert, InsertType::AppendEnd),
                'I' => BufferAction::ChangeMode(EditorModes::Insert, InsertType::InsertStart),
                'o' => BufferAction::ChangeMode(EditorModes::Insert, InsertType::Next),
                'O' => BufferAction::ChangeMode(EditorModes::Insert, InsertType::Prev),
                _ => BufferAction::Nothing,
            }
        }
    }
}

/// A command is held for exactly as long as it is incomplete: whatever key
/// comes, either the answer is an action and nothing is held afterwards, or
/// there is no action and no motion is held.
pub proof fn law_resolution_clears_command(mode: NormalMode, c: u8)
    requires
        mode.pending_operations.motion == '\0',
    ensures
        mode.after_key(c).1 is Ok ==> mode.after_key(c).0.pending_operations
            == PendingOperations::empty(),
        mode.after_key(c).1 is Err ==> mode.after_key(c).0.pending_operations.motion == '\0',
{
}

} // verus!
