use vstd::prelude::*;

verus! {

/// What a key pressed in Insert mode asks for.
#[derive(Debug, Clone, Copy, PartialEq, Eq, Structural)]
pub enum InsertAction {
    Backspace,
    Newline,
    Escape,
    Nothing,
    Chars(u8),
}

/// Where the cursor is placed when Insert mode is entered from Normal mode.
#[derive(Debug, Clone, Copy, PartialEq, Eq, Structural)]
pub enum InsertType {
    Nothing,
    Append,
    InsertStart,
    AppendEnd,
    Next,
    Prev,
}

impl InsertAction {
    /// The action that key `c` stands for in Insert mode.
    pub open spec fn of_key(c: u8) -> InsertAction {
        if c == 27 {
            InsertAction::Escape
        } else if c == 127 {
            InsertAction::Backspace
        } else if c == 13 {
            InsertAction::Newline
        } else if c == 9 || c > 32 {
            InsertAction::Chars(c)
        } else {
            InsertAction::Nothing
        }
    }

    /// Classifies one key byte typed in Insert mode: Escape, Backspace and
    /// Enter are commands, a tab and every byte above the space are text,
    /// anything else (the space included) is dropped.
    pub fn handle_key(c: u8) -> (action: InsertAction)
        ensures
            action == Self::of_key(c),
    {
        match c {
            27 => InsertAction::Escape,
            127 => InsertAction::Backspace,
            13 => InsertAction::Newline,
            9 => InsertAction::Chars(c),
            c if c > 32 => InsertAction::Chars(c),
            _ => InsertAction::Nothing,
        }
    }
}

} // verus!
