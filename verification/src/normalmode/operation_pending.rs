use vstd::prelude::*;

verus! {

/// A command of Normal mode while it is being typed: a count, an operator and
/// a motion. The character with code 0 stands for a slot that is not filled.
/// The slot `modifier` is kept for callers; no key fills it.
#[derive(Debug, Clone, Copy, PartialEq, Eq, Structural)]
pub struct PendingOperations {
    pub repeat: usize,
    pub action: char,
    pub modifier: char,
    pub motion: char,
}

/// The keys that are operators.
pub open spec fn is_action_key(key: char) -> bool {
    key == 'd' || key == 'f' || key == 'g'
}

/// The keys that are motions or commands of one key.
pub open spec fn is_motion_key(key: char) -> bool {
    ||| key == 'h'
    ||| key == 'j'
    ||| key == 'k'
    ||| key == 'l'
    ||| key == 'x'
    ||| key == 'd'
    ||| key == 'g'
    ||| key == 'G'
    ||| key == 'a'
    ||| key == 'i'
    ||| key == 'A'
    ||| key == 'o'
    ||| key == 'O'
    ||| key == 'H'
    ||| key == 'M'
    ||| key == 'L'
    ||| key == 'w'
    ||| key == 'W'
    ||| key == 'e'
    ||| key == '{'
    ||| key == '}'
    ||| key == ':'
    ||| key == 'y'
    ||| key == '^'
    ||| key == '$'
    ||| key == '0'
    ||| key == '\x7F'
}

/// The value of a decimal digit; `None` for any other character.
pub open spec fn digit_value(key: char) -> Option<int> {
    if '0' <= key <= '9' {
        Some(key as int - '0' as int)
    } else {
        None
    }
}

/// The count `repeat` with the digit `digit` written behind it, or the
/// greatest count that the machine holds if that would be more.
pub open spec fn with_digit(repeat: usize, digit: int) -> usize {
    if repeat * 10 + digit > usize::MAX {
        usize::MAX
    } else {
        (repeat * 10 + digit) as usize
    }
}

/// Whether `key` is an operator.
pub fn action_key(key: char) -> (r: bool)
    ensures
        r == is_action_key(key),
{
    key == 'd' || key == 'f' || key == 'g'
}

/// Whether `key` is a motion or a command of one key.
pub fn motion_key(key: char) -> (r: bool)
    ensures
        r == is_motion_key(key),
{
    match key {
        'h' | 'j' | 'k' | 'l' | 'x' | 'd' | 'g' | 'G' | 'a' | 'i' | 'A' | 'o' | 'O' | 'H' | 'M' | 'L' | 'w' | 'W' | 'e' | '{' | '}' | ':' | 'y' | '^' | '$' | '0' | '\x7F' => true,
        _ => false,
    }
}

/// The value of `key` as a decimal digit.
pub fn digit_of(key: char) -> (r: Option<usize>)
    ensures
        match r {
            Some(d) => digit_value(key) == Some(d as int),
            None => digit_value(key) is None,
        },
{
    match key {
        '0' => Some(0),
        '1' => Some(1),
        '2' => Some(2),
        '3' => Some(3),
        '4' => Some(4),
        '5' => Some(5),
        '6' => Some(6),
        '7' => Some(7),
        '8' => Some(8),
        '9' => Some(9),
        _ => None,
    }
}

impl PendingOperations {
    /// The command of which nothing has been typed.
    pub open spec fn empty() -> PendingOperations {
        PendingOperations { repeat: 0, action: '\0', modifier: '\0', motion: '\0' }
    }

    /// The command after one more key. A digit lengthens the count, but a
    /// `0` before any other digit is the motion `0`. Else the key becomes the
    /// operator if it is one and none is held; else it becomes the motion if
    /// it is one and none is held; else it is dropped.
    pub open spec fn with_key(self, key: char) -> PendingOperations {
        if digit_value(key) is Some && !(key == '0' && self.repeat == 0) {
            PendingOperations { repeat: with_digit(self.repeat, digit_value(key)->0), ..self }
        } else if self.action == '\0' && is_action_key(key) {
            PendingOperations { action: key, ..self }
        } else if self.motion == '\0' && is_motion_key(key) {
            PendingOperations { motion: key, ..self }
        } else {
            self
        }
    }

    /// The command after a list of keys, the first of the list first.
    pub open spec fn with_keys(self, keys: Seq<char>) -> PendingOperations
        decreases keys.len(),
    {
        if keys.len() == 0 {
            self
        } else {
            self.with_keys(keys.drop_last()).with_key(keys.last())
        }
    }

    /// A command of which nothing has been typed.
    pub fn new() -> (p: PendingOperations)
        ensures
            p == Self::empty(),
    {
        PendingOperations { repeat: 0, action: '\0', modifier: '\0', motion: '\0' }
    }

    /// Forgets what has been typed.
    pub fn reset(&mut self)
        ensures
            *final(self) == Self::empty(),
    {
        self.repeat = 0;
        self.action = '\0';
        self.modifier = '\0';
        self.motion = '\0';
    }

    /// Whether an operator is held.
    pub fn is_action_given(&self) -> (r: bool)
        ensures
            r == (self.action != '\0'),
    {
        self.action != '\0'
    }

    /// Whether the slot `modifier` is filled.
    pub fn is_modifier_given(&self) -> (r: bool)
        ensures
            r == (self.modifier != '\0'),
    {
        self.modifier != '\0'
    }

    /// Whether a motion is held.
    pub fn is_motion_given(&self) -> (r: bool)
        ensures
            r == (self.motion != '\0'),
    {
        self.motion != '\0'
    }

    /// Takes one more key into the command.
    pub fn insert_key(&mut self, key: char)
        ensures
            *final(self) == old(self).with_key(key),
    {
        let digit = digit_of(key);
        match digit {
            Some(d) => {
                if !(key == '0' && self.repeat == 0) {
                    self.repeat = match self.repeat.checked_mul(10) {
                        Some(tens) => tens.saturating_add(d),
                        None => usize::MAX,
                    };
                    return ;
                }
            },
            None => {},
        }
        if !self.is_action_given() && action_key(key) {
            self.action = key;
        } else if !self.is_motion_given() && motion_key(key) {
            self.motion = key;
        }
    }
}

} // verus!
