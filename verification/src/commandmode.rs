use vstd::prelude::*;
use crate::error::FileError;
use crate::normalmode::operation_pending::digit_of;
use crate::text::{char_count, chars_of, slice_chars, text_of, unicode_whitespace};
use crate::utils::{first_at_or_after, lemma_first_is};

verus! {

/// The command line while it is being typed. `command_string` is what the
/// line shows: the keys typed so far, or a message. `command` and `value`
/// are the two words that the last Enter found.
#[derive(Debug)]
pub struct CommandMode {
    pub command_string: String,
    pub command: String,
    pub value: Option<String>,
}

/// What a key of Command mode asks of the editor.
#[derive(Debug, PartialEq, Eq)]
pub enum CommandReturn {
    BuffNext,
    BuffPrev,
    Escape,
    SaveQuit(Option<String>),
    BuffN(usize),
    ForceSaveQuit(Option<String>),
    Save(Option<String>),
    Quit,
    ForceQuit,
    ForceSave(Option<String>),
    Nothing,
}

/// A `CommandReturn` with texts in place of strings.
pub enum Command {
    BuffNext,
    BuffPrev,
    Escape,
    SaveQuit(Option<Seq<char>>),
    BuffN(usize),
    ForceSaveQuit(Option<Seq<char>>),
    Save(Option<Seq<char>>),
    Quit,
    ForceQuit,
    ForceSave(Option<Seq<char>>),
    Nothing,
}

impl View for CommandReturn {
    type V = Command;

    open spec fn view(&self) -> Command {
        match *self {
            CommandReturn::BuffNext => Command::BuffNext,
            CommandReturn::BuffPrev => Command::BuffPrev,
            CommandReturn::Escape => Command::Escape,
            CommandReturn::SaveQuit(v) => Command::SaveQuit(text_of(v)),
            CommandReturn::BuffN(n) => Command::BuffN(n),
            CommandReturn::ForceSaveQuit(v) => Command::ForceSaveQuit(text_of(v)),
            CommandReturn::Save(v) => Command::Save(text_of(v)),
            CommandReturn::Quit => Command::Quit,
            CommandReturn::ForceQuit => Command::ForceQuit,
            CommandReturn::ForceSave(v) => Command::ForceSave(text_of(v)),
            CommandReturn::Nothing => Command::Nothing,
        }
    }
}

/// Where the next word begins: the first index from `from` on that is not
/// blank, or the length.
pub open spec fn word_start(blank: Seq<bool>, from: int) -> int {
    first_at_or_after(|i: int| !blank[i], from, blank.len() as int)
}

/// Where a word ends: the first index from `from` on that is blank, or the
/// length.
pub open spec fn word_end(blank: Seq<bool>, from: int) -> int {
    first_at_or_after(|i: int| blank[i], from, blank.len() as int)
}

/// For each character of a text, whether it is white space.
pub open spec fn blanks_in(text: Seq<char>) -> Seq<bool> {
    Seq::new(text.len(), |i: int| unicode_whitespace(text[i]))
}

/// The first word of a text: its first run of characters that are no white
/// space. Empty if there is none.
pub open spec fn first_word(text: Seq<char>) -> Seq<char> {
    let blank = blanks_in(text);
    let start = word_start(blank, 0);
    text.subrange(start, word_end(blank, start))
}

/// The second word of a text, if it has two.
pub open spec fn second_word(text: Seq<char>) -> Option<Seq<char>> {
    let blank = blanks_in(text);
    let start = word_start(blank, word_end(blank, word_start(blank, 0)));
    if start < text.len() {
        Some(text.subrange(start, word_end(blank, start)))
    } else {
        None
    }
}

/// The number that a run of decimal digits writes.
pub open spec fn decimal(digits: Seq<char>) -> int
    decreases digits.len(),
{
    if digits.len() == 0 {
        0
    } else {
        decimal(digits.drop_last()) * 10 + (digits.last() as int - '0' as int)
    }
}

/// Every character is a decimal digit.
pub open spec fn all_digits(text: Seq<char>) -> bool {
    forall|i: int| 0 <= i < text.len() ==> '0' <= #[trigger] text[i] <= '9'
}

/// The index that a text writes: the text is one or more decimal digits and
/// their number is one that the machine holds.
pub open spec fn index_in(text: Seq<char>) -> Option<usize> {
    if text.len() > 0 && all_digits(text) && decimal(text) <= usize::MAX {
        Some(decimal(text) as usize)
    } else {
        None
    }
}

/// What a command beginning with `b` asks for: `bn` and `bp` the next and
/// the previous buffer, `b` and an index the buffer at that place.
pub open spec fn buffer_command_of(rest: Seq<char>) -> Command {
    match index_in(rest) {
        Some(n) => Command::BuffN(n),
        None => if rest == seq!['n'] {
            Command::BuffNext
        } else if rest == seq!['p'] {
            Command::BuffPrev
        } else {
            Command::Escape
        },
    }
}

/// What the command word `command` asks for, with the file name `value` if
/// one was given. `Escape` stands for a word that is no command.
pub open spec fn command_of(command: Seq<char>, value: Option<Seq<char>>) -> Command {
    if command.len() > 0 && command[0] == 'b' {
        buffer_command_of(command.subrange(1, command.len() as int))
    } else if command == seq!['w'] {
        Command::Save(value)
    } else if command == seq!['w', '!'] {
        Command::ForceSave(value)
    } else if command == seq!['q', '!'] {
        Command::ForceQuit
    } else if command == seq!['q'] {
        Command::Quit
    } else if command == seq!['w', 'q'] {
        Command::SaveQuit(value)
    } else if command == seq!['w', 'q', '!'] {
        Command::ForceSaveQuit(value)
    } else {
        Command::Escape
    }
}

/// What the key `c` asks of the editor, typed on a command line that shows
/// `text`.
pub open spec fn key_result(text: Seq<char>, c: u8) -> Command {
    if c == 27 {
        Command::Escape
    } else if c == 13 {
        command_of(first_word(text), second_word(text))
    } else if c == 127 && text.len() <= 1 {
        Command::Escape
    } else {
        Command::Nothing
    }
}

/// What the command line shows after the key `c`, if it showed `text`
/// before.
pub open spec fn key_text(text: Seq<char>, c: u8) -> Seq<char> {
    if c == 27 {
        Seq::empty()
    } else if c == 13 {
        if command_of(first_word(text), second_word(text)) is Escape {
            invalid_command_text()
        } else {
            text
        }
    } else if c == 127 {
        if text.len() > 0 {
            text.drop_last()
        } else {
            text
        }
    } else if c >= 32 && c != 58 {
        text.push(c as char)
    } else {
        text
    }
}

/// The message that the command line shows for a word that is no command.
pub open spec fn invalid_command_text() -> Seq<char> {
    "invalid command"@
}

/// The message that the command line shows when a save has ended.
pub open spec fn write_result_text(result: Result<String, FileError>) -> Seq<char> {
    match result {
        Ok(filename) => "saved file "@ + filename@,
        Err(FileError::EmptyFileName) => "Empty file name"@,
        Err(FileError::OtherError(_)) => Seq::<char>::empty(),
        Err(FileError::FileChanged) => "file changed use w! to overwrite "@,
    }
}

/// A prefix of a run of digits writes no greater a number than the run.
pub proof fn lemma_decimal_grows(digits: Seq<char>, n: int)
    requires
        all_digits(digits),
        0 <= n <= digits.len(),
    ensures
        0 <= decimal(digits.take(n)) <= decimal(digits),
    decreases digits.len() - n,
{
    if n == digits.len() {
        assert(digits.take(n) =~= digits);
        lemma_decimal_nonnegative(digits);
    } else {
        lemma_decimal_grows(digits, n + 1);
        let longer = digits.take(n + 1);
        assert(longer.drop_last() =~= digits.take(n));
        assert(longer.last() == digits[n]);
        lemma_decimal_nonnegative(digits.take(n));
    }
}

/// A run of digits writes a number that is not negative.
pub proof fn lemma_decimal_nonnegative(digits: Seq<char>)
    requires
        all_digits(digits),
    ensures
        0 <= decimal(digits),
    decreases digits.len(),
{
    if digits.len() > 0 {
        lemma_decimal_nonnegative(digits.drop_last());
    }
}

/// The bounds of the word that begins at or after `from`, in a text of which
/// it is known where the white space is: where the word begins (the length
/// if there is none) and where it ends.
pub fn word_bounds(blank: &Vec<bool>, from: usize) -> (r: (usize, usize))
    requires
        from <= blank.len(),
    ensures
        r.0 == word_start(blank@, from as int),
        r.1 == word_end(blank@, r.0 as int),
        from <= r.0 <= r.1 <= blank.len(),
{
    let n = blank.len();
    let ghost is_word = |i: int| !blank@[i];
    let ghost is_blank = |i: int| blank@[i];
    let mut start = from;
    while start < n && blank[start]
        invariant
            from <= start <= n,
            n == blank.len(),
            is_word == (|i: int| !blank@[i]),
            forall|k: int| from <= k < start ==> !#[trigger] is_word(k),
        decreases n - start,
    {
        assert(!is_word(start as int));
        start += 1;
    }
    proof {
        if start < n {
            assert(is_word(start as int));
        }
        lemma_first_is(is_word, from as int, n as int, start as int);
    }
    let mut end = start;
    while end < n && !blank[end]
        invariant
            start <= end <= n,
            n == blank.len(),
            is_blank == (|i: int| blank@[i]),
            forall|k: int| start <= k < end ==> !#[trigger] is_blank(k),
        decreases n - end,
    {
        assert(!is_blank(end as int));
        end += 1;
    }
    proof {
        if end < n {
            assert(is_blank(end as int));
        }
        lemma_first_is(is_blank, start as int, n as int, end as int);
    }
    (start, end)
}

/// Reads an index: one or more decimal digits whose number the machine
/// holds. Anything else is no index.
pub fn parse_index(text: &Vec<char>) -> (r: Option<usize>)
    ensures
        r == index_in(text@),
{
    let n = text.len();
    if n == 0 {
        return None;
    }
    let mut value: usize = 0;
    let mut i: usize = 0;
    while i < n
        invariant
            i <= n,
            n == text.len(),
            all_digits(text@.take(i as int)),
            value == decimal(text@.take(i as int)),
        decreases n - i,
    {
        let ghost before = text@.take(i as int);
        let ghost now = text@.take(i + 1);
        assert(now.drop_last() =~= before);
        assert(now.last() == text@[i as int]);
        let digit = match digit_of(text[i]) {
            Some(d) => d,
            None => {
                assert(!all_digits(text@));
                return None;
            },
        };
        assert(all_digits(now)) by {
            assert forall|k: int| 0 <= k < now.len() implies '0' <= #[trigger] now[k] <= '9' by {
                if k < i {
                    assert(before[k] == now[k]);
                }
            }
        }
        let next = match value.checked_mul(10) {
            Some(tens) => tens.checked_add(digit),
            None => None,
        };
        match next {
            Some(v) => {
                value = v;
            },
            None => {
                proof {
                    assert(decimal(now) > usize::MAX);
                    if all_digits(text@) {
                        lemma_decimal_grows(text@, i + 1);
                    }
                }
                return None;
            },
        }
        i += 1;
    }
    assert(text@.take(n as int) =~= text@);
    Some(value)
}

/// For each character of `chars`, whether it is white space.
pub fn blank_flags(chars: &Vec<char>) -> (blank: Vec<bool>)
    ensures
        blank@ == blanks_in(chars@),
{
    let mut blank: Vec<bool> = Vec::new();
    let mut i: usize = 0;
    while i < chars.len()
        invariant
            i <= chars.len(),
            blank@ == blanks_in(chars@.take(i as int)),
        decreases chars.len() - i,
    {
        blank.push(chars[i].is_whitespace());
        i += 1;
        assert(blank@ =~= blanks_in(chars@.take(i as int)));
    }
    assert(chars@.take(i as int) =~= chars@);
    blank
}

/// A copy of a string that may be missing.
fn copy_value(value: &Option<String>) -> (r: Option<String>)
    ensures
        r == *value,
{
    match value {
        Some(s) => Some(s.clone()),
        None => None,
    }
}

impl CommandMode {
    /// An empty command line.
    pub fn new() -> (mode: CommandMode)
        ensures
            mode.command_string@.len() == 0,
            mode.command@.len() == 0,
            mode.value is None,
    {
        Self { command_string: String::new(), command: String::new(), value: None }
    }

    /// Shows how a save has ended: the name of the file that was written, or
    /// why nothing was written. A failure of the write itself shows
    /// nothing.
    pub fn handle_file_write_result(&mut self, result: Result<String, FileError>)
        ensures
            final(self).command_string@ == write_result_text(result),
            final(self).command@.len() == 0,
            final(self).value == old(self).value,
    {
        self.escape("");
        proof {
            reveal_strlit("");
        }
        match result {
            Ok(filename) => {
                let mut text = String::from_str("saved file ");
                text.append(filename.as_str());
                self.command_string = text;
            },
            Err(e) => self.handle_file_error(e),
        }
    }

    /// Shows why nothing was written. A failure of the write itself leaves
    /// the line as it is.
    fn handle_file_error(&mut self, e: FileError)
        ensures
            final(self).command_string@ == if e is OtherError {
                old(self).command_string@
            } else {
                write_result_text(Err(e))
            },
            final(self).command == old(self).command,
            final(self).value == old(self).value,
    {
        match e {
            FileError::EmptyFileName => {
                self.command_string = String::from_str("Empty file name");
            },
            FileError::OtherError(_) => (),
            FileError::FileChanged => {
                self.command_string = String::from_str("file changed use w! to overwrite ");
            },
        }
    }

    /// The command word that the last Enter found, resolved.
    fn execute(&mut self) -> (r: CommandReturn)
        ensures
            r@ == command_of(old(self).command@, text_of(old(self).value)),
            final(self).command == old(self).command,
            final(self).value == old(self).value,
            final(self).command_string@ == if r@ is Escape {
                invalid_command_text()
            } else {
                old(self).command_string@
            },
    {
        let word = chars_of(self.command.as_str());
        let r = if word.len() > 0 && word[0] == 'b' {
            self.buffer_command()
        } else if word.len() == 1 && word[0] == 'w' {
            assert(word@ =~= seq!['w']);
            CommandReturn::Save(copy_value(&self.value))
        } else if word.len() == 2 && word[0] == 'w' && word[1] == '!' {
            assert(word@ =~= seq!['w', '!']);
            CommandReturn::ForceSave(copy_value(&self.value))
        } else if word.len() == 2 && word[0] == 'q' && word[1] == '!' {
            assert(word@ =~= seq!['q', '!']);
            CommandReturn::ForceQuit
        } else if word.len() == 1 && word[0] == 'q' {
            assert(word@ =~= seq!['q']);
            CommandReturn::Quit
        } else if word.len() == 2 && word[0] == 'w' && word[1] == 'q' {
            assert(word@ =~= seq!['w', 'q']);
            CommandReturn::SaveQuit(copy_value(&self.value))
        } else if word.len() == 3 && word[0] == 'w' && word[1] == 'q' && word[2] == '!' {
            assert(word@ =~= seq!['w', 'q', '!']);
            CommandReturn::ForceSaveQuit(copy_value(&self.value))
        } else {
            CommandReturn::Escape
        };
        if let CommandReturn::Escape = r {
            self.command_string = String::from_str("invalid command");
        }
        r
    }

    /// A command word that begins with `b`, resolved.
    fn buffer_command(&self) -> (r: CommandReturn)
        requires
            self.command@.len() > 0,
        ensures
            r@ == buffer_command_of(self.command@.subrange(1, self.command@.len() as int)),
    {
        let n = char_count(&self.command);
        let rest = chars_of(slice_chars(&self.command, 1, n).as_str());
        match parse_index(&rest) {
            Some(index) => CommandReturn::BuffN(index),
            None => {
                if rest.len() == 1 && rest[0] == 'n' {
                    assert(rest@ =~= seq!['n']);
                    CommandReturn::BuffNext
                } else if rest.len() == 1 && rest[0] == 'p' {
                    assert(rest@ =~= seq!['p']);
                    CommandReturn::BuffPrev
                } else {
                    CommandReturn::Escape
                }
            },
        }
    }

    /// Empties the command line and shows `err` on it.
    pub fn escape(&mut self, err: &str)
        ensures
            final(self).command_string@ == err@,
            final(self).command@.len() == 0,
            final(self).value == old(self).value,
    {
        self.command = String::new();
        self.command_string = String::from_str(err);
    }

    /// Takes the key `c`.
    /// Escape empties the line and leaves Command mode. Enter reads the
    /// line: its first word is the command, its second word, if there is
    /// one, a file name; a word that is no command leaves Command mode with
    /// a message on the line. Backspace takes the last character off the
    /// line, and leaves Command mode if the line is empty then. A colon and
    /// the other control characters do nothing. Every other key goes onto
    /// the end of the line.
    pub fn handle_key(&mut self, c: u8) -> (r: CommandReturn)
        ensures
            r@ == key_result(old(self).command_string@, c),
            final(self).command_string@ == key_text(old(self).command_string@, c),
            c != 13 ==> final(self).value == old(self).value,
            c == 27 ==> r@ is Escape && final(self).command_string@.len() == 0 && final(self).command@.len() == 0 && final(self).value == old(self).value,
            c == 58 || (c < 32 && c != 27 && c != 13) ==> r@ is Nothing && *final(self) == *old(self),
            c == 13 ==> {
                let command = first_word(old(self).command_string@);
                let value = second_word(old(self).command_string@);
                &&& r@ == command_of(command, value)
                &&& final(self).command@ == command
                &&& text_of(final(self).value) == value
                &&& final(self).command_string@ == if r@ is Escape {
                    invalid_command_text()
                } else {
                    old(self).command_string@
                }
            },
            c == 127 ==> {
                let text = old(self).command_string@;
                let left = if text.len() > 0 {
                    text.drop_last()
                } else {
                    text
                };
                &&& final(self).command_string@ == left
                &&& final(self).value == old(self).value
                &&& if left.len() == 0 {
                    r@ is Escape && final(self).command@.len() == 0
                } else {
                    r@ is Nothing && final(self).command == old(self).command
                }
            },
            c >= 32 && c != 58 && c != 127 ==> r@ is Nothing && final(self).command_string@
                == old(self).command_string@.push(c as char) && final(self).command == old(self).command && final(self).value == old(self).value,
    {
        if c == 27 {
            self.escape("");
            proof {
                reveal_strlit("");
            }
            return CommandReturn::Escape;
        }
        if c == 58 {
            return CommandReturn::Nothing;
        }
        if c == 13 {
            let chars = chars_of(self.command_string.as_str());
            let blank = blank_flags(&chars);
            let first = word_bounds(&blank, 0);
            let second = word_bounds(&blank, first.1);
            self.command = slice_chars(&self.command_string, first.0, first.1);
            self.value = if second.0 < chars.len() {
                Some(slice_chars(&self.command_string, second.0, second.1))
            } else {
                None
            };
            return self.execute();
        }
        if c == 127 {
            let n = char_count(&self.command_string);
            if n > 0 {
                self.command_string = slice_chars(&self.command_string, 0, n - 1);
            }
            if n <= 1 {
                self.command = String::new();
                return CommandReturn::Escape;
            }
            return CommandReturn::Nothing;
        }
        if c >= 32 {
            self.command_string.push(c as char);
        }
        CommandReturn::Nothing
    }
}

} // verus!
