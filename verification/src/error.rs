use vstd::prelude::*;

verus! {

/// `std::io::Error`: what a failed read or write reports. The type is only
/// declared: nothing inside a value of it is looked at, it is handed on.
#[verifier::external_type_specification]
#[verifier::external_body]
pub struct ExIoError(std::io::Error);

/// `std::num::ParseIntError`: what a failed conversion of text to an integer
/// reports. The type is only declared: nothing inside a value of it is
/// looked at, it is handed on.
#[verifier::external_type_specification]
#[verifier::external_body]
pub struct ExParseIntError(std::num::ParseIntError);

/// What can go wrong in the editor as a whole.
#[derive(Debug)]
pub enum AppError {
    TermError,
    BufferError(String),
    Io(std::io::Error),
    FileWriteError,
    ParseIntError(std::num::ParseIntError),
}

/// Why a buffer was not saved.
#[derive(Debug)]
pub enum FileError {
    /// The buffer has no file name and none was given.
    EmptyFileName,
    /// The file was modified by someone else since it was loaded or saved.
    FileChanged,
    /// Writing failed.
    OtherError(AppError),
}

/// The text that a `std::io::Error` shows of itself, through `to_string`. It
/// comes from the operating system, so nothing is assumed of it.
#[verifier::external_body]
fn io_error_text(e: &std::io::Error) -> (text: String) {
    e.to_string()
}

/// The text that a `std::num::ParseIntError` shows of itself, through
/// `to_string`. Nothing is assumed of it.
#[verifier::external_body]
fn parse_error_text(e: &std::num::ParseIntError) -> (text: String) {
    e.to_string()
}

impl FileError {
    /// The text of the message, a constant for each kind.
    pub open spec fn message_text(&self) -> Seq<char> {
        match self {
            FileError::EmptyFileName => "No filename"@,
            FileError::OtherError(_) => "other error"@,
            FileError::FileChanged => "file changed"@,
        }
    }

    /// A short message that names the kind of error.
    pub fn message(&self) -> (text: String)
        ensures
            text@ == self.message_text(),
    {
        match self {
            FileError::EmptyFileName => String::from_str("No filename"),
            FileError::OtherError(_) => String::from_str("other error"),
            FileError::FileChanged => String::from_str("file changed"),
        }
    }
}

impl AppError {
    /// How the message begins. For `TermError` and `FileWriteError` this is
    /// the whole message.
    pub open spec fn message_head(&self) -> Seq<char> {
        match self {
            AppError::TermError => "Terminal error"@,
            AppError::BufferError(_) => "Error opening buffer "@,
            AppError::Io(_) => "I/O error: "@,
            AppError::ParseIntError(_) => "I/O error: "@,
            AppError::FileWriteError => "File write error: "@,
        }
    }

    /// A message that names the kind of error and ends with what the error
    /// holds: the text of a `BufferError`, or what an outside error shows of
    /// itself.
    pub fn message(&self) -> (text: String)
        ensures
            text@.len() >= self.message_head().len(),
            text@.subrange(0, self.message_head().len() as int) == self.message_head(),
            self is TermError || self is FileWriteError ==> text@ == self.message_head(),
            self matches AppError::BufferError(e) ==> text@ == self.message_head() + e@,
    {
        match self {
            AppError::TermError => String::from_str("Terminal error"),
            AppError::BufferError(e) => {
                let mut text = String::from_str("Error opening buffer ");
                text.append(e.as_str());
                assert(text@.subrange(0, self.message_head().len() as int) =~= self.message_head());
                text
            },
            AppError::Io(e) => {
                let mut text = String::from_str("I/O error: ");
                let tail = io_error_text(e);
                text.append(tail.as_str());
                assert(text@.subrange(0, self.message_head().len() as int) =~= self.message_head());
                text
            },
            AppError::ParseIntError(e) => {
                let mut text = String::from_str("I/O error: ");
                let tail = parse_error_text(e);
                text.append(tail.as_str());
                assert(text@.subrange(0, self.message_head().len() as int) =~= self.message_head());
                text
            },
            AppError::FileWriteError => String::from_str("File write error: "),
        }
    }
}

impl From<std::io::Error> for AppError {
    fn from(err: std::io::Error) -> (e: AppError) {
        AppError::Io(err)
    }
}

impl vstd::std_specs::convert::FromSpecImpl<std::io::Error> for AppError {
    open spec fn obeys_from_spec() -> bool {
        true
    }

    open spec fn from_spec(err: std::io::Error) -> AppError {
        AppError::Io(err)
    }
}

impl From<std::num::ParseIntError> for AppError {
    fn from(err: std::num::ParseIntError) -> (e: AppError) {
        AppError::ParseIntError(err)
    }
}

impl vstd::std_specs::convert::FromSpecImpl<std::num::ParseIntError> for AppError {
    open spec fn obeys_from_spec() -> bool {
        true
    }

    open spec fn from_spec(err: std::num::ParseIntError) -> AppError {
        AppError::ParseIntError(err)
    }
}

} // verus!
