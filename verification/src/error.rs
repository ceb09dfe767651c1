//! The error that every fallible operation of the library returns.

use crate::language::Language;
use vstd::prelude::*;

verus! {

/// What went wrong.
#[derive(Clone, Copy, PartialEq, Eq, Structural, Debug)]
pub enum ErrorKind {
    /// A text named no supported language.
    UnsupportedLanguage,
    /// Neither an override nor a built-in default gave a folder to search for
    /// the language.
    NoFolderConfigured(Language),
    /// The search pattern could not be expanded.
    GlobError,
    /// The search pattern matched no file of the language.
    NoFilesFound(Language),
    /// The chosen file could not be opened.
    FileAccess,
    /// No line of the chosen file survived filtering.
    NoMatchingLines,
    /// There was nothing to choose from.
    Empty,
}

/// An error of the library: its kind, and a message for the user.
#[derive(Debug)]
pub struct LinesError {
    pub kind: ErrorKind,
    pub message: String,
}

impl LinesError {
    /// Whether this error has the kind `kind` and the message `message`.
    pub open spec fn is(self, kind: ErrorKind, message: Seq<char>) -> bool {
        self.kind == kind && self.message@ == message
    }

    /// The text shown to the user for an error with the message `message`.
    pub open spec fn description(message: Seq<char>) -> Seq<char> {
        "There is an error: "@ + message
    }

    /// The text shown to the user for this error.
    pub fn describe(&self) -> (text: String)
        ensures
            text@ == Self::description(self.message@),
    {
        String::from_str("There is an error: ").concat(self.message.as_str())
    }
}

/// Whether `res` is the error of kind `kind` with the message `message`.
pub open spec fn fails_with<T>(
    res: Result<T, LinesError>,
    kind: ErrorKind,
    message: Seq<char>,
) -> bool {
    res matches Err(e) && e.is(kind, message)
}

} // verus!
