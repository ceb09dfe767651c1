//! From a language to the walk over its files.

use crate::error::{fails_with, ErrorKind, LinesError};
use crate::folder::Environment;
use crate::language::Language;
use glob::{glob, Paths, PatternError};
use vstd::prelude::*;

verus! {

/// `glob::Paths`: a walk over the files that match a pattern, not yet begun.
/// Nothing is known of what it will yield.
#[verifier::external_type_specification]
#[verifier::external_body]
pub struct ExPaths(glob::Paths);

/// `glob::PatternError`: why a pattern was refused.
#[verifier::external_type_specification]
#[verifier::external_body]
pub struct ExPatternError(glob::PatternError);

/// `glob::GlobError`: why a match could not be read during the walk. The walk
/// yields it; the library never looks into one.
#[verifier::external_type_specification]
#[verifier::external_body]
pub struct ExGlobError(glob::GlobError);

/// `std::path::PathBuf`: a path that the walk yields; the library never looks
/// into one.
#[verifier::external_type_specification]
#[verifier::external_body]
pub struct ExPathBuf(std::path::PathBuf);

/// Whether `glob` of the crate glob accepts `pattern`. It goes by the text
/// of the pattern alone, read with the path separators of the platform that
/// the library is built for: nothing on disk has a say in it.
pub uninterp spec fn pattern_accepted(pattern: Seq<char>) -> bool;

/// Calls `glob` of the crate glob, which reads the pattern and prepares the
/// walk. Of the file system it asks only whether the place where the walk is
/// to start is a directory, and notes the answer in the walk. Claimed is that
/// the pattern is refused or not by its text, under the name
/// [`pattern_accepted`]; nothing is claimed of the walk.
#[verifier::external_body]
fn expand(pattern: &str) -> (outcome: Result<Paths, PatternError>)
    ensures
        outcome is Ok <==> pattern_accepted(pattern@),
{
    glob(pattern)
}

impl Language {
    /// The message of the error for a language whose files cannot be listed.
    pub open spec fn no_paths_message(self) -> Seq<char> {
        "Error getting file paths for "@ + self.name() + "."@
    }

    /// The error of kind `kind` for a language whose files cannot be listed.
    fn no_paths(&self, kind: ErrorKind) -> (error: LinesError)
        ensures
            error.is(kind, self.no_paths_message()),
    {
        let message = String::from_str("Error getting file paths for ").concat(
            self.display_name(),
        ).concat(".");
        LinesError { kind, message }
    }

    /// What becomes of an expanded pattern: the walk itself where the pattern
    /// was accepted, an error where it was refused.
    pub fn paths_or_error(&self, outcome: Result<Paths, PatternError>) -> (res: Result<
        Paths,
        LinesError,
    >)
        ensures
            match outcome {
                Ok(paths) => res == Ok::<Paths, LinesError>(paths),
                Err(_) => fails_with(res, ErrorKind::GlobError, self.no_paths_message()),
            },
    {
        match outcome {
            Ok(paths) => Ok(paths),
            Err(_) => Err(self.no_paths(ErrorKind::GlobError)),
        }
    }

    /// The walk over the files of the language, as `env` places them. Without
    /// a pattern to search there is no walk; with one, there is a walk exactly
    /// if the pattern is accepted.
    pub fn get_paths(&self, env: &Environment) -> (res: Result<Paths, LinesError>)
        ensures
            match self.pattern(*env) {
                Some(pattern) => if pattern_accepted(pattern) {
                    res is Ok
                } else {
                    fails_with(res, ErrorKind::GlobError, self.no_paths_message())
                },
                None => fails_with(
                    res,
                    ErrorKind::NoFolderConfigured(*self),
                    self.no_paths_message(),
                ),
            },
    {
        match self.folder(env) {
            Some(pattern) => self.paths_or_error(expand(pattern.as_str())),
            None => Err(self.no_paths(ErrorKind::NoFolderConfigured(*self))),
        }
    }
}

} // verus!
