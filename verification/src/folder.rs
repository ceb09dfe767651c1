//! Where the files of a language are looked for.

use crate::language::Language;
use vstd::prelude::*;

verus! {

/// The variables of the process environment that decide where files are looked
/// for, as they were read: `None` for a variable that is not set.
pub struct Environment {
    /// `RUST_LINES`: a directory of Rust sources.
    pub rust_lines: Option<String>,
    /// `JAVA_LINES`: a directory of Java sources.
    pub java_lines: Option<String>,
    /// `HOME`: the user's home directory.
    pub home: Option<String>,
}

/// The text of a variable, where it is set.
pub open spec fn text_of(value: Option<String>) -> Option<Seq<char>> {
    match value {
        Some(text) => Some(text@),
        None => None,
    }
}

impl Environment {
    /// The directory that the environment names for `language`, in the variable
    /// of that language.
    pub open spec fn directory(self, language: Language) -> Option<Seq<char>> {
        match language {
            Language::Rust => text_of(self.rust_lines),
            Language::Java => text_of(self.java_lines),
        }
    }

    /// Whether the two environments hold the same text in every variable.
    pub open spec fn same_as(self, other: Environment) -> bool {
        &&& text_of(self.rust_lines) == text_of(other.rust_lines)
        &&& text_of(self.java_lines) == text_of(other.java_lines)
        &&& text_of(self.home) == text_of(other.home)
    }
}

impl Language {
    /// The name of the environment variable that overrides where the files of
    /// the language are looked for.
    pub open spec fn variable(self) -> Seq<char> {
        match self {
            Language::Rust => "RUST_LINES"@,
            Language::Java => "JAVA_LINES"@,
        }
    }

    /// What follows a directory in a search pattern: any file below it with the
    /// extension of the language.
    pub open spec fn any_source_below(self) -> Seq<char> {
        match self {
            Language::Rust => "/**/*.rs"@,
            Language::Java => "/**/*.java"@,
        }
    }

    /// The pattern from the override: all files of the language below the
    /// directory that the environment names for it.
    pub open spec fn override_pattern(self, env: Environment) -> Option<Seq<char>> {
        match env.directory(self) {
            Some(directory) => Some(directory + self.any_source_below()),
            None => None,
        }
    }

    /// The built-in pattern: for Rust, the sources that cargo keeps below the
    /// home directory; none for Java, and none without a home directory.
    pub open spec fn default_pattern(self, env: Environment) -> Option<Seq<char>> {
        match (self, env.home) {
            (Language::Rust, Some(home)) => Some(home@ + "/.cargo/registry/src/**/*.rs"@),
            _ => None,
        }
    }

    /// The pattern to search: the one from the override where there is one,
    /// else the built-in one.
    pub open spec fn pattern(self, env: Environment) -> Option<Seq<char>> {
        match self.override_pattern(env) {
            Some(pattern) => Some(pattern),
            None => self.default_pattern(env),
        }
    }

    /// The pattern depends on the language and on the texts of the environment
    /// alone: resolved again in an unchanged environment it is the same.
    pub proof fn lemma_pattern_is_stable(self, first: Environment, second: Environment)
        requires
            first.same_as(second),
        ensures
            self.override_pattern(first) == self.override_pattern(second),
            self.default_pattern(first) == self.default_pattern(second),
            self.pattern(first) == self.pattern(second),
    {
    }

    /// The pattern is the override's wherever a directory is named for the
    /// language, whatever the home directory.
    pub proof fn lemma_override_comes_first(self, env: Environment)
        ensures
            env.directory(self) is Some ==> self.pattern(env) == self.override_pattern(env),
            env.directory(self) is None ==> self.pattern(env) == self.default_pattern(env),
            self.pattern(env) is None <==> env.directory(self) is None && (self
                == Language::Java || env.home is None),
    {
    }

    /// The name of the environment variable that overrides where the files of
    /// the language are looked for.
    pub fn env_var_name(&self) -> (name: &'static str)
        ensures
            name@ == self.variable(),
    {
        match self {
            Language::Rust => "RUST_LINES",
            Language::Java => "JAVA_LINES",
        }
    }

    /// The pattern from the override, where the environment names a directory
    /// for the language.
    pub fn env_var_folder(&self, env: &Environment) -> (folder: Option<String>)
        ensures
            text_of(folder) == self.override_pattern(*env),
    {
        match self {
            Language::Rust => match &env.rust_lines {
                Some(directory) => Some(directory.clone().concat("/**/*.rs")),
                None => None,
            },
            Language::Java => match &env.java_lines {
                Some(directory) => Some(directory.clone().concat("/**/*.java")),
                None => None,
            },
        }
    }

    /// The built-in pattern of the language, where it has one.
    pub fn default_folder(&self, env: &Environment) -> (folder: Option<String>)
        ensures
            text_of(folder) == self.default_pattern(*env),
    {
        match self {
            Language::Rust => match &env.home {
                Some(home) => Some(home.clone().concat("/.cargo/registry/src/**/*.rs")),
                None => None,
            },
            Language::Java => None,
        }
    }

    /// The pattern to search for the files of the language.
    pub fn folder(&self, env: &Environment) -> (folder: Option<String>)
        ensures
            text_of(folder) == self.pattern(*env),
    {
        match self.env_var_folder(env) {
            Some(pattern) => Some(pattern),
            None => self.default_folder(env),
        }
    }
}

} // verus!
