//! The supported languages, and how a language is read from text.

use crate::error::{fails_with, ErrorKind, LinesError};
use crate::text::{ascii_lowered, chars_of, equals_ignoring_case, same_ignoring_case};
use vstd::prelude::*;

verus! {

/// The supported languages.
#[derive(Clone, Copy, PartialEq, Eq, Structural, Debug)]
pub enum Language {
    Rust,
    Java,
}

impl Language {
    /// The name of the language as it is shown to the user.
    pub open spec fn name(self) -> Seq<char> {
        match self {
            Language::Rust => "Rust"@,
            Language::Java => "Java"@,
        }
    }

    /// The name by which the language is recognised, in lower case.
    pub open spec fn keyword(self) -> Seq<char> {
        match self {
            Language::Rust => "rust"@,
            Language::Java => "java"@,
        }
    }

    /// The language that `text` names: the one whose keyword is `text` but for
    /// the case of its letters.
    pub open spec fn parse(text: Seq<char>) -> Option<Language> {
        if ascii_lowered(text) == Language::Rust.keyword() {
            Some(Language::Rust)
        } else if ascii_lowered(text) == Language::Java.keyword() {
            Some(Language::Java)
        } else {
            None
        }
    }

    /// The message of the error for a text that names no language.
    pub open spec fn unsupported_message(text: Seq<char>) -> Seq<char> {
        "Language "@ + text + " not supported"@
    }

    /// A keyword is written in lower case, and the name shown to the user is
    /// the keyword but for the case of its first letter.
    pub proof fn lemma_keyword_is_lower_case(self)
        ensures
            ascii_lowered(self.keyword()) == self.keyword(),
            ascii_lowered(self.name()) == self.keyword(),
    {
        reveal_strlit("rust");
        reveal_strlit("java");
        reveal_strlit("Rust");
        reveal_strlit("Java");
        assert(ascii_lowered("rust"@) =~= "rust"@);
        assert(ascii_lowered("java"@) =~= "java"@);
        assert(ascii_lowered("Rust"@) =~= "rust"@);
        assert(ascii_lowered("Java"@) =~= "java"@);
    }

    /// Reading is total over the languages and blind to case: a text names a
    /// language exactly if it is the keyword of that language but for the case
    /// of its letters.
    pub proof fn lemma_parse_ignores_case(self, text: Seq<char>)
        ensures
            Language::parse(text) == Some(self) <==> same_ignoring_case(text, self.keyword()),
    {
        Language::Rust.lemma_keyword_is_lower_case();
        Language::Java.lemma_keyword_is_lower_case();
        reveal_strlit("rust");
        reveal_strlit("java");
        assert("rust"@[0] != "java"@[0]);
    }

    /// Two texts that differ in the case of their letters alone are read
    /// alike.
    pub proof fn lemma_parse_agrees_on_case_variants(first: Seq<char>, second: Seq<char>)
        requires
            same_ignoring_case(first, second),
        ensures
            Language::parse(first) == Language::parse(second),
    {
    }

    /// The name of a language, as it is shown to the user, reads back as that
    /// language.
    pub proof fn lemma_parse_reads_names(self)
        ensures
            Language::parse(self.name()) == Some(self),
            Language::parse(self.keyword()) == Some(self),
    {
        self.lemma_keyword_is_lower_case();
        self.lemma_parse_ignores_case(self.name());
        self.lemma_parse_ignores_case(self.keyword());
    }

    /// The name of the language as it is shown to the user.
    pub fn display_name(&self) -> (name: &'static str)
        ensures
            name@ == self.name(),
    {
        match self {
            Language::Rust => "Rust",
            Language::Java => "Java",
        }
    }

    /// Reads a language from its name, whatever the case of its letters.
    pub fn from(lang: &str) -> (res: Result<Language, LinesError>)
        ensures
            match Language::parse(lang@) {
                Some(language) => res == Ok::<Language, LinesError>(language),
                None => fails_with(
                    res,
                    ErrorKind::UnsupportedLanguage,
                    Language::unsupported_message(lang@),
                ),
            },
    {
        let text = chars_of(lang);
        let rust = chars_of("rust");
        let java = chars_of("java");
        proof {
            Language::Rust.lemma_keyword_is_lower_case();
            Language::Java.lemma_keyword_is_lower_case();
        }
        if equals_ignoring_case(&text, &rust) {
            Ok(Language::Rust)
        } else if equals_ignoring_case(&text, &java) {
            Ok(Language::Java)
        } else {
            let message = String::from_str("Language ").concat(lang).concat(" not supported");
            Err(LinesError { kind: ErrorKind::UnsupportedLanguage, message })
        }
    }
}

} // verus!
