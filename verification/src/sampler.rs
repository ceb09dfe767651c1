//! One random line of code, step by step: every decision on the way from a
//! configuration to a line is taken here, and the caller does the reading.

use crate::error::{fails_with, ErrorKind, LinesError};
use crate::folder::Environment;
use crate::language::Language;
use crate::paths::pattern_accepted;
use crate::select::{chosen_from, get_random_string, nothing_to_choose};
use crate::text::texts;
use glob::Paths;
use vstd::prelude::*;

verus! {

/// Configuration of the requested lines.
pub struct LineConfig {
    /// The language that the lines are wanted from.
    pub language: Language,
}

/// What the caller has found out for the library.
pub enum Event {
    /// The environment, as it was read.
    Started(Environment),
    /// The matches of the walk, in the order of the walk: the path of each, or
    /// `None` for a match that could not be read.
    Listed(Vec<Option<String>>),
    /// The lines of the chosen file, in the order of the file: the text of each,
    /// or `None` for a line that is no valid text.
    Read(Vec<Option<String>>),
    /// The chosen file could not be opened; the text says why.
    Unreadable(String),
}

/// What the caller is to do next.
pub enum Action {
    /// Walk the files and report them with `Event::Listed`.
    ListFiles(Paths),
    /// Read the file at this path and report its lines with `Event::Read`, or
    /// `Event::Unreadable` if it cannot be opened.
    ReadFile(String),
    /// Stop: this is the outcome.
    Finish(Result<String, LinesError>),
}

/// The texts among `entries`, in order, without the entries that hold none.
pub open spec fn readable(entries: Seq<Option<String>>) -> Seq<Seq<char>> {
    entries.filter(|entry: Option<String>| entry is Some).map_values(
        |entry: Option<String>| entry->0@,
    )
}

/// One more entry: its text is added if it holds one.
pub proof fn lemma_readable_push(entries: Seq<Option<String>>, entry: Option<String>)
    ensures
        readable(entries.push(entry)) == match entry {
            Some(text) => readable(entries).push(text@),
            None => readable(entries),
        },
{
    let holds_text = |entry: Option<String>| entry is Some;
    entries.lemma_filter_push(entry, holds_text);
    if entry is Some {
        entries.filter(holds_text).lemma_push_map_commute(
            |entry: Option<String>| entry->0@,
            entry,
        );
    }
}

/// Drops the entries that could not be read and keeps the others, in order.
pub fn keep_readable(entries: Vec<Option<String>>) -> (kept: Vec<String>)
    ensures
        texts(kept@) == readable(entries@),
{
    let mut kept: Vec<String> = Vec::new();
    let mut entries = entries;
    let ghost all = entries@;
    let mut i: usize = 0;
    assert(all.take(0) =~= Seq::empty());
    assert(readable(Seq::empty()) =~= Seq::empty()) by {
        reveal(Seq::filter);
    }
    while i < entries.len()
        invariant
            i <= entries@.len() == all.len(),
            forall|j: int| i <= j < all.len() ==> entries@[j] == all[j],
            texts(kept@) == readable(all.take(i as int)),
        decreases entries@.len() - i,
    {
        proof {
            assert(all.take(i + 1) =~= all.take(i as int).push(all[i as int]));
            lemma_readable_push(all.take(i as int), all[i as int]);
        }
        let mut entry: Option<String> = None;
        std::mem::swap(&mut entries[i], &mut entry);
        match entry {
            Some(text) => {
                assert(texts(kept@.push(text)) =~= texts(kept@).push(text@));
                kept.push(text);
            },
            None => {},
        }
        i += 1;
    }
    assert(all.take(i as int) =~= all);
    kept
}

/// Chooses one of `files` at random. It is an error of the language to have no
/// file to choose from.
pub fn get_random_file_path(config: &LineConfig, files: &Vec<String>) -> (res: Result<
    String,
    LinesError,
>)
    ensures
        files@.len() == 0 ==> fails_with(
            res,
            ErrorKind::NoFilesFound(config.language),
            nothing_to_choose(),
        ),
        files@.len() > 0 ==> chosen_from(res, texts(files@)),
        files@.len() == 1 ==> (res matches Ok(path) && path@ == files@[0]@),
{
    match get_random_string(files) {
        Ok(path) => Ok(path),
        Err(error) => Err(
            LinesError { kind: ErrorKind::NoFilesFound(config.language), message: error.message },
        ),
    }
}

/// Chooses at random one of the lines of `lines` that look like code in the
/// language of `config`, trimmed. It is an error to be left with no such line.
pub fn get_random_line_of(config: &LineConfig, lines: Vec<String>) -> (res: Result<
    String,
    LinesError,
>)
    ensures
        config.language.filtered(texts(lines@)).len() == 0 ==> fails_with(
            res,
            ErrorKind::NoMatchingLines,
            nothing_to_choose(),
        ),
        config.language.filtered(texts(lines@)).len() > 0 ==> chosen_from(
            res,
            config.language.filtered(texts(lines@)),
        ),
        res matches Ok(line) ==> config.language.plausible(line@),
{
    let kept = config.language.filter_lines(lines);
    assert(texts(kept@).len() == kept@.len());
    match get_random_string(&kept) {
        Ok(line) => {
            proof {
                let i = choose|i: int| 0 <= i < texts(kept@).len() && texts(kept@)[i] == line@;
                assert(kept@[i]@ == line@);
            }
            Ok(line)
        },
        Err(error) => Err(LinesError { kind: ErrorKind::NoMatchingLines, message: error.message }),
    }
}

/// What `action` may be after `event`, for the language of `config`.
pub open spec fn follows(config: LineConfig, event: Event, action: Action) -> bool {
    match event {
        Event::Started(env) => match config.language.pattern(env) {
            Some(pattern) => if pattern_accepted(pattern) {
                action is ListFiles
            } else {
                action matches Action::Finish(res) && fails_with(
                    res,
                    ErrorKind::GlobError,
                    config.language.no_paths_message(),
                )
            },
            None => action matches Action::Finish(res) && fails_with(
                res,
                ErrorKind::NoFolderConfigured(config.language),
                config.language.no_paths_message(),
            ),
        },
        Event::Listed(entries) => if readable(entries@).len() == 0 {
            action matches Action::Finish(res) && fails_with(
                res,
                ErrorKind::NoFilesFound(config.language),
                nothing_to_choose(),
            )
        } else {
            action matches Action::ReadFile(path) && readable(entries@).contains(path@)
        },
        Event::Read(entries) => {
            let kept = config.language.filtered(readable(entries@));
            if kept.len() == 0 {
                action matches Action::Finish(res) && fails_with(
                    res,
                    ErrorKind::NoMatchingLines,
                    nothing_to_choose(),
                )
            } else {
                action matches Action::Finish(res) && chosen_from(res, kept)
            }
        },
        Event::Unreadable(reason) => action matches Action::Finish(res) && fails_with(
            res,
            ErrorKind::FileAccess,
            reason@,
        ),
    }
}

/// Decides what to do after `event`. The caller starts with
/// `Event::Started`, does what each action asks for, reports what came of it,
/// and stops at `Action::Finish`: no step is tried twice.
pub fn next_action(config: &LineConfig, event: Event) -> (action: Action)
    ensures
        follows(*config, event, action),
        action matches Action::Finish(Ok(line)) ==> config.language.plausible(line@),
        action matches Action::Finish(Ok(_)) ==> event is Read,
{
    match event {
        Event::Started(env) => match config.language.get_paths(&env) {
            Ok(paths) => Action::ListFiles(paths),
            Err(error) => Action::Finish(Err(error)),
        },
        Event::Listed(entries) => {
            let files = keep_readable(entries);
            assert(texts(files@).len() == files@.len());
            match get_random_file_path(config, &files) {
                Ok(path) => Action::ReadFile(path),
                Err(error) => Action::Finish(Err(error)),
            }
        },
        Event::Read(entries) => {
            let lines = keep_readable(entries);
            Action::Finish(get_random_line_of(config, lines))
        },
        Event::Unreadable(reason) => Action::Finish(
            Err(LinesError { kind: ErrorKind::FileAccess, message: reason }),
        ),
    }
}

} // verus!
