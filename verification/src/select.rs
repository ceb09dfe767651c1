//! Choosing one text among several, at random.

use crate::error::{fails_with, ErrorKind, LinesError};
use crate::text::texts;
use rand::seq::SliceRandom;
use rand::thread_rng;
use vstd::prelude::*;

verus! {

/// The message of the error for a choice among no texts.
pub open spec fn nothing_to_choose() -> Seq<char> {
    "Error getting random string."@
}

/// Whether `res` is one of `candidates`.
pub open spec fn chosen_from(res: Result<String, LinesError>, candidates: Seq<Seq<char>>) -> bool {
    res matches Ok(text) && candidates.contains(text@)
}

/// Calls `SliceRandom::choose` of the crate rand on the slice of `lines`, with
/// the generator that `thread_rng` returns. Which element comes back is left
/// open. Claimed is what holds of every outcome: nothing comes back from an
/// empty slice, and from any other an element of it.
#[verifier::external_body]
fn pick_at_random(lines: &Vec<String>) -> (choice: Option<&String>)
    ensures
        match choice {
            Some(line) => lines@.contains(*line),
            None => lines@.len() == 0,
        },
{
    lines.choose(&mut thread_rng())
}

/// Turns what was chosen into a result: a copy of the chosen text, or the
/// error of an empty choice where nothing was chosen.
pub fn string_from_choice(choice: Option<&String>) -> (res: Result<String, LinesError>)
    ensures
        match choice {
            Some(line) => res matches Ok(text) && text@ == line@,
            None => fails_with(res, ErrorKind::Empty, nothing_to_choose()),
        },
{
    match choice {
        Some(line) => Ok(line.clone()),
        None => Err(
            LinesError {
                kind: ErrorKind::Empty,
                message: String::from_str("Error getting random string."),
            },
        ),
    }
}

/// Chooses one of `lines` at random, each with the same chance. An empty
/// `lines` gives the error of an empty choice, and a single line gives itself.
pub fn get_random_string(lines: &Vec<String>) -> (res: Result<String, LinesError>)
    ensures
        lines@.len() == 0 ==> fails_with(res, ErrorKind::Empty, nothing_to_choose()),
        lines@.len() > 0 ==> chosen_from(res, texts(lines@)),
        lines@.len() == 1 ==> (res matches Ok(text) && text@ == lines@[0]@),
{
    let choice = pick_at_random(lines);
    proof {
        if let Some(line) = choice {
            let i = choose|i: int| 0 <= i < lines@.len() && lines@[i] == *line;
            assert(texts(lines@)[i] == line@);
        }
    }
    string_from_choice(choice)
}

} // verus!
