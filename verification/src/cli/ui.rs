//! Answers typed at a prompt.

use vstd::prelude::*;
use crate::parse::{string_of, trim, trimmed_chars};

verus! {

/// What an answer to a prompt counts as: the line without the whitespace
/// around it, or the default where nothing is left of the line.
pub open spec fn answer_or_default(line: Seq<char>, default: Seq<char>) -> Seq<char> {
    if trim(line).len() == 0 {
        default
    } else {
        trim(line)
    }
}

/// The prompts of the interactive mode.
pub struct UI;

impl UI {
    /// What the line that the user typed at a prompt counts as, given the
    /// default of the prompt.
    pub fn prompt_with_default(line: &str, default: &str) -> (answer: String)
        ensures
            answer@ == answer_or_default(line@, default@),
    {
        let chars = trimmed_chars(line);
        if chars.len() == 0 {
            default.to_owned()
        } else {
            string_of(chars.as_slice())
        }
    }
}

} // verus!
