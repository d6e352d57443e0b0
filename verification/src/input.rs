//! What a question looks like and what an answer means. Asking is left to the caller.

use crate::text::{lowercase, optional_text, trim, trimmed};
use vstd::prelude::*;
use vstd::string::*;

verus! {

/// The line that asks for a value: the question, the default in brackets
/// where there is one, and a colon.
pub open spec fn question(text: Seq<char>, default_value: Option<Seq<char>>) -> Seq<char> {
    match default_value {
        Some(value) => text + " ("@ + value + ")"@ + ":"@,
        None => text + ":"@,
    }
}

/// Whether an answer, taken without the white space around it and in lower
/// case, is `y`, `yes` or nothing.
pub open spec fn is_yes(answer: Seq<char>) -> bool {
    let said = lowercase(trimmed(answer));
    said == "y"@ || said == "yes"@ || said.len() == 0
}

/// The line that asks for a value.
pub fn prompt(text: &str, default_value: &Option<String>) -> (line: String)
    ensures
        line@ == question(text@, optional_text(*default_value)),
{
    let mut line = String::from_str(text);
    match default_value {
        Some(value) => {
            line.append(" (");
            line.append(value.as_str());
            line.append(")");
        },
        None => {},
    }
    line.append(":");
    line
}

/// The line that asks for a yes or no.
pub fn confirm_prompt(text: &str) -> (line: String)
    ensures
        line@ == text@ + " (y):"@,
{
    let mut line = String::from_str(text);
    line.append(" (y):");
    line
}

/// Whether the answer to a yes-or-no question says yes.
pub fn confirm(answer: &str) -> (yes: bool)
    ensures
        yes == is_yes(answer@),
{
    let inner = trim(answer);
    let said = inner.as_str().to_lowercase();
    said.as_str().eq("y") || said.as_str().eq("yes") || said.as_str().is_empty()
}

/// The value that an answer gives: the answer without the white space around
/// it, or the default where nothing else is left of it.
pub fn input(answer: &str, default_value: Option<String>) -> (value: Option<String>)
    ensures
        optional_text(value) == (if trimmed(answer@).len() == 0 {
            optional_text(default_value)
        } else {
            Some(trimmed(answer@))
        }),
{
    let inner = trim(answer);
    if inner.as_str().is_empty() {
        default_value
    } else {
        Some(inner)
    }
}

} // verus!
