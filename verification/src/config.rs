//! What the user has configured.

use vstd::prelude::*;
use vstd::string::*;

verus! {

/// The settings of the configuration file.
#[derive(Clone, Debug, PartialEq, Eq)]
pub struct Config {
    /// The command that opens a log, where one is set.
    pub editor: Option<String>,
}

impl Config {
    /// The command that opens a log: the editor that is set, else `fallback`.
    pub fn editor_or<'a>(&'a self, fallback: &'a str) -> (command: &'a str)
        ensures
            command@ == (match self.editor {
                Some(editor) => editor@,
                None => fallback@,
            }),
    {
        match &self.editor {
            Some(editor) => editor.as_str(),
            None => fallback,
        }
    }
}

} // verus!
