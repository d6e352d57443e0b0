//! The list of projects, as lines of text.

use crate::projects::Projects;
use crate::text::texts;
use vstd::prelude::*;
use vstd::string::*;

verus! {

/// Shows the projects.
pub struct ProjectsOut;

/// A heading, and below it a line for each project.
pub open spec fn project_lines(names: Seq<Seq<char>>) -> Seq<Seq<char>> {
    seq!["Available projects:"@] + names.map_values(|name: Seq<char>| " - "@ + name)
}

impl ProjectsOut {
    /// The lines that list the projects.
    pub fn list(projects: &Projects) -> (lines: Vec<String>)
        ensures
            texts(lines@) == project_lines(projects@),
    {
        let names = projects.get();
        let mut lines: Vec<String> = Vec::new();
        lines.push(String::from_str("Available projects:"));
        let mut at: usize = 0;
        while at < names.len()
            invariant
                at <= names.len(),
                texts(names@) == projects@,
                lines@.len() == at + 1,
                lines@[0]@ == "Available projects:"@,
                forall|i: int| 1 <= i <= at ==> (#[trigger] lines@[i])@ == " - "@ + names@[i - 1]@,
            decreases names.len() - at,
        {
            let mut line = String::from_str(" - ");
            line.append(names[at].as_str());
            lines.push(line);
            at = at + 1;
        }
        lines
    }
}

} // verus!
