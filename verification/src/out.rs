//! What is shown to the user, as lines of text.

pub mod projects;
pub mod task;
