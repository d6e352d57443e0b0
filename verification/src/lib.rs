//! Task and time tracking: what is being worked on, since when, and for how long.
//!
//! The library holds the rules of the tracker and no input or output. The data
//! directory is seen through [`store::Store`], an image of its files held in
//! memory; the clock, the CSV framing and the textual form of a timestamp come
//! from `chrono` and `csv` through the trusted functions of [`time`] and
//! [`codec`].

pub mod time;
pub mod tui;
pub mod text;
pub mod error;
pub mod store;
pub mod codec;
pub mod projects;
pub mod task;
pub mod tasks;
pub mod dir;
pub mod config;
pub mod input;
pub mod out;
