//! Greek alphabet lookup: letter records, exact resolution by name, and
//! nearest-name suggestions by edit distance.

pub mod alphabet;
pub mod command;
pub mod dataset;
pub mod distance;
pub mod document;
pub mod suggest;
pub mod text;
