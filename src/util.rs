//! Script helpers.

pub mod script;
