//! A small note store: notes tagged with a category, kept in insertion order
//! and addressed by position, with the command-line grammar that drives it.

pub mod note;
pub mod ops;
pub mod laws;
pub mod command;
pub mod session;
pub mod store;
