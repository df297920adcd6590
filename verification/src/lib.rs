//! A personal journal: short timestamped notes, kept per user and per calendar
//! day. This crate holds the rules of the journal (which notes a day holds, in
//! what order, where its file lives and what is done with that file when the
//! journal is closed); reading and writing files is left to the caller.

pub mod codec;
pub mod date;
pub mod entries;
pub mod journal;
pub mod path;
pub mod range;
