//! Helpers that belong to no channel.

pub mod counter;
pub mod tempdir;
