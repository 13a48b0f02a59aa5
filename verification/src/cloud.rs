//! The public compile server.

pub mod compile;
