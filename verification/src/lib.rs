use vstd::prelude::*;

pub mod error;
pub mod fs;
pub mod git;
pub mod migrations;
pub mod runs;
pub mod setup;
pub mod terminal;
pub mod text;
