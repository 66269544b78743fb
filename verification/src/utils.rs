//! Text utilities.

pub mod chars;
pub mod textfile;
pub mod types;
