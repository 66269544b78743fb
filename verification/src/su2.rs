//! Entries of an SU2 configuration file.

pub mod enums;
pub mod traits;
