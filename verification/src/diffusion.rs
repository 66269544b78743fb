//! Rate terms, their composition into a diffusivity, and the catalogue of
//! parameterisations built on them.

pub mod error;
pub mod validation;
pub mod rate_term;
pub mod diffusivity;
pub mod slycke;
