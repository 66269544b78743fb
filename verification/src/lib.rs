//! Majordome: engineering utilities around a Python interpreter.
//!
//! The heart of the crate is [`diffusion`]: diffusivities of the modified
//! Arrhenius form `D = D0(x, T) * exp(-Ea(x, T) / (R * T))`, whose two
//! terms are compiled formulas or callables of the interpreter. The crate
//! decides; it does not compute. It validates what comes from the
//! interpreter, builds rate terms and diffusivities from the recognised
//! combinations of arguments, and says, step by step, what has to be
//! invoked next and what an evaluation has come to. The scalar type of an
//! evaluation and the type of a compiled formula are parameters: the
//! embedding supplies the arithmetic.
//!
//! Around it stand [`su2`], which writes entries of SU2 configuration
//! files, [`containerize`], which reads the command line of the packaging
//! tool and makes up the commands it runs, and [`utils`], which holds the
//! text functions that these use. What is asked of the interpreter is
//! asked in [`python`].

pub mod python;
pub mod diffusion;
pub mod utils;
pub mod su2;
pub mod containerize;

pub use diffusion::error::DiffusivityError;
pub use python::PyObject;
