//! The catalogue: Slycke's parameterisation of the diffusivities of carbon
//! and of nitrogen in iron, over a composition of the two fractions
//! `[carbon, nitrogen]`.
//!
//! The catalogue names the formulas and says which diffusivity is made of
//! which; their arithmetic belongs to the embedding. None of them reads the
//! temperature.

use vstd::prelude::*;
use crate::diffusion::diffusivity::{ArrheniusModifiedDiffusivity, Terms};
use crate::diffusion::error::DiffusivityError;
use crate::diffusion::rate_term::RateTerm;

verus! {

/// The number of fractions in a composition that the catalogue's formulas
/// read.
pub const COMPOSITION_LENGTH: usize = 2;

/// The element that diffuses.
#[derive(Clone, Copy, Debug, PartialEq, Eq, Structural)]
pub enum Species {
    Carbon,
    Nitrogen,
}

/// A formula of the catalogue.
#[derive(Clone, Copy, Debug, PartialEq, Eq, Structural)]
pub enum SlyckeFormula {
    /// The pre-exponential factor of the diffusivity of a species.
    PreExponential(Species),
    /// The activation energy of the diffusivity of a species.
    ActivationEnergy(Species),
}

impl Species {
    /// Where the fraction of the species stands in a composition.
    pub open spec fn spec_coordinate(self) -> usize {
        match self {
            Species::Carbon => 0,
            Species::Nitrogen => 1,
        }
    }

    /// Where the fraction of the other species stands in a composition.
    pub open spec fn spec_partner_coordinate(self) -> usize {
        match self {
            Species::Carbon => 1,
            Species::Nitrogen => 0,
        }
    }

    /// Where the fraction of the other species stands in a composition.
    /// The pre-exponential factor of a species is scaled by how much of
    /// the other is there.
    pub fn partner_coordinate(&self) -> (at: usize)
        ensures
            at == self.spec_partner_coordinate(),
            at < COMPOSITION_LENGTH,
            at != self.spec_coordinate(),
    {
        match self {
            Species::Carbon => 1,
            Species::Nitrogen => 0,
        }
    }
}

/// A composition is of the catalogue's dimension when it has exactly two
/// fractions.
pub open spec fn spec_check_dimension(fractions: nat) -> Result<(), DiffusivityError> {
    if fractions == COMPOSITION_LENGTH {
        Ok(())
    } else {
        Err(DiffusivityError::InvalidDimension)
    }
}

/// Checks, before any arithmetic, that a composition of `fractions`
/// fractions is one that the catalogue's formulas can read. Any other
/// length fails with [`DiffusivityError::InvalidDimension`].
pub fn check_dimension(fractions: usize) -> (verdict: Result<(), DiffusivityError>)
    ensures
        verdict == spec_check_dimension(fractions as nat),
{
    if fractions == COMPOSITION_LENGTH {
        Ok(())
    } else {
        Err(DiffusivityError::InvalidDimension)
    }
}

/// What the diffusivity of a species is made of in the catalogue: the
/// two formulas of that species.
pub open spec fn spec_diffusivity(species: Species) -> Terms<SlyckeFormula> {
    Terms {
        pre_exponential: RateTerm::Native(SlyckeFormula::PreExponential(species)),
        activation_energy: RateTerm::Native(SlyckeFormula::ActivationEnergy(species)),
    }
}

/// The diffusivity of carbon: both terms are formulas of the catalogue.
pub fn create_carbon_diffusivity() -> (diffusivity: ArrheniusModifiedDiffusivity<SlyckeFormula>)
    ensures
        diffusivity@ == spec_diffusivity(Species::Carbon),
{
    ArrheniusModifiedDiffusivity::from_rust_fns(
        SlyckeFormula::PreExponential(Species::Carbon),
        SlyckeFormula::ActivationEnergy(Species::Carbon),
    )
}

/// The diffusivity of nitrogen: both terms are formulas of the catalogue.
pub fn create_nitrogen_diffusivity() -> (diffusivity: ArrheniusModifiedDiffusivity<SlyckeFormula>)
    ensures
        diffusivity@ == spec_diffusivity(Species::Nitrogen),
{
    ArrheniusModifiedDiffusivity::from_rust_fns(
        SlyckeFormula::PreExponential(Species::Nitrogen),
        SlyckeFormula::ActivationEnergy(Species::Nitrogen),
    )
}

} // verus!
