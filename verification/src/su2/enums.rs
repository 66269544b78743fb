//! The options of an SU2 configuration that are a choice among keywords.

use vstd::prelude::*;

verus! {

/// The condition at an inlet of the flow, on the boundary named by the
/// marker that each variant holds first. Numbers are held as they are to
/// be written.
#[derive(Debug)]
pub enum InletType {
    TotalConditionsInlet(String),
    MassFlowInlet(String),
    IncVelocityInlet(String),
    IncPressureInlet(String),
    /// The marker, then the temperature, the pressure and the velocity of
    /// the flow that enters.
    SupersonicInlet(String, String, String, String),
}

/// The solver that SU2 runs.
#[derive(Clone, Copy, Debug, PartialEq, Eq, Structural)]
pub enum SolverType {
    Euler,
    NavierStokes,
    Rans,
    IncEuler,
    IncNavierStokes,
    IncRans,
    NemoEuler,
    NemoNavierStokes,
    FemEuler,
    FemNavierStokes,
    FemRans,
    FemLes,
    HeatEquationFvm,
    Elasticity,
}

impl SolverType {
    /// The keyword by which SU2 knows the solver.
    pub open spec fn spec_keyword(self) -> Seq<char> {
        match self {
            SolverType::Euler => "EULER"@,
            SolverType::NavierStokes => "NAVIER_STOKES"@,
            SolverType::Rans => "RANS"@,
            SolverType::IncEuler => "INC_EULER"@,
            SolverType::IncNavierStokes => "INC_NAVIER_STOKES"@,
            SolverType::IncRans => "INC_RANS"@,
            SolverType::NemoEuler => "NEMO_EULER"@,
            SolverType::NemoNavierStokes => "NEMO_NAVIER_STOKES"@,
            SolverType::FemEuler => "FEM_EULER"@,
            SolverType::FemNavierStokes => "FEM_NAVIER_STOKES"@,
            SolverType::FemRans => "FEM_RANS"@,
            SolverType::FemLes => "FEM_LES"@,
            SolverType::HeatEquationFvm => "HEAT_EQUATION_FVM"@,
            SolverType::Elasticity => "ELASTICITY"@,
        }
    }

    /// The keyword by which SU2 knows the solver.
    pub fn keyword(&self) -> (word: &'static str)
        ensures
            word@ == self.spec_keyword(),
    {
        match self {
            SolverType::Euler => "EULER",
            SolverType::NavierStokes => "NAVIER_STOKES",
            SolverType::Rans => "RANS",
            SolverType::IncEuler => "INC_EULER",
            SolverType::IncNavierStokes => "INC_NAVIER_STOKES",
            SolverType::IncRans => "INC_RANS",
            SolverType::NemoEuler => "NEMO_EULER",
            SolverType::NemoNavierStokes => "NEMO_NAVIER_STOKES",
            SolverType::FemEuler => "FEM_EULER",
            SolverType::FemNavierStokes => "FEM_NAVIER_STOKES",
            SolverType::FemRans => "FEM_RANS",
            SolverType::FemLes => "FEM_LES",
            SolverType::HeatEquationFvm => "HEAT_EQUATION_FVM",
            SolverType::Elasticity => "ELASTICITY",
        }
    }
}

impl InletType {
    /// The keyword by which SU2 knows the condition.
    pub open spec fn spec_keyword(self) -> Seq<char> {
        match self {
            InletType::TotalConditionsInlet(..) => "TOTAL_CONDITIONS"@,
            InletType::MassFlowInlet(..) => "MASS_FLOW"@,
            InletType::IncVelocityInlet(..) => "VELOCITY"@,
            InletType::IncPressureInlet(..) => "PRESSURE_INLET"@,
            InletType::SupersonicInlet(..) => "MARKER_SUPERSONIC_INLET"@,
        }
    }

    /// The keyword by which SU2 knows the condition.
    pub fn keyword(&self) -> (word: &'static str)
        ensures
            word@ == self.spec_keyword(),
    {
        match self {
            InletType::TotalConditionsInlet(..) => "TOTAL_CONDITIONS",
            InletType::MassFlowInlet(..) => "MASS_FLOW",
            InletType::IncVelocityInlet(..) => "VELOCITY",
            InletType::IncPressureInlet(..) => "PRESSURE_INLET",
            InletType::SupersonicInlet(..) => "MARKER_SUPERSONIC_INLET",
        }
    }
}

} // verus!
