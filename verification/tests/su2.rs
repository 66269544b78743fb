use majordome::su2::enums::{InletType, SolverType};
use majordome::su2::traits::{AsInput, SU2InputEntry};
use majordome::utils::types::variant_name_upper;

const SOLVERS: [(SolverType, &str); 14] = [
    (SolverType::Euler, "EULER"),
    (SolverType::NavierStokes, "NAVIER_STOKES"),
    (SolverType::Rans, "RANS"),
    (SolverType::IncEuler, "INC_EULER"),
    (SolverType::IncNavierStokes, "INC_NAVIER_STOKES"),
    (SolverType::IncRans, "INC_RANS"),
    (SolverType::NemoEuler, "NEMO_EULER"),
    (SolverType::NemoNavierStokes, "NEMO_NAVIER_STOKES"),
    (SolverType::FemEuler, "FEM_EULER"),
    (SolverType::FemNavierStokes, "FEM_NAVIER_STOKES"),
    (SolverType::FemRans, "FEM_RANS"),
    (SolverType::FemLes, "FEM_LES"),
    (SolverType::HeatEquationFvm, "HEAT_EQUATION_FVM"),
    (SolverType::Elasticity, "ELASTICITY"),
];

#[test]
fn test_solver_type_to_su2_input() {
    let solver = SolverType::Euler;
    let input = solver.to_input();
    assert_eq!(input, "SOLVER= EULER");
}

#[test]
fn solver_option_is_named_solver() {
    assert_eq!(<SolverType as AsInput>::option_name(), "SOLVER");
}

#[test]
fn every_solver_has_its_keyword() {
    for (solver, keyword) in SOLVERS {
        assert_eq!(solver.keyword(), keyword);
        assert_eq!(solver.to_name(), keyword);
        assert_eq!(solver.to_value(), keyword);
    }
}

#[test]
fn every_solver_writes_its_entry() {
    for (solver, keyword) in SOLVERS {
        let entry = format!("SOLVER= {}", keyword);
        assert_eq!(solver.to_input(), entry);
        assert_eq!(solver.to_su2_input(), entry);
    }
}

#[test]
fn solver_keyword_is_the_keyword_of_the_variant_name() {
    for (solver, keyword) in SOLVERS {
        assert_eq!(variant_name_upper(&solver), keyword);
    }
}

fn supersonic() -> InletType {
    InletType::SupersonicInlet(
        String::from("inlet"),
        String::from("300"),
        String::from("101325"),
        String::from("600, 0, 0"),
    )
}

#[test]
fn inlet_option_is_named_inlet_type() {
    assert_eq!(<InletType as AsInput>::option_name(), "INLET_TYPE");
}

#[test]
fn every_inlet_has_its_keyword() {
    let marker = || String::from("west");
    assert_eq!(InletType::TotalConditionsInlet(marker()).to_name(), "TOTAL_CONDITIONS");
    assert_eq!(InletType::MassFlowInlet(marker()).to_name(), "MASS_FLOW");
    assert_eq!(InletType::IncVelocityInlet(marker()).to_name(), "VELOCITY");
    assert_eq!(InletType::IncPressureInlet(marker()).to_name(), "PRESSURE_INLET");
    assert_eq!(supersonic().to_name(), "MARKER_SUPERSONIC_INLET");
    assert_eq!(supersonic().keyword(), "MARKER_SUPERSONIC_INLET");
}

#[test]
fn the_value_of_an_inlet_is_its_marker() {
    let marker = || String::from("west");
    assert_eq!(InletType::TotalConditionsInlet(marker()).to_value(), "west");
    assert_eq!(InletType::MassFlowInlet(marker()).to_value(), "west");
    assert_eq!(InletType::IncVelocityInlet(marker()).to_value(), "west");
    assert_eq!(InletType::IncPressureInlet(marker()).to_value(), "west");
}

#[test]
fn the_value_of_a_supersonic_inlet_holds_the_state_of_the_flow() {
    assert_eq!(supersonic().to_value(), "( inlet, 300, 101325, 600, 0, 0 )");
}

#[test]
fn an_inlet_writes_its_kind_and_its_marker() {
    assert_eq!(
        InletType::MassFlowInlet(String::from("west")).to_input(),
        "INLET_TYPE= MASS_FLOW\n\n                    MARKER_INLET= west"
    );
    assert_eq!(
        InletType::IncPressureInlet(String::new()).to_input(),
        "INLET_TYPE= PRESSURE_INLET\n\n                    MARKER_INLET= "
    );
}

#[test]
fn a_supersonic_inlet_writes_one_entry() {
    assert_eq!(
        supersonic().to_input(),
        "MARKER_SUPERSONIC_INLET= ( inlet, 300, 101325, 600, 0, 0 )"
    );
}
