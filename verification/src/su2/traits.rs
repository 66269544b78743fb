//! How an option is written into an SU2 configuration file.

use vstd::prelude::*;
use vstd::string::StringExecFns;
use crate::su2::enums::{InletType, SolverType};

verus! {

/// An option with a name and a value, written as one entry.
pub trait AsInput {
    /// The name of the option.
    spec fn spec_option_name() -> Seq<char>;

    /// The keyword of the chosen variant.
    spec fn spec_name(&self) -> Seq<char>;

    /// The value of the option.
    spec fn spec_value(&self) -> Seq<char>;

    /// The entry of the option in a configuration file.
    spec fn spec_input(&self) -> Seq<char>;

    /// The name of the option.
    fn option_name() -> (name: &'static str)
        ensures
            name@ == Self::spec_option_name(),
    ;

    /// The keyword of the chosen variant.
    fn to_name(&self) -> (name: String)
        ensures
            name@ == self.spec_name(),
    ;

    /// The value of the option.
    fn to_value(&self) -> (value: String)
        ensures
            value@ == self.spec_value(),
    ;

    /// The entry of the option in a configuration file.
    fn to_input(&self) -> (entry: String)
        ensures
            entry@ == self.spec_input(),
    ;
}

/// Something that writes itself as an entry of an SU2 configuration file.
pub trait SU2InputEntry {
    /// The entry.
    spec fn spec_su2_input(&self) -> Seq<char>;

    /// The entry.
    fn to_su2_input(&self) -> (entry: String)
        ensures
            entry@ == self.spec_su2_input(),
    ;
}

impl AsInput for SolverType {
    open spec fn spec_option_name() -> Seq<char> {
        "SOLVER"@
    }

    open spec fn spec_name(&self) -> Seq<char> {
        self.spec_keyword()
    }

    open spec fn spec_value(&self) -> Seq<char> {
        self.spec_keyword()
    }

    /// The name of the option, `= ` and the solver's keyword.
    open spec fn spec_input(&self) -> Seq<char> {
        "SOLVER"@ + "= "@ + self.spec_keyword()
    }

    fn option_name() -> (name: &'static str) {
        "SOLVER"
    }

    fn to_name(&self) -> (name: String) {
        String::from_str(self.keyword())
    }

    fn to_value(&self) -> (value: String) {
        self.to_name()
    }

    fn to_input(&self) -> (entry: String) {
        let mut entry = String::from_str(Self::option_name());
        entry.append("= ");
        entry.append(self.keyword());
        entry
    }
}

impl SU2InputEntry for SolverType {
    /// `SOLVER= ` and the solver's keyword.
    open spec fn spec_su2_input(&self) -> Seq<char> {
        "SOLVER= "@ + self.spec_keyword()
    }

    fn to_su2_input(&self) -> (entry: String) {
        let mut entry = String::from_str("SOLVER= ");
        entry.append(self.keyword());
        entry
    }
}

impl AsInput for InletType {
    open spec fn spec_option_name() -> Seq<char> {
        "INLET_TYPE"@
    }

    open spec fn spec_name(&self) -> Seq<char> {
        self.spec_keyword()
    }

    /// The marker; for a supersonic inlet the marker and the state of the
    /// flow, in parentheses.
    open spec fn spec_value(&self) -> Seq<char> {
        match self {
            InletType::TotalConditionsInlet(marker) => marker@,
            InletType::MassFlowInlet(marker) => marker@,
            InletType::IncVelocityInlet(marker) => marker@,
            InletType::IncPressureInlet(marker) => marker@,
            InletType::SupersonicInlet(marker, temperature, pressure, velocity) => "( "@ + marker@
                + ", "@ + temperature@ + ", "@ + pressure@ + ", "@ + velocity@ + " )"@,
        }
    }

    /// A supersonic inlet is one entry under its own keyword. Any other
    /// is two entries a line apart: the kind of inlet, and the marker it
    /// applies to, which stands indented.
    open spec fn spec_input(&self) -> Seq<char> {
        match self {
            InletType::SupersonicInlet(..) => self.spec_keyword() + "= "@ + self.spec_value(),
            _ => "INLET_TYPE"@ + "= "@ + self.spec_keyword()
                + "\n\n                    MARKER_INLET= "@ + self.spec_value(),
        }
    }

    fn option_name() -> (name: &'static str) {
        "INLET_TYPE"
    }

    fn to_name(&self) -> (name: String) {
        String::from_str(self.keyword())
    }

    fn to_value(&self) -> (value: String) {
        match self {
            InletType::TotalConditionsInlet(marker) => marker.clone(),
            InletType::MassFlowInlet(marker) => marker.clone(),
            InletType::IncVelocityInlet(marker) => marker.clone(),
            InletType::IncPressureInlet(marker) => marker.clone(),
            InletType::SupersonicInlet(marker, temperature, pressure, velocity) => {
                let mut value = String::from_str("( ");
                value.append(marker.as_str());
                value.append(", ");
                value.append(temperature.as_str());
                value.append(", ");
                value.append(pressure.as_str());
                value.append(", ");
                value.append(velocity.as_str());
                value.append(" )");
                value
            },
        }
    }

    fn to_input(&self) -> (entry: String) {
        let value = self.to_value();
        match self {
            InletType::SupersonicInlet(..) => {
                let mut entry = String::from_str(self.keyword());
                entry.append("= ");
                entry.append(value.as_str());
                entry
            },
            _ => {
                let mut entry = String::from_str(Self::option_name());
                entry.append("= ");
                entry.append(self.keyword());
                entry.append("\n\n                    MARKER_INLET= ");
                entry.append(value.as_str());
                entry
            },
        }
    }
}

} // verus!
