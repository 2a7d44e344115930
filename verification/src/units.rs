//! Unit systems and the kinds of quantity that are shown in either of them.

use crate::text::str_eq;
use vstd::prelude::*;
use vstd::std_specs::convert::FromSpecImpl;
use vstd::string::*;

verus! {

/// System of units in which a design was entered.
#[derive(Clone, Copy, Debug, PartialEq, Eq, Structural)]
pub enum Units {
    Imperial,
    Metric,
}

/// Kind of physical quantity, which selects the conversion between systems.
#[derive(Clone, Copy, Debug, PartialEq, Eq, Structural)]
pub enum UnitType {
    LengthSmall,
    LengthLong,
    Area,
    Weight,
    Power,
    WeightPerArea,
}

impl Units {
    /// The unit system that a code of a SpringSharp ship file selects: `"1"` is
    /// metric, anything else imperial.
    pub open spec fn of_code(code: Seq<char>) -> Units {
        if code == "1"@ {
            Units::Metric
        } else {
            Units::Imperial
        }
    }

    /// Lower-case name of the unit system.
    pub open spec fn name(self) -> Seq<char> {
        match self {
            Units::Imperial => "imperial"@,
            Units::Metric => "metric"@,
        }
    }

    /// Name of the unit system as shown to the user.
    pub fn to_string(&self) -> (s: String)
        ensures
            s@ == self.name(),
    {
        match self {
            Units::Imperial => String::from_str("imperial"),
            Units::Metric => String::from_str("metric"),
        }
    }
}

impl Default for Units {
    fn default() -> (r: Units)
        ensures
            r == Units::Imperial,
    {
        Units::Imperial
    }
}

impl From<&str> for Units {
    fn from(index: &str) -> (r: Units) {
        if str_eq(index, "1") {
            Units::Metric
        } else {
            Units::Imperial
        }
    }
}

impl FromSpecImpl<&str> for Units {
    open spec fn obeys_from_spec() -> bool {
        true
    }

    open spec fn from_spec(index: &str) -> Units {
        Units::of_code(index@)
    }
}

impl From<String> for Units {
    fn from(index: String) -> (r: Units) {
        Units::from(index.as_str())
    }
}

impl FromSpecImpl<String> for Units {
    open spec fn obeys_from_spec() -> bool {
        true
    }

    open spec fn from_spec(index: String) -> Units {
        Units::of_code(index@)
    }
}

} // verus!
