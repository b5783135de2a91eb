//! The closed set of measurement units the wire format uses.

use vstd::prelude::*;
use crate::strutil::str_eq;

verus! {

/// Unit tag of a measurement. Each unit is spelled on the wire either as the
/// variant's own name or as its canonical abbreviation; any other string is a
/// schema mismatch.
#[derive(Clone, Copy, Debug, PartialEq, Eq, Structural)]
pub enum Unit {
    F,
    C,
    MPH,
    MS,
    HPA,
    INHG,
}

/// Which unit, if any, a wire spelling denotes.
pub open spec fn spec_unit_from_wire(s: Seq<char>) -> Option<Unit> {
    if s == "F"@ {
        Some(Unit::F)
    } else if s == "C"@ {
        Some(Unit::C)
    } else if s == "mph"@ || s == "MPH"@ {
        Some(Unit::MPH)
    } else if s == "m/s"@ || s == "MS"@ {
        Some(Unit::MS)
    } else if s == "hPa"@ || s == "HPA"@ {
        Some(Unit::HPA)
    } else if s == "inHg"@ || s == "INHG"@ {
        Some(Unit::INHG)
    } else {
        None
    }
}

/// The canonical abbreviation a unit renders as.
pub open spec fn spec_unit_abbrev(u: Unit) -> Seq<char> {
    match u {
        Unit::F => "F"@,
        Unit::C => "C"@,
        Unit::MPH => "mph"@,
        Unit::MS => "m/s"@,
        Unit::HPA => "hPa"@,
        Unit::INHG => "inHg"@,
    }
}

impl Unit {
    /// Parses a wire spelling; `None` exactly when the spelling is unknown.
    pub fn from_wire(s: &str) -> (r: Option<Unit>)
        ensures
            r == spec_unit_from_wire(s@),
    {
        if str_eq(s, "F") {
            Some(Unit::F)
        } else if str_eq(s, "C") {
            Some(Unit::C)
        } else if str_eq(s, "mph") || str_eq(s, "MPH") {
            Some(Unit::MPH)
        } else if str_eq(s, "m/s") || str_eq(s, "MS") {
            Some(Unit::MS)
        } else if str_eq(s, "hPa") || str_eq(s, "HPA") {
            Some(Unit::HPA)
        } else if str_eq(s, "inHg") || str_eq(s, "INHG") {
            Some(Unit::INHG)
        } else {
            None
        }
    }

    /// The canonical abbreviation, used as the rendered suffix.
    pub fn abbrev(&self) -> (r: &'static str)
        ensures
            r@ == spec_unit_abbrev(*self),
    {
        match self {
            Unit::F => "F",
            Unit::C => "C",
            Unit::MPH => "mph",
            Unit::MS => "m/s",
            Unit::HPA => "hPa",
            Unit::INHG => "inHg",
        }
    }
}

} // verus!
