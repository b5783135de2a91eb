//! Measurement value types: a fixed-point value paired with a unit tag,
//! each with its fixed-precision rendering rule.

use vstd::prelude::*;
use vstd::string::StringExecFns;
use crate::fixed::{MAX_ABS, spec_render_scaled, render_scaled};
use crate::units::{Unit, spec_unit_abbrev};
use crate::compass::{Octant, spec_octant_of, spec_octant_glyph, octant_of};

verus! {

/// A temperature: value in millionths of a degree, Fahrenheit or Celsius.
#[derive(Clone, Copy, Debug, PartialEq, Eq, Structural)]
pub struct TempLike {
    pub value: i64,
    pub units: Unit,
}

/// A percentage: value in millionths of a percent.
#[derive(Clone, Copy, Debug, PartialEq, Eq, Structural)]
pub struct PercentLike {
    pub value: i64,
}

/// A speed: value in millionths of a unit, miles per hour or meters per
/// second.
#[derive(Clone, Copy, Debug, PartialEq, Eq, Structural)]
pub struct SpeedLike {
    pub value: i64,
    pub units: Unit,
}

/// A barometric pressure: value in millionths of a unit, hectopascals or
/// inches of mercury.
#[derive(Clone, Copy, Debug, PartialEq, Eq, Structural)]
pub struct PressureLike {
    pub value: i64,
    pub units: Unit,
}

/// A compass bearing: degrees in millionths, nominally within one turn.
#[derive(Clone, Copy, Debug, PartialEq, Eq, Structural)]
pub struct CompassLike {
    pub degrees: i64,
}

/// The rendering of a temperature: one decimal, a degree sign, the unit.
pub open spec fn spec_temp_render(t: TempLike) -> Seq<char> {
    spec_render_scaled(t.value as int, 1) + "° "@ + spec_unit_abbrev(t.units)
}

/// The rendering of a percentage: one decimal and a percent sign.
pub open spec fn spec_percent_render(p: PercentLike) -> Seq<char> {
    spec_render_scaled(p.value as int, 1) + "%"@
}

/// The rendering of a speed: one decimal, a space, the unit.
pub open spec fn spec_speed_render(v: SpeedLike) -> Seq<char> {
    spec_render_scaled(v.value as int, 1) + " "@ + spec_unit_abbrev(v.units)
}

/// The rendering of a pressure: two decimals, a space, the unit.
pub open spec fn spec_pressure_render(v: PressureLike) -> Seq<char> {
    spec_render_scaled(v.value as int, 2) + " "@ + spec_unit_abbrev(v.units)
}

impl TempLike {
    /// The value's magnitude stays within the wire bound, and the unit is
    /// one of the two temperature scales.
    pub open spec fn wf(&self) -> bool {
        &&& -MAX_ABS <= self.value <= MAX_ABS
        &&& (self.units == Unit::F || self.units == Unit::C)
    }

    /// The sentinel a missing dewpoint defaults to: minus one degree
    /// Fahrenheit.
    pub open spec fn spec_default() -> TempLike {
        TempLike { value: -1_000_000i64, units: Unit::F }
    }

    /// Renders as one decimal, a degree sign, and the unit.
    pub fn render(&self) -> (r: String)
        requires
            self.wf(),
        ensures
            r@ == spec_temp_render(*self),
    {
        let mut s = render_scaled(self.value, 1);
        s.append("° ");
        s.append(self.units.abbrev());
        s
    }
}

impl Default for TempLike {
    /// The sentinel temperature.
    fn default() -> (r: TempLike)
        ensures
            r == TempLike::spec_default(),
    {
        TempLike { value: -1_000_000, units: Unit::F }
    }
}

impl PercentLike {
    /// The value's magnitude stays within the wire bound.
    pub open spec fn wf(&self) -> bool {
        -MAX_ABS <= self.value <= MAX_ABS
    }

    /// Renders as one decimal and a percent sign.
    pub fn render(&self) -> (r: String)
        requires
            self.wf(),
        ensures
            r@ == spec_percent_render(*self),
    {
        let mut s = render_scaled(self.value, 1);
        s.append("%");
        s
    }
}

impl SpeedLike {
    /// The value's magnitude stays within the wire bound, and the unit is
    /// one of the two speed units.
    pub open spec fn wf(&self) -> bool {
        &&& -MAX_ABS <= self.value <= MAX_ABS
        &&& (self.units == Unit::MPH || self.units == Unit::MS)
    }

    /// Renders as one decimal, a space, and the unit.
    pub fn render(&self) -> (r: String)
        requires
            self.wf(),
        ensures
            r@ == spec_speed_render(*self),
    {
        let mut s = render_scaled(self.value, 1);
        s.append(" ");
        s.append(self.units.abbrev());
        s
    }
}

impl PressureLike {
    /// The value's magnitude stays within the wire bound, and the unit is
    /// one of the two pressure units.
    pub open spec fn wf(&self) -> bool {
        &&& -MAX_ABS <= self.value <= MAX_ABS
        &&& (self.units == Unit::HPA || self.units == Unit::INHG)
    }

    /// Renders as two decimals, a space, and the unit.
    pub fn render(&self) -> (r: String)
        requires
            self.wf(),
        ensures
            r@ == spec_pressure_render(*self),
    {
        let mut s = render_scaled(self.value, 2);
        s.append(" ");
        s.append(self.units.abbrev());
        s
    }
}

impl CompassLike {
    /// The value's magnitude stays within the wire bound.
    pub open spec fn wf(&self) -> bool {
        -MAX_ABS <= self.degrees <= MAX_ABS
    }

    /// The octant the bearing falls in.
    pub fn octant(&self) -> (r: Octant)
        ensures
            r == spec_octant_of(self.degrees as int),
    {
        octant_of(self.degrees)
    }

    /// Renders as the octant's arrow-and-letter glyph.
    pub fn render(&self) -> (r: &'static str)
        ensures
            r@ == spec_octant_glyph(spec_octant_of(self.degrees as int)),
    {
        octant_of(self.degrees).glyph()
    }
}

} // verus!
