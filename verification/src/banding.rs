//! Severity banding of temperatures and dewpoints for display emphasis.
//!
//! Two step functions over a fixed ladder of Fahrenheit thresholds. A value
//! flagged as Celsius is first converted to Fahrenheit (`v * 1.8 + 32`); the
//! conversion is carried out exactly by comparing five times the Fahrenheit
//! equivalent against five times each threshold, so no precision is lost.
//! A value exactly at a threshold falls in the lower tier: the comparison is
//! strictly greater-than.

use vstd::prelude::*;

verus! {

/// Display-only severity tier, most severe first.
#[derive(Clone, Copy, Debug, PartialEq, Eq, Structural)]
pub enum Severity {
    Extreme,
    Severe,
    High,
    Elevated,
    Moderate,
    Mild,
    Low,
    Minimal,
}

/// Five times the Fahrenheit equivalent of a value in millionths:
/// `5 * (v * 1.8 + 32)` when the value is Celsius, else `5 * v`.
pub open spec fn spec_f_times5(v: int, celsius: bool) -> int {
    if celsius {
        v * 9 + 160_000_000
    } else {
        v * 5
    }
}

/// The temperature ladder: strictly above 95, 85, 75, 65, 55, 45, 35
/// degrees Fahrenheit, else the lowest tier.
pub open spec fn spec_temp_band(v: int, celsius: bool) -> Severity {
    let f5 = spec_f_times5(v, celsius);
    if f5 > 475_000_000 {
        Severity::Extreme
    } else if f5 > 425_000_000 {
        Severity::Severe
    } else if f5 > 375_000_000 {
        Severity::High
    } else if f5 > 325_000_000 {
        Severity::Elevated
    } else if f5 > 275_000_000 {
        Severity::Moderate
    } else if f5 > 225_000_000 {
        Severity::Mild
    } else if f5 > 175_000_000 {
        Severity::Low
    } else {
        Severity::Minimal
    }
}

/// The dewpoint ladder: strictly above 80, 74, 69, 64, 59, 54 degrees
/// Fahrenheit, else the lowest tier.
pub open spec fn spec_dewpoint_band(v: int, celsius: bool) -> Severity {
    let f5 = spec_f_times5(v, celsius);
    if f5 > 400_000_000 {
        Severity::Extreme
    } else if f5 > 370_000_000 {
        Severity::Severe
    } else if f5 > 345_000_000 {
        Severity::High
    } else if f5 > 320_000_000 {
        Severity::Elevated
    } else if f5 > 295_000_000 {
        Severity::Moderate
    } else if f5 > 270_000_000 {
        Severity::Mild
    } else {
        Severity::Minimal
    }
}

/// The table style code a severity tier renders as.
pub open spec fn spec_style_code(s: Severity) -> Seq<char> {
    match s {
        Severity::Extreme => "FRc"@,
        Severity::Severe => "Frc"@,
        Severity::High => "FYc"@,
        Severity::Elevated => "Fyc"@,
        Severity::Moderate => "FGc"@,
        Severity::Mild => "Fgc"@,
        Severity::Low => "Fcc"@,
        Severity::Minimal => "Fbc"@,
    }
}

/// Five times the Fahrenheit equivalent, computed exactly.
fn f_times5(v: i64, celsius: bool) -> (r: i64)
    requires
        -crate::fixed::MAX_ABS <= v <= crate::fixed::MAX_ABS,
    ensures
        r == spec_f_times5(v as int, celsius),
{
    if celsius {
        v * 9 + 160_000_000
    } else {
        v * 5
    }
}

/// Bands a temperature (millionths of a degree) into its severity tier.
pub fn temp_band(v: i64, celsius: bool) -> (r: Severity)
    requires
        -crate::fixed::MAX_ABS <= v <= crate::fixed::MAX_ABS,
    ensures
        r == spec_temp_band(v as int, celsius),
{
    let f5 = f_times5(v, celsius);
    if f5 > 475_000_000 {
        Severity::Extreme
    } else if f5 > 425_000_000 {
        Severity::Severe
    } else if f5 > 375_000_000 {
        Severity::High
    } else if f5 > 325_000_000 {
        Severity::Elevated
    } else if f5 > 275_000_000 {
        Severity::Moderate
    } else if f5 > 225_000_000 {
        Severity::Mild
    } else if f5 > 175_000_000 {
        Severity::Low
    } else {
        Severity::Minimal
    }
}

/// Bands a dewpoint (millionths of a degree) into its severity tier.
pub fn dewpoint_band(v: i64, celsius: bool) -> (r: Severity)
    requires
        -crate::fixed::MAX_ABS <= v <= crate::fixed::MAX_ABS,
    ensures
        r == spec_dewpoint_band(v as int, celsius),
{
    let f5 = f_times5(v, celsius);
    if f5 > 400_000_000 {
        Severity::Extreme
    } else if f5 > 370_000_000 {
        Severity::Severe
    } else if f5 > 345_000_000 {
        Severity::High
    } else if f5 > 320_000_000 {
        Severity::Elevated
    } else if f5 > 295_000_000 {
        Severity::Moderate
    } else if f5 > 270_000_000 {
        Severity::Mild
    } else {
        Severity::Minimal
    }
}

impl Severity {
    /// The table style code.
    pub fn style_code(&self) -> (r: &'static str)
        ensures
            r@ == spec_style_code(*self),
    {
        match self {
            Severity::Extreme => "FRc",
            Severity::Severe => "Frc",
            Severity::High => "FYc",
            Severity::Elevated => "Fyc",
            Severity::Moderate => "FGc",
            Severity::Mild => "Fgc",
            Severity::Low => "Fcc",
            Severity::Minimal => "Fbc",
        }
    }
}

/// The style code of a banded temperature.
pub fn temp_color(v: i64, celsius: bool) -> (r: &'static str)
    requires
        -crate::fixed::MAX_ABS <= v <= crate::fixed::MAX_ABS,
    ensures
        r@ == spec_style_code(spec_temp_band(v as int, celsius)),
{
    temp_band(v, celsius).style_code()
}

/// The style code of a banded dewpoint.
pub fn dewpoint_color(v: i64, celsius: bool) -> (r: &'static str)
    requires
        -crate::fixed::MAX_ABS <= v <= crate::fixed::MAX_ABS,
    ensures
        r@ == spec_style_code(spec_dewpoint_band(v as int, celsius)),
{
    dewpoint_band(v, celsius).style_code()
}

} // verus!
