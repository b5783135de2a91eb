//! Compass bearings bucketed into the eight principal octants.
//!
//! A bearing is held in millionths of a degree. The circle is split into
//! eight contiguous 45-degree buckets centered on the principal directions,
//! with bucket boundaries at 22.5, 67.5, 112.5, 157.5, 202.5, 247.5, 292.5
//! and 337.5 degrees. The tie-break is uniform: a bearing exactly on a
//! boundary belongs to the bucket clockwise of it (each bucket includes its
//! lower boundary and excludes its upper one, and the north bucket wraps
//! across 0/360, closing at 337.5). Out-of-range bearings are not corrected:
//! anything below 22.5 (negatives included) or at or above 337.5 (values
//! past 360 included) falls in the north bucket.

use vstd::prelude::*;

verus! {

/// One of the eight principal compass directions.
#[derive(Clone, Copy, Debug, PartialEq, Eq, Structural)]
pub enum Octant {
    North,
    NorthEast,
    East,
    SouthEast,
    South,
    SouthWest,
    West,
    NorthWest,
}

/// The octant of a bearing given in millionths of a degree.
pub open spec fn spec_octant_of(d: int) -> Octant {
    if d < 22_500_000 {
        Octant::North
    } else if d < 67_500_000 {
        Octant::NorthEast
    } else if d < 112_500_000 {
        Octant::East
    } else if d < 157_500_000 {
        Octant::SouthEast
    } else if d < 202_500_000 {
        Octant::South
    } else if d < 247_500_000 {
        Octant::SouthWest
    } else if d < 292_500_000 {
        Octant::West
    } else if d < 337_500_000 {
        Octant::NorthWest
    } else {
        Octant::North
    }
}

/// The center bearing of an octant, in millionths of a degree.
pub open spec fn spec_octant_center(o: Octant) -> int {
    match o {
        Octant::North => 0,
        Octant::NorthEast => 45_000_000,
        Octant::East => 90_000_000,
        Octant::SouthEast => 135_000_000,
        Octant::South => 180_000_000,
        Octant::SouthWest => 225_000_000,
        Octant::West => 270_000_000,
        Octant::NorthWest => 315_000_000,
    }
}

/// The arrow-and-letter glyph an octant renders as.
pub open spec fn spec_octant_glyph(o: Octant) -> Seq<char> {
    match o {
        Octant::North => "⬇ N"@,
        Octant::NorthEast => "↙  NE"@,
        Octant::East => "⬅ E"@,
        Octant::SouthEast => "↖ SE"@,
        Octant::South => "⬆ S"@,
        Octant::SouthWest => "↗ SW"@,
        Octant::West => "➡ W"@,
        Octant::NorthWest => "↘  NW"@,
    }
}

/// Buckets a bearing (millionths of a degree) into its octant.
pub fn octant_of(d: i64) -> (r: Octant)
    ensures
        r == spec_octant_of(d as int),
{
    if d < 22_500_000 {
        Octant::North
    } else if d < 67_500_000 {
        Octant::NorthEast
    } else if d < 112_500_000 {
        Octant::East
    } else if d < 157_500_000 {
        Octant::SouthEast
    } else if d < 202_500_000 {
        Octant::South
    } else if d < 247_500_000 {
        Octant::SouthWest
    } else if d < 292_500_000 {
        Octant::West
    } else if d < 337_500_000 {
        Octant::NorthWest
    } else {
        Octant::North
    }
}

impl Octant {
    /// The arrow-and-letter glyph.
    pub fn glyph(&self) -> (r: &'static str)
        ensures
            r@ == spec_octant_glyph(*self),
    {
        match self {
            Octant::North => "⬇ N",
            Octant::NorthEast => "↙  NE",
            Octant::East => "⬅ E",
            Octant::SouthEast => "↖ SE",
            Octant::South => "⬆ S",
            Octant::SouthWest => "↗ SW",
            Octant::West => "➡ W",
            Octant::NorthWest => "↘  NW",
        }
    }
}

/// Law: a bearing at any octant's center degree falls in that octant.
pub proof fn lemma_center_in_own_octant(o: Octant)
    ensures
        spec_octant_of(spec_octant_center(o)) == o,
{
}

/// Law: a bearing exactly on a bucket boundary falls in the bucket
/// clockwise of the boundary.
pub proof fn lemma_boundary_tie_break()
    ensures
        spec_octant_of(22_500_000) == Octant::NorthEast,
        spec_octant_of(67_500_000) == Octant::East,
        spec_octant_of(112_500_000) == Octant::SouthEast,
        spec_octant_of(157_500_000) == Octant::South,
        spec_octant_of(202_500_000) == Octant::SouthWest,
        spec_octant_of(247_500_000) == Octant::West,
        spec_octant_of(292_500_000) == Octant::NorthWest,
        spec_octant_of(337_500_000) == Octant::North,
{
}

} // verus!
