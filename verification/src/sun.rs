//! The central sun: the fixed body the player orbits.
use vstd::prelude::*;

use crate::consts::SUN_STARTING_RADIUS;

verus! {

/// The sun at the centre of the orbit. Its radius is fixed for the duration
/// of one session and offsets all edge-relative radii when converting to
/// absolute coordinates.
#[derive(Clone, Copy, Debug, PartialEq, Eq, Structural)]
pub struct Sun {
    /// Radius of the sun itself, in milli-units.
    pub radius: i64,
}

impl Sun {
    /// The sun's radius is positive and small enough that absolute radii
    /// stay far from the integer bounds.
    pub open spec fn wf(self) -> bool {
        0 < self.radius <= 100 * SUN_STARTING_RADIUS
    }

    /// The absolute orbital radius of an item at the given distance from
    /// the sun's edge, in milli-units.
    pub fn absolute_radius(&self, edge_radius: i64) -> (r: i64)
        requires
            self.wf(),
            -100 * SUN_STARTING_RADIUS <= edge_radius <= 100 * SUN_STARTING_RADIUS,
        ensures
            r == self.radius + edge_radius,
    {
        self.radius + edge_radius
    }
}

impl Default for Sun {
    /// A session starts with the nominal sun.
    fn default() -> (d: Self)
        ensures
            d.radius == SUN_STARTING_RADIUS,
            d.wf(),
    {
        Sun { radius: SUN_STARTING_RADIUS }
    }
}

} // verus!
