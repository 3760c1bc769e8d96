//! Tile coordinates and discrete elevation.
//!
//! A tile is addressed by a 2D grid coordinate. Elevation is measured in
//! whole raise/lower steps; raising and lowering saturate at the numeric
//! limits so that both operations are total and never panic.

use vstd::prelude::*;

verus! {

/// A discrete 2D grid coordinate addressing one tile of the world.
#[derive(Clone, Copy, PartialEq, Eq, Structural, Debug)]
pub struct TilePos {
    /// Column of the tile.
    pub x: i64,
    /// Row of the tile.
    pub y: i64,
}

impl TilePos {
    /// Builds the coordinate (x, y).
    pub fn new(x: i64, y: i64) -> (r: TilePos)
        ensures
            r == (TilePos { x, y }),
    {
        TilePos { x, y }
    }
}

/// Elevation of a tile, counted in whole terraforming steps.
#[derive(Clone, Copy, PartialEq, Eq, Structural, Debug)]
pub struct Height {
    /// Number of unit steps above the world's base level.
    pub steps: i64,
}

impl Height {
    /// The elevation one step above `self`; saturates at the upper limit.
    pub open spec fn raised(self) -> Height {
        if self.steps == i64::MAX {
            self
        } else {
            Height { steps: (self.steps + 1) as i64 }
        }
    }

    /// The elevation one step below `self`; saturates at the lower limit.
    pub open spec fn lowered(self) -> Height {
        if self.steps == i64::MIN {
            self
        } else {
            Height { steps: (self.steps - 1) as i64 }
        }
    }

    /// Builds an elevation of `steps` unit steps.
    pub fn new(steps: i64) -> (r: Height)
        ensures
            r == (Height { steps }),
    {
        Height { steps }
    }

    /// Raises the elevation by one unit step, saturating at the upper limit.
    pub fn raise(&mut self)
        ensures
            *final(self) == old(self).raised(),
    {
        if self.steps < i64::MAX {
            self.steps = self.steps + 1;
        }
    }

    /// Lowers the elevation by one unit step, saturating at the lower limit.
    pub fn lower(&mut self)
        ensures
            *final(self) == old(self).lowered(),
    {
        if self.steps > i64::MIN {
            self.steps = self.steps - 1;
        }
    }
}

/// Raising and then lowering restores the starting elevation exactly,
/// as long as the raise did not saturate at the upper limit.
pub proof fn lemma_raise_then_lower_restores(h: Height)
    requires
        h.steps < i64::MAX,
    ensures
        h.raised().lowered() == h,
{
}

/// Lowering and then raising restores the starting elevation exactly,
/// as long as the lower did not saturate at the lower limit.
pub proof fn lemma_lower_then_raise_restores(h: Height)
    requires
        h.steps > i64::MIN,
    ensures
        h.lowered().raised() == h,
{
}

} // verus!
