//! Terraforming actions and the pure resolver that previews their effect.
//!
//! An action either raises the tile by one step, lowers it by one step, or
//! replaces the terrain type while leaving the elevation alone. The resolver
//! computes the previewed elevation and terrain type without touching any
//! committed state.

use vstd::prelude::*;
use crate::geometry::Height;

verus! {

/// Identifier of a terrain type (e.g. grass, stone), assigned by the
/// terrain manifest collaborator and opaque to this crate.
pub type TerrainId = u64;

/// An edit operation pending or applied at a tile.
#[derive(Clone, Copy, PartialEq, Eq, Structural, Debug)]
pub enum TerraformingAction {
    /// Increase the tile's elevation by one unit step.
    Raise,
    /// Decrease the tile's elevation by one unit step.
    Lower,
    /// Replace the tile's terrain type; elevation is unchanged.
    Change(TerrainId),
}

/// Which kind of overlay entity a spawn request builds.
#[derive(Clone, Copy, PartialEq, Eq, Structural, Debug)]
pub enum GhostKind {
    /// A persistent ghost preview, registered in the spatial index; at most
    /// one per tile.
    Persistent,
    /// A transient preview, never registered; its lifecycle belongs to
    /// whoever spawned it.
    Preview,
}

/// Per-tile marker recording whether an edit has been requested and not yet
/// resolved.
#[derive(Clone, Copy, PartialEq, Eq, Structural, Debug)]
pub enum Zoning {
    /// No edit is pending at the tile.
    Clear,
    /// An edit has been requested and awaits application.
    Requested(TerraformingAction),
}

impl TerraformingAction {
    /// The elevation the tile would have after this action: one step up for
    /// raise, one step down for lower, unchanged for a type change.
    pub open spec fn previewed_height_spec(self, current: Height) -> Height {
        match self {
            TerraformingAction::Raise => current.raised(),
            TerraformingAction::Lower => current.lowered(),
            TerraformingAction::Change(_) => current,
        }
    }

    /// The terrain type the tile would have after this action.
    pub open spec fn previewed_terrain_spec(self, current: TerrainId) -> TerrainId {
        match self {
            TerraformingAction::Change(id) => id,
            _ => current,
        }
    }

    /// Computes the elevation previewed by this action at the given current
    /// elevation, without mutating any committed state.
    pub fn previewed_height(&self, current: Height) -> (r: Height)
        ensures
            r == self.previewed_height_spec(current),
    {
        match self {
            TerraformingAction::Raise => {
                let mut h = current;
                h.raise();
                h
            },
            TerraformingAction::Lower => {
                let mut h = current;
                h.lower();
                h
            },
            TerraformingAction::Change(_) => current,
        }
    }

    /// Computes the terrain type previewed by this action.
    pub fn previewed_terrain(&self, current: TerrainId) -> (r: TerrainId)
        ensures
            r == self.previewed_terrain_spec(current),
    {
        match self {
            TerraformingAction::Change(id) => *id,
            _ => current,
        }
    }
}

/// A type change previews the current elevation unchanged, and raise
/// followed by lower previews the starting elevation exactly when the
/// raise did not saturate at the upper limit.
pub proof fn lemma_preview_height_bookkeeping(h: Height, id: TerrainId)
    requires
        h.steps < i64::MAX,
    ensures
        TerraformingAction::Change(id).previewed_height_spec(h) == h,
        TerraformingAction::Lower.previewed_height_spec(
            TerraformingAction::Raise.previewed_height_spec(h),
        ) == h,
{
}

} // verus!
