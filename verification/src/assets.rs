//! Lookup tables standing in for the asset and cost collaborators.
//!
//! Visual assets (scenes, meshes, materials) and inventories are owned by
//! external collaborators; this crate only forwards their handles, so each
//! handle is an opaque identifier. Handles are shared: many entities may
//! carry the same identifier without duplicating the underlying asset.

use vstd::prelude::*;
use crate::actions::{GhostKind, TerraformingAction, TerrainId};

verus! {

/// Opaque identifier of a loaded visual asset (scene, mesh or material).
pub type AssetId = u64;

/// Opaque identifier of a resource inventory previewed on a ghost.
pub type InventoryId = u64;

/// Visual handles for terrain: one scene per terrain type, plus the shared
/// column and topper assets.
pub struct TerrainHandles {
    /// Scene handle for each known terrain type.
    pub scenes: Vec<(TerrainId, AssetId)>,
    /// Mesh used for the tile topper and its oversized overlay copy.
    pub topper_mesh: AssetId,
    /// Mesh of the decorative column under each tile.
    pub column_mesh: AssetId,
    /// Material of the decorative column.
    pub column_material: AssetId,
}

impl TerrainHandles {
    /// The scene handle recorded for `id`, if the terrain type is known.
    pub open spec fn scene_at(self, id: TerrainId) -> Option<AssetId>
        decreases self.scenes@.len(),
    {
        scene_lookup(self.scenes@, id)
    }

    /// Looks up the scene handle of a terrain type; `None` means the type
    /// is unknown to the manifest.
    pub fn get_scene(&self, id: TerrainId) -> (r: Option<AssetId>)
        ensures
            r == self.scene_at(id),
    {
        let mut i: usize = 0;
        proof {
            assert(self.scenes@.skip(0) =~= self.scenes@);
        }
        while i < self.scenes.len()
            invariant
                i <= self.scenes@.len(),
                scene_lookup(self.scenes@, id) == scene_lookup(self.scenes@.skip(i as int), id),
            decreases self.scenes@.len() - i,
        {
            let (tid, scene) = self.scenes[i];
            proof {
                assert(self.scenes@.skip(i as int)[0] == self.scenes@[i as int]);
                assert(self.scenes@.skip(i as int).skip(1) =~= self.scenes@.skip(i as int + 1));
            }
            if tid == id {
                return Some(scene);
            }
            i = i + 1;
        }
        None
    }
}

/// First-match lookup in an association sequence of terrain scenes.
pub open spec fn scene_lookup(s: Seq<(TerrainId, AssetId)>, id: TerrainId) -> Option<AssetId>
    decreases s.len(),
{
    if s.len() == 0 {
        None
    } else if s[0].0 == id {
        Some(s[0].1)
    } else {
        scene_lookup(s.skip(1), id)
    }
}

/// Tint materials distinguishing ghosts from previews.
pub struct GhostHandles {
    /// Material tint of persistent ghosts.
    pub ghost_material: AssetId,
    /// Material tint of transient previews.
    pub preview_material: AssetId,
}

impl GhostHandles {
    /// The tint recorded for the given overlay kind.
    pub open spec fn material_of(self, kind: GhostKind) -> AssetId {
        match kind {
            GhostKind::Persistent => self.ghost_material,
            GhostKind::Preview => self.preview_material,
        }
    }

    /// Returns the tint material for the given overlay kind.
    pub fn get_material(&self, kind: GhostKind) -> (r: AssetId)
        ensures
            r == self.material_of(kind),
    {
        match kind {
            GhostKind::Persistent => self.ghost_material,
            GhostKind::Preview => self.preview_material,
        }
    }
}

/// Resource costs of each terraforming action, previewed on ghosts; the
/// inventories themselves are opaque to this crate.
pub struct TerraformCosts {
    /// Inventory consumed by a raise.
    pub raise_input: InventoryId,
    /// Inventory produced by a raise.
    pub raise_output: InventoryId,
    /// Inventory consumed by a lower.
    pub lower_input: InventoryId,
    /// Inventory produced by a lower.
    pub lower_output: InventoryId,
    /// Inventory consumed by a type change.
    pub change_input: InventoryId,
    /// Inventory produced by a type change.
    pub change_output: InventoryId,
}

impl TerraformCosts {
    /// The inventory an action consumes.
    pub open spec fn input_of(self, action: TerraformingAction) -> InventoryId {
        match action {
            TerraformingAction::Raise => self.raise_input,
            TerraformingAction::Lower => self.lower_input,
            TerraformingAction::Change(_) => self.change_input,
        }
    }

    /// The inventory an action produces.
    pub open spec fn output_of(self, action: TerraformingAction) -> InventoryId {
        match action {
            TerraformingAction::Raise => self.raise_output,
            TerraformingAction::Lower => self.lower_output,
            TerraformingAction::Change(_) => self.change_output,
        }
    }

    /// Returns the inventory the action consumes.
    pub fn input_inventory(&self, action: TerraformingAction) -> (r: InventoryId)
        ensures
            r == self.input_of(action),
    {
        match action {
            TerraformingAction::Raise => self.raise_input,
            TerraformingAction::Lower => self.lower_input,
            TerraformingAction::Change(_) => self.change_input,
        }
    }

    /// Returns the inventory the action produces.
    pub fn output_inventory(&self, action: TerraformingAction) -> (r: InventoryId)
        ensures
            r == self.output_of(action),
    {
        match action {
            TerraformingAction::Raise => self.raise_output,
            TerraformingAction::Lower => self.lower_output,
            TerraformingAction::Change(_) => self.change_output,
        }
    }
}

} // verus!
