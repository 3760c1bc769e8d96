//! Entity composition templates: declarative recipes for building a
//! terrain, ghost or preview entity as a root plus a fixed, ordered set of
//! child entities.
//!
//! The order of a terrain entity's children is a hard invariant, because
//! consumers index them positionally: 0 is the decorative column, 1 the
//! hidden oversized overlay, 2 the visual scene root.

use vstd::prelude::*;
use crate::actions::{TerraformingAction, TerrainId, Zoning};
use crate::assets::{AssetId, GhostHandles, InventoryId, TerrainHandles};
use crate::geometry::{Height, TilePos};
use crate::world::{EntityId, Payload, Slot, World};

verus! {

/// Uniform overlay scale in thousandths: very slightly above 1000 (that
/// is, above 1.0), so the overlay never sits coplanar with the topper and
/// z-fights it.
pub const OVERLAY_OVERSIZE_PER_MILLE: u64 = 1001;

/// A fully-formed entity description: a root payload and its children's
/// payloads in spawn order.
pub struct Template {
    /// Payload of the root entity.
    pub root: Payload,
    /// Payloads of the children, in the order they are spawned.
    pub children: Vec<Payload>,
}

/// Root payload of a committed terrain entity.
pub open spec fn terrain_root_payload(
    tile: TilePos,
    height: Height,
    terrain_id: TerrainId,
    scene: AssetId,
) -> Payload {
    Payload::TerrainRoot { terrain_id, tile, height, scene, zoning: Zoning::Clear }
}

/// Children of a terrain entity, in their mandatory order: column,
/// overlay, scene root.
pub open spec fn terrain_children_payloads(handles: TerrainHandles, scene: AssetId) -> Seq<
    Payload,
> {
    seq![
        Payload::Column { mesh: handles.column_mesh, material: handles.column_material },
        Payload::OverlayTopper {
            mesh: handles.topper_mesh,
            visible: false,
            scale_per_mille: OVERLAY_OVERSIZE_PER_MILLE,
        },
        Payload::SceneRoot { scene },
    ]
}

/// Root payload of a persistent ghost entity.
pub open spec fn ghost_root_payload(
    tile: TilePos,
    action: TerraformingAction,
    material: AssetId,
    scene: AssetId,
    projected_height: Height,
    input_inventory: InventoryId,
    output_inventory: InventoryId,
) -> Payload {
    Payload::GhostRoot {
        action,
        tile,
        material,
        scene,
        projected_height,
        input_inventory,
        output_inventory,
    }
}

/// The single child of a ghost entity: its visual scene root.
pub open spec fn ghost_children_payloads(scene: AssetId) -> Seq<Payload> {
    seq![Payload::SceneRoot { scene }]
}

/// Root payload of a transient preview entity; it carries no resource
/// costs and gets no children beyond its own visual handle.
pub open spec fn preview_root_payload(
    tile: TilePos,
    action: TerraformingAction,
    material: AssetId,
    scene: AssetId,
    projected_height: Height,
) -> Payload {
    Payload::PreviewRoot { action, tile, material, scene, projected_height }
}

/// Builds the description of a committed terrain entity: the root carries
/// the terrain type, coordinate, elevation and visual handle, with a clear
/// zoning marker; children are the column, the hidden oversized overlay
/// and the scene root, in that order.
pub fn terrain_template(
    tile: TilePos,
    height: Height,
    terrain_id: TerrainId,
    scene: AssetId,
    handles: &TerrainHandles,
) -> (t: Template)
    ensures
        t.root == terrain_root_payload(tile, height, terrain_id, scene),
        t.children@ == terrain_children_payloads(*handles, scene),
{
    let mut children: Vec<Payload> = Vec::new();
    children.push(Payload::Column { mesh: handles.column_mesh, material: handles.column_material });
    children.push(
        Payload::OverlayTopper {
            mesh: handles.topper_mesh,
            visible: false,
            scale_per_mille: OVERLAY_OVERSIZE_PER_MILLE,
        },
    );
    children.push(Payload::SceneRoot { scene });
    proof {
        assert(children@ =~= terrain_children_payloads(*handles, scene));
    }
    Template {
        root: Payload::TerrainRoot { terrain_id, tile, height, scene, zoning: Zoning::Clear },
        children,
    }
}

/// Builds the description of a persistent ghost entity: the root carries
/// the previewed action, coordinate, tint, projected elevation and the
/// resource-cost previews; its one child is the visual scene root.
pub fn ghost_template(
    tile: TilePos,
    action: TerraformingAction,
    material: AssetId,
    scene: AssetId,
    projected_height: Height,
    input_inventory: InventoryId,
    output_inventory: InventoryId,
) -> (t: Template)
    ensures
        t.root == ghost_root_payload(
            tile,
            action,
            material,
            scene,
            projected_height,
            input_inventory,
            output_inventory,
        ),
        t.children@ == ghost_children_payloads(scene),
{
    let mut children: Vec<Payload> = Vec::new();
    children.push(Payload::SceneRoot { scene });
    proof {
        assert(children@ =~= ghost_children_payloads(scene));
    }
    Template {
        root: Payload::GhostRoot {
            action,
            tile,
            material,
            scene,
            projected_height,
            input_inventory,
            output_inventory,
        },
        children,
    }
}

/// Builds the description of a transient preview entity: only a root with
/// the action, coordinate, tint, visual handle and projected elevation.
pub fn preview_template(
    tile: TilePos,
    action: TerraformingAction,
    material: AssetId,
    scene: AssetId,
    projected_height: Height,
) -> (t: Template)
    ensures
        t.root == preview_root_payload(tile, action, material, scene, projected_height),
        t.children@ == Seq::<Payload>::empty(),
{
    let children: Vec<Payload> = Vec::new();
    proof {
        assert(children@ =~= Seq::<Payload>::empty());
    }
    Template { root: Payload::PreviewRoot { action, tile, material, scene, projected_height }, children }
}

/// How a store changes when a template is instantiated: existing slots are
/// untouched, the root is appended live and parentless, and each child is
/// appended live, in template order, with the root as parent.
pub open spec fn instantiated(
    pre: Seq<Slot>,
    post: Seq<Slot>,
    root: int,
    root_payload: Payload,
    children: Seq<Payload>,
) -> bool {
    &&& root == pre.len()
    &&& post.len() == pre.len() + 1 + children.len()
    &&& forall|e: int| 0 <= e < pre.len() ==> #[trigger] post[e] == pre[e]
    &&& post[root] == (Slot { alive: true, parent: None, payload: root_payload })
    &&& forall|k: int|
        0 <= k < children.len() ==> #[trigger] post[root + 1 + k] == (Slot {
            alive: true,
            parent: Some(root as EntityId),
            payload: children[k],
        })
}

impl Template {
    /// Spawns the template into the store: first the root, then each child
    /// in template order; returns the root's identifier.
    pub fn instantiate(&self, world: &mut World) -> (r: EntityId)
        requires
            old(world).wf(),
        ensures
            final(world).wf(),
            r == old(world).slots@.len(),
            instantiated(
                old(world).slots@,
                final(world).slots@,
                r as int,
                self.root,
                self.children@,
            ),
    {
        let root = world.spawn_root(self.root);
        let ghost mid = world.slots@;
        let mut k: usize = 0;
        while k < self.children.len()
            invariant
                world.wf(),
                k <= self.children@.len(),
                mid == old(world).slots@.push(
                    Slot { alive: true, parent: None, payload: self.root },
                ),
                root == old(world).slots@.len(),
                root < mid.len(),
                mid[root as int].alive,
                world.slots@.len() == mid.len() + k,
                forall|e: int| 0 <= e < mid.len() ==> #[trigger] world.slots@[e] == mid[e],
                forall|j: int|
                    0 <= j < k ==> #[trigger] world.slots@[mid.len() + j] == (Slot {
                        alive: true,
                        parent: Some(root),
                        payload: self.children@[j],
                    }),
            decreases self.children@.len() - k,
        {
            let payload = self.children[k];
            world.spawn_child(root, payload);
            k = k + 1;
        }
        root
    }
}

} // verus!
