//! Laws of the command protocol, proved once and for all over the
//! transition relations of `commands`.

use vstd::prelude::*;
use crate::actions::{GhostKind, TerraformingAction, TerrainId, Zoning};
use crate::assets::{GhostHandles, TerraformCosts, TerrainHandles};
use crate::commands::{
    apply_rel, apply_terraforming_rel, despawn_ghost_rel, queue_runs_ok, spawn_ghost_rel,
    spawn_terrain_rel, Command,
};
use crate::geometry::{Height, TilePos};
use crate::index::SpatialIndex;
use crate::templates::{ghost_children_payloads, ghost_root_payload, instantiated};
use crate::world::{despawned_from, in_subtree, slot_alive, EntityId, Payload, Slot, World};

verus! {

/// One applied command keeps both the store and the index well-formed.
pub proof fn lemma_apply_rel_wf(
    cmd: Command,
    pre_w: World,
    pre_ix: SpatialIndex,
    post_w: World,
    post_ix: SpatialIndex,
    r: Result<(), crate::commands::CommandError>,
    handles: TerrainHandles,
    ghost_handles: GhostHandles,
    costs: TerraformCosts,
)
    requires
        pre_w.wf(),
        pre_ix.wf(),
        apply_rel(cmd, pre_w, pre_ix, post_w, post_ix, r, handles, ghost_handles, costs),
    ensures
        post_w.wf(),
        post_ix.wf(),
{
}

/// Spatial index uniqueness: after any sequence of successfully applied
/// commands from a well-formed initial state, the index is still
/// well-formed, so no two of its records name the same tile — each tile
/// carries at most one terrain entity and at most one ghost entity.
pub proof fn lemma_spatial_index_uniqueness(
    cmds: Seq<Command>,
    pre_w: World,
    pre_ix: SpatialIndex,
    post_w: World,
    post_ix: SpatialIndex,
    handles: TerrainHandles,
    ghost_handles: GhostHandles,
    costs: TerraformCosts,
)
    requires
        pre_w.wf(),
        pre_ix.wf(),
        queue_runs_ok(cmds, pre_w, pre_ix, post_w, post_ix, handles, ghost_handles, costs),
    ensures
        post_w.wf(),
        post_ix.wf(),
        forall|i: int, j: int|
            0 <= i < j < post_ix.records@.len() ==> (#[trigger] post_ix.records@[i]).tile != (
            #[trigger] post_ix.records@[j]).tile,
    decreases cmds.len(),
{
    if cmds.len() == 0 {
    } else {
        let (mid_w, mid_ix) = choose|mid_w: World, mid_ix: SpatialIndex|
            queue_runs_ok(
                cmds.drop_last(),
                pre_w,
                pre_ix,
                mid_w,
                mid_ix,
                handles,
                ghost_handles,
                costs,
            ) && #[trigger] apply_rel(
                cmds.last(),
                mid_w,
                mid_ix,
                post_w,
                post_ix,
                Ok(()),
                handles,
                ghost_handles,
                costs,
            );
        lemma_spatial_index_uniqueness(
            cmds.drop_last(),
            pre_w,
            pre_ix,
            mid_w,
            mid_ix,
            handles,
            ghost_handles,
            costs,
        );
        lemma_apply_rel_wf(
            cmds.last(),
            mid_w,
            mid_ix,
            post_w,
            post_ix,
            Ok(()),
            handles,
            ghost_handles,
            costs,
        );
    }
}

/// Ghost replacement: spawning a persistent ghost at a tile that already
/// has a live one leaves exactly the new ghost registered there, and the
/// previous ghost and every one of its descendants is gone from the
/// world.
pub proof fn lemma_ghost_replacement(
    pre_w: World,
    pre_ix: SpatialIndex,
    post_w: World,
    post_ix: SpatialIndex,
    tile: TilePos,
    terrain_id: TerrainId,
    action: TerraformingAction,
    handles: TerrainHandles,
    ghost_handles: GhostHandles,
    costs: TerraformCosts,
    old_ghost: EntityId,
)
    requires
        pre_w.wf(),
        pre_ix.wf(),
        spawn_ghost_rel(
            pre_w,
            pre_ix,
            post_w,
            post_ix,
            Ok(()),
            tile,
            terrain_id,
            action,
            GhostKind::Persistent,
            handles,
            ghost_handles,
            costs,
        ),
        pre_ix.valid_spec(tile),
        pre_ix.ghost_at(tile) == Some(old_ghost),
        slot_alive(pre_w.slots@, old_ghost as int),
    ensures
        post_ix.ghost_at(tile) == Some(pre_w.slots@.len() as EntityId),
        slot_alive(post_w.slots@, pre_w.slots@.len() as int),
        forall|e: int|
            in_subtree(pre_w.slots@, old_ghost as int, e) ==> !slot_alive(post_w.slots@, e),
{
    let scene = handles.scene_at(terrain_id)->0;
    let current = pre_ix.height_at(tile)->0;
    let projected = action.previewed_height_spec(current);
    let material = ghost_handles.material_of(GhostKind::Persistent);
    let root_payload = ghost_root_payload(
        tile,
        action,
        material,
        scene,
        projected,
        costs.input_of(action),
        costs.output_of(action),
    );
    let mid = choose|mid: Seq<Slot>|
        #[trigger] despawned_from(pre_w.slots@, mid, old_ghost as int) && instantiated(
            mid,
            post_w.slots@,
            pre_w.slots@.len() as int,
            root_payload,
            ghost_children_payloads(scene),
        );
    assert forall|e: int|
        in_subtree(pre_w.slots@, old_ghost as int, e) implies !slot_alive(post_w.slots@, e) by {
        if 0 <= e < pre_w.slots@.len() {
            assert(!mid[e].alive);
            assert(post_w.slots@[e] == mid[e]);
        }
    }
}

/// Preview isolation: spawning a preview never changes the spatial index,
/// whatever its outcome.
pub proof fn lemma_preview_isolation(
    pre_w: World,
    pre_ix: SpatialIndex,
    post_w: World,
    post_ix: SpatialIndex,
    r: Result<(), crate::commands::CommandError>,
    tile: TilePos,
    terrain_id: TerrainId,
    action: TerraformingAction,
    handles: TerrainHandles,
    ghost_handles: GhostHandles,
    costs: TerraformCosts,
)
    requires
        spawn_ghost_rel(
            pre_w,
            pre_ix,
            post_w,
            post_ix,
            r,
            tile,
            terrain_id,
            action,
            GhostKind::Preview,
            handles,
            ghost_handles,
            costs,
        ),
    ensures
        post_ix == pre_ix,
{
}

/// Recursive teardown: despawning a live ghost removes its index entry,
/// kills it and every descendant, and touches nothing else — every other
/// entity keeps its liveness, parent and payload.
pub proof fn lemma_recursive_teardown(
    pre_w: World,
    pre_ix: SpatialIndex,
    post_w: World,
    post_ix: SpatialIndex,
    tile: TilePos,
    ghost_entity: EntityId,
)
    requires
        pre_w.wf(),
        despawn_ghost_rel(pre_w, pre_ix, post_w, post_ix, Ok(()), tile),
        pre_ix.ghost_at(tile) == Some(ghost_entity),
        slot_alive(pre_w.slots@, ghost_entity as int),
    ensures
        post_ix.ghost_at(tile) is None,
        post_w.slots@.len() == pre_w.slots@.len(),
        forall|e: int|
            in_subtree(pre_w.slots@, ghost_entity as int, e) ==> !slot_alive(post_w.slots@, e),
        forall|e: int|
            0 <= e < pre_w.slots@.len() && !in_subtree(pre_w.slots@, ghost_entity as int, e)
                ==> #[trigger] post_w.slots@[e] == pre_w.slots@[e],
{
    assert forall|e: int|
        0 <= e < pre_w.slots@.len() && !in_subtree(pre_w.slots@, ghost_entity as int, e) implies #[trigger] post_w.slots@[e]
        == pre_w.slots@[e] by {
        assert(post_w.slots@[e].alive == pre_w.slots@[e].alive);
        assert(post_w.slots@[e].parent == pre_w.slots@[e].parent);
        assert(post_w.slots@[e].payload == pre_w.slots@[e].payload);
    }
}

/// The per-tile overlay lifecycle: a tile is ghosted exactly when the
/// index registers a ghost for it. Spawning a persistent ghost at an
/// in-bounds tile leaves it ghosted — whether it was empty (a plain
/// transition) or already ghosted (a replacement, never coexistence);
/// despawning leaves it empty; and for an out-of-bounds tile no
/// transition fires at all.
pub proof fn lemma_ghost_lifecycle(
    pre_w: World,
    pre_ix: SpatialIndex,
    post_w: World,
    post_ix: SpatialIndex,
    tile: TilePos,
    terrain_id: TerrainId,
    action: TerraformingAction,
    handles: TerrainHandles,
    ghost_handles: GhostHandles,
    costs: TerraformCosts,
)
    ensures
        spawn_ghost_rel(
            pre_w,
            pre_ix,
            post_w,
            post_ix,
            Ok(()),
            tile,
            terrain_id,
            action,
            GhostKind::Persistent,
            handles,
            ghost_handles,
            costs,
        ) && pre_ix.valid_spec(tile) ==> post_ix.ghost_at(tile) is Some,
        despawn_ghost_rel(pre_w, pre_ix, post_w, post_ix, Ok(()), tile) ==> post_ix.ghost_at(
            tile,
        ) is None,
        spawn_ghost_rel(
            pre_w,
            pre_ix,
            post_w,
            post_ix,
            Ok(()),
            tile,
            terrain_id,
            action,
            GhostKind::Persistent,
            handles,
            ghost_handles,
            costs,
        ) && !pre_ix.valid_spec(tile) ==> post_ix == pre_ix && post_w == pre_w,
{
}

/// Terraforming bookkeeping: committing a raise and then a lower at the
/// same tile restores the terrain root's original elevation exactly, with
/// no drift, as long as the raise did not saturate at the numeric limit.
pub proof fn lemma_raise_then_lower_restores_terrain(
    w0: World,
    ix0: SpatialIndex,
    w1: World,
    ix1: SpatialIndex,
    w2: World,
    ix2: SpatialIndex,
    tile: TilePos,
    entity: EntityId,
    terrain_id: TerrainId,
    root_tile: TilePos,
    height: Height,
    scene: u64,
    zoning: Zoning,
    handles: TerrainHandles,
)
    requires
        ix0.terrain_at(tile) == Some(entity),
        slot_alive(w0.slots@, entity as int),
        w0.slots@[entity as int].payload == (Payload::TerrainRoot {
            terrain_id,
            tile: root_tile,
            height,
            scene,
            zoning,
        }),
        height.steps < i64::MAX,
        apply_terraforming_rel(
            w0,
            ix0,
            w1,
            ix1,
            Ok(()),
            tile,
            TerraformingAction::Raise,
            handles,
        ),
        apply_terraforming_rel(
            w1,
            ix1,
            w2,
            ix2,
            Ok(()),
            tile,
            TerraformingAction::Lower,
            handles,
        ),
    ensures
        w2.slots@[entity as int].payload == (Payload::TerrainRoot {
            terrain_id,
            tile: root_tile,
            height,
            scene,
            zoning: Zoning::Clear,
        }),
        ix2.height_at(tile) == Some(height),
{
    assert(w1.slots@[entity as int].payload == (Payload::TerrainRoot {
        terrain_id,
        tile: root_tile,
        height: height.raised(),
        scene,
        zoning: Zoning::Clear,
    }));
    assert(height.raised().lowered() == height);
}

/// Terraforming bookkeeping: committing a type change replaces the
/// terrain type and scene but leaves the elevation untouched, in the
/// terrain root and in the index alike.
pub proof fn lemma_change_keeps_height(
    w0: World,
    ix0: SpatialIndex,
    w1: World,
    ix1: SpatialIndex,
    tile: TilePos,
    entity: EntityId,
    terrain_id: TerrainId,
    root_tile: TilePos,
    height: Height,
    scene: u64,
    zoning: Zoning,
    new_id: TerrainId,
    handles: TerrainHandles,
)
    requires
        ix0.terrain_at(tile) == Some(entity),
        slot_alive(w0.slots@, entity as int),
        w0.slots@[entity as int].payload == (Payload::TerrainRoot {
            terrain_id,
            tile: root_tile,
            height,
            scene,
            zoning,
        }),
        apply_terraforming_rel(
            w0,
            ix0,
            w1,
            ix1,
            Ok(()),
            tile,
            TerraformingAction::Change(new_id),
            handles,
        ),
    ensures
        handles.scene_at(new_id) is Some,
        w1.slots@[entity as int].payload == (Payload::TerrainRoot {
            terrain_id: new_id,
            tile: root_tile,
            height,
            scene: handles.scene_at(new_id)->0,
            zoning: Zoning::Clear,
        }),
        ix1.height_at(tile) == Some(height),
{
}

/// Order sensitivity, in-order half: spawning terrain, then a persistent
/// ghost, then committing the same action at one tile leaves the ghost's
/// previewed elevation and the committed elevation agreeing at exactly
/// the action's preview of the spawned height.
pub proof fn lemma_fifo_in_order(
    w0: World,
    ix0: SpatialIndex,
    w1: World,
    ix1: SpatialIndex,
    w2: World,
    ix2: SpatialIndex,
    w3: World,
    ix3: SpatialIndex,
    tile: TilePos,
    height: Height,
    terrain_id: TerrainId,
    ghost_terrain_id: TerrainId,
    action: TerraformingAction,
    handles: TerrainHandles,
    ghost_handles: GhostHandles,
    costs: TerraformCosts,
)
    requires
        w0.wf(),
        ix0.wf(),
        ix0.valid_spec(tile),
        ix0.ghost_at(tile) is None,
        spawn_terrain_rel(w0, ix0, w1, ix1, Ok(()), tile, height, terrain_id, handles),
        spawn_ghost_rel(
            w1,
            ix1,
            w2,
            ix2,
            Ok(()),
            tile,
            ghost_terrain_id,
            action,
            GhostKind::Persistent,
            handles,
            ghost_handles,
            costs,
        ),
        apply_terraforming_rel(w2, ix2, w3, ix3, Ok(()), tile, action, handles),
    ensures
        ix3.ghost_at(tile) == Some(w1.slots@.len() as EntityId),
        slot_alive(w3.slots@, w1.slots@.len() as int),
        w3.slots@[w1.slots@.len() as int].payload == ghost_root_payload(
            tile,
            action,
            ghost_handles.material_of(GhostKind::Persistent),
            handles.scene_at(ghost_terrain_id)->0,
            action.previewed_height_spec(height),
            costs.input_of(action),
            costs.output_of(action),
        ),
        ix3.height_at(tile) == Some(action.previewed_height_spec(height)),
{
    vstd::std_specs::vec::axiom_spec_len(&w0.slots);
    vstd::std_specs::vec::axiom_spec_len(&w1.slots);
    vstd::std_specs::vec::axiom_spec_len(&w2.slots);
    let e = w0.slots@.len() as int;
    let g = w1.slots@.len() as int;
    assert(ix1.height_at(tile) == Some(height));
    assert(ix1.ghost_at(tile) is None);
    assert(ix1.terrain_at(tile) == Some(e as EntityId));
    assert(slot_alive(w1.slots@, e));
    assert(ix2.terrain_at(tile) == Some(e as EntityId));
    assert(ix2.height_at(tile) == Some(height));
    assert(ix2.ghost_at(tile) == Some(g as EntityId));
    assert(w2.slots@[e] == w1.slots@[e]);
    assert(slot_alive(w2.slots@, e));
    assert(w3.slots@[g] == w2.slots@[g]);
}

/// Order sensitivity, reordered half: committing the action before
/// spawning the ghost makes the ghost preview the action on the already
/// committed elevation, so its previewed elevation is the action applied
/// twice — for a raise below the saturation limit, a different value
/// than in submission order. Together with the in-order half this
/// confirms that the queue's strict first-in, first-out application is
/// observable.
pub proof fn lemma_fifo_reordered(
    w0: World,
    ix0: SpatialIndex,
    w1: World,
    ix1: SpatialIndex,
    w2: World,
    ix2: SpatialIndex,
    w3: World,
    ix3: SpatialIndex,
    tile: TilePos,
    height: Height,
    terrain_id: TerrainId,
    ghost_terrain_id: TerrainId,
    action: TerraformingAction,
    handles: TerrainHandles,
    ghost_handles: GhostHandles,
    costs: TerraformCosts,
)
    requires
        w0.wf(),
        ix0.wf(),
        ix0.valid_spec(tile),
        ix0.ghost_at(tile) is None,
        spawn_terrain_rel(w0, ix0, w1, ix1, Ok(()), tile, height, terrain_id, handles),
        apply_terraforming_rel(w1, ix1, w2, ix2, Ok(()), tile, action, handles),
        spawn_ghost_rel(
            w2,
            ix2,
            w3,
            ix3,
            Ok(()),
            tile,
            ghost_terrain_id,
            action,
            GhostKind::Persistent,
            handles,
            ghost_handles,
            costs,
        ),
    ensures
        ix3.ghost_at(tile) == Some(w2.slots@.len() as EntityId),
        slot_alive(w3.slots@, w2.slots@.len() as int),
        w3.slots@[w2.slots@.len() as int].payload == ghost_root_payload(
            tile,
            action,
            ghost_handles.material_of(GhostKind::Persistent),
            handles.scene_at(ghost_terrain_id)->0,
            action.previewed_height_spec(action.previewed_height_spec(height)),
            costs.input_of(action),
            costs.output_of(action),
        ),
        action == TerraformingAction::Raise && height.steps + 1 < i64::MAX
            ==> action.previewed_height_spec(action.previewed_height_spec(height))
            != action.previewed_height_spec(height),
{
    vstd::std_specs::vec::axiom_spec_len(&w0.slots);
    vstd::std_specs::vec::axiom_spec_len(&w1.slots);
    vstd::std_specs::vec::axiom_spec_len(&w2.slots);
    let e = w0.slots@.len() as int;
    let g = w2.slots@.len() as int;
    assert(ix1.terrain_at(tile) == Some(e as EntityId));
    assert(slot_alive(w1.slots@, e));
    assert(ix2.height_at(tile) == Some(action.previewed_height_spec(height)));
    assert(ix2.ghost_at(tile) is None);
    assert(w2.slots@.len() == w1.slots@.len());
}

} // verus!
