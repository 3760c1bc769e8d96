//! The deferred command queue and its dispatcher.
//!
//! Callers enqueue commands; the queue applies them against the shared
//! world strictly in submission order, each command all-or-nothing from
//! the caller's view. Each transition relation below pins down exactly how
//! one command transforms the entity store and the spatial index, and
//! `Command::apply` is proved to realize it.

use vstd::prelude::*;
use crate::actions::{GhostKind, TerraformingAction, TerrainId, Zoning};
use crate::assets::{GhostHandles, TerraformCosts, TerrainHandles};
use crate::geometry::{Height, TilePos};
use crate::index::SpatialIndex;
use crate::templates::{
    ghost_children_payloads, ghost_root_payload, ghost_template, instantiated,
    preview_root_payload, preview_template, terrain_children_payloads, terrain_root_payload,
    terrain_template,
};
use crate::world::{despawned_from, slot_alive, EntityId, Payload, Slot, World};

verus! {

/// A deferred mutation request against the shared world.
#[derive(Clone, Copy, Debug)]
pub enum Command {
    /// Unconditionally (re)creates the terrain at a tile.
    SpawnTerrain {
        /// The tile to spawn terrain at.
        tile_pos: TilePos,
        /// The committed elevation of the new terrain.
        height: Height,
        /// The terrain type of the new terrain.
        terrain_id: TerrainId,
    },
    /// Spawns a ghost or preview visualizing a pending action at a tile.
    SpawnGhost {
        /// The tile the overlay previews.
        tile_pos: TilePos,
        /// The terrain type the overlay shows.
        terrain_id: TerrainId,
        /// The action the overlay previews.
        terraforming_action: TerraformingAction,
        /// Whether the overlay is an indexed ghost or a transient preview.
        ghost_kind: GhostKind,
    },
    /// Removes the ghost at a tile, if any, together with its descendants.
    DespawnGhost {
        /// The tile whose ghost is removed.
        tile_pos: TilePos,
    },
    /// Commits a pending action to the terrain at a tile.
    ApplyTerraforming {
        /// The tile whose terrain is edited.
        tile_pos: TilePos,
        /// The action to commit.
        terraforming_action: TerraformingAction,
    },
}

/// Why a command was aborted; the world is then exactly as it was before
/// the command.
#[derive(Clone, Copy, PartialEq, Eq, Structural, Debug)]
pub enum CommandError {
    /// A terrain type had no scene handle in the manifest.
    UnknownTerrainType,
    /// A ghost or preview was requested at a tile with no recorded
    /// elevation.
    MissingHeight,
    /// Terraforming was applied at a tile with no terrain entity.
    MissingTerrain,
    /// The indexed terrain entity no longer resolves to a live terrain
    /// root.
    StaleTerrain,
}

/// Nothing changed: both the store and the index are exactly as before.
pub open spec fn state_unchanged(
    pre_w: World,
    pre_ix: SpatialIndex,
    post_w: World,
    post_ix: SpatialIndex,
) -> bool {
    post_w == pre_w && post_ix == pre_ix
}

/// The index changed at most at `tile`: every other tile keeps all three
/// of its entries, and the extent is unchanged.
pub open spec fn index_same_except(pre: SpatialIndex, post: SpatialIndex, tile: TilePos) -> bool {
    &&& post.radius == pre.radius
    &&& forall|t: TilePos| t != tile ==> #[trigger] post.terrain_at(t) == pre.terrain_at(t)
    &&& forall|t: TilePos| t != tile ==> #[trigger] post.ghost_at(t) == pre.ghost_at(t)
    &&& forall|t: TilePos| t != tile ==> #[trigger] post.height_at(t) == pre.height_at(t)
}

/// How spawning terrain transforms the state.
///
/// An unknown terrain type aborts the command before any write. Otherwise
/// the terrain template is instantiated, and the index records the new
/// elevation and the new terrain root, leaving the ghost entry alone.
pub open spec fn spawn_terrain_rel(
    pre_w: World,
    pre_ix: SpatialIndex,
    post_w: World,
    post_ix: SpatialIndex,
    r: Result<(), CommandError>,
    tile: TilePos,
    height: Height,
    terrain_id: TerrainId,
    handles: TerrainHandles,
) -> bool {
    match handles.scene_at(terrain_id) {
        None => r == Err::<(), CommandError>(CommandError::UnknownTerrainType)
            && state_unchanged(pre_w, pre_ix, post_w, post_ix),
        Some(scene) => {
            &&& r is Ok
            &&& post_w.wf()
            &&& instantiated(
                pre_w.slots@,
                post_w.slots@,
                pre_w.slots@.len() as int,
                terrain_root_payload(tile, height, terrain_id, scene),
                terrain_children_payloads(handles, scene),
            )
            &&& post_ix.wf()
            &&& index_same_except(pre_ix, post_ix, tile)
            &&& post_ix.height_at(tile) == Some(height)
            &&& post_ix.terrain_at(tile) == Some(pre_w.slots@.len() as EntityId)
            &&& post_ix.ghost_at(tile) == pre_ix.ghost_at(tile)
        },
    }
}

/// How the store changes when a persistent ghost is spawned at a tile
/// whose previous ghost entry was `old_ghost`: a live previous ghost is
/// torn down recursively first, then the ghost template is instantiated;
/// with no live previous ghost the template is instantiated directly.
pub open spec fn ghost_world_rel(
    pre: Seq<Slot>,
    post: Seq<Slot>,
    old_ghost: Option<EntityId>,
    root_payload: Payload,
    children: Seq<Payload>,
) -> bool {
    match old_ghost {
        Some(g) => if slot_alive(pre, g as int) {
            exists|mid: Seq<Slot>|
                #[trigger] despawned_from(pre, mid, g as int) && instantiated(
                    mid,
                    post,
                    pre.len() as int,
                    root_payload,
                    children,
                )
        } else {
            instantiated(pre, post, pre.len() as int, root_payload, children)
        },
        None => instantiated(pre, post, pre.len() as int, root_payload, children),
    }
}

/// How spawning a ghost or preview transforms the state.
///
/// Out-of-bounds tiles are a silent no-op. An unknown terrain type or a
/// tile without a recorded elevation aborts the command before any write.
/// A preview only instantiates its template: the index is untouched and
/// no existing ghost is replaced. A persistent ghost first tears down any
/// live previous ghost, then instantiates its template and registers the
/// new root as the tile's only ghost entry.
pub open spec fn spawn_ghost_rel(
    pre_w: World,
    pre_ix: SpatialIndex,
    post_w: World,
    post_ix: SpatialIndex,
    r: Result<(), CommandError>,
    tile: TilePos,
    terrain_id: TerrainId,
    action: TerraformingAction,
    kind: GhostKind,
    handles: TerrainHandles,
    ghost_handles: GhostHandles,
    costs: TerraformCosts,
) -> bool {
    if !pre_ix.valid_spec(tile) {
        r is Ok && state_unchanged(pre_w, pre_ix, post_w, post_ix)
    } else {
        match handles.scene_at(terrain_id) {
            None => r == Err::<(), CommandError>(CommandError::UnknownTerrainType)
                && state_unchanged(pre_w, pre_ix, post_w, post_ix),
            Some(scene) => match pre_ix.height_at(tile) {
                None => r == Err::<(), CommandError>(CommandError::MissingHeight)
                    && state_unchanged(pre_w, pre_ix, post_w, post_ix),
                Some(current) => {
                    let projected = action.previewed_height_spec(current);
                    let material = ghost_handles.material_of(kind);
                    match kind {
                        GhostKind::Preview => {
                            &&& r is Ok
                            &&& post_ix == pre_ix
                            &&& post_w.wf()
                            &&& instantiated(
                                pre_w.slots@,
                                post_w.slots@,
                                pre_w.slots@.len() as int,
                                preview_root_payload(tile, action, material, scene, projected),
                                Seq::<Payload>::empty(),
                            )
                        },
                        GhostKind::Persistent => {
                            &&& r is Ok
                            &&& post_w.wf()
                            &&& ghost_world_rel(
                                pre_w.slots@,
                                post_w.slots@,
                                pre_ix.ghost_at(tile),
                                ghost_root_payload(
                                    tile,
                                    action,
                                    material,
                                    scene,
                                    projected,
                                    costs.input_of(action),
                                    costs.output_of(action),
                                ),
                                ghost_children_payloads(scene),
                            )
                            &&& post_ix.wf()
                            &&& index_same_except(pre_ix, post_ix, tile)
                            &&& post_ix.ghost_at(tile) == Some(pre_w.slots@.len() as EntityId)
                            &&& post_ix.terrain_at(tile) == pre_ix.terrain_at(tile)
                            &&& post_ix.height_at(tile) == pre_ix.height_at(tile)
                        },
                    }
                },
            },
        }
    }
}

/// How despawning a ghost transforms the state.
///
/// Always succeeds. With no ghost entry at the tile nothing changes at
/// all. Otherwise the entry is removed, and the ghost entity, if it is
/// still live, is torn down together with every descendant; a stale entry
/// leaves the store untouched.
pub open spec fn despawn_ghost_rel(
    pre_w: World,
    pre_ix: SpatialIndex,
    post_w: World,
    post_ix: SpatialIndex,
    r: Result<(), CommandError>,
    tile: TilePos,
) -> bool {
    &&& r is Ok
    &&& match pre_ix.ghost_at(tile) {
        None => state_unchanged(pre_w, pre_ix, post_w, post_ix),
        Some(g) => {
            &&& post_ix.wf()
            &&& index_same_except(pre_ix, post_ix, tile)
            &&& post_ix.ghost_at(tile) is None
            &&& post_ix.terrain_at(tile) == pre_ix.terrain_at(tile)
            &&& post_ix.height_at(tile) == pre_ix.height_at(tile)
            &&& post_w.wf()
            &&& if slot_alive(pre_w.slots@, g as int) {
                despawned_from(pre_w.slots@, post_w.slots@, g as int)
            } else {
                post_w == pre_w
            }
        },
    }
}

/// How committing a terraforming action transforms the state.
///
/// The tile must have an indexed terrain entity that still resolves to a
/// live terrain root, and a type change must name a known terrain type;
/// otherwise the command aborts with nothing written. On success the
/// terrain root's elevation, type and scene are updated, its zoning
/// marker is cleared, the index's elevation record follows the new
/// elevation, and no other entity or index entry changes.
pub open spec fn apply_terraforming_rel(
    pre_w: World,
    pre_ix: SpatialIndex,
    post_w: World,
    post_ix: SpatialIndex,
    r: Result<(), CommandError>,
    tile: TilePos,
    action: TerraformingAction,
    handles: TerrainHandles,
) -> bool {
    match pre_ix.terrain_at(tile) {
        None => r == Err::<(), CommandError>(CommandError::MissingTerrain) && state_unchanged(
            pre_w,
            pre_ix,
            post_w,
            post_ix,
        ),
        Some(e) => if !slot_alive(pre_w.slots@, e as int) {
            r == Err::<(), CommandError>(CommandError::StaleTerrain) && state_unchanged(
                pre_w,
                pre_ix,
                post_w,
                post_ix,
            )
        } else {
            match pre_w.slots@[e as int].payload {
                Payload::TerrainRoot { terrain_id, tile: root_tile, height, scene, zoning: _ } => {
                    let scene_opt = match action {
                        TerraformingAction::Change(new_id) => handles.scene_at(new_id),
                        _ => Some(scene),
                    };
                    match scene_opt {
                        None => r == Err::<(), CommandError>(CommandError::UnknownTerrainType)
                            && state_unchanged(pre_w, pre_ix, post_w, post_ix),
                        Some(new_scene) => {
                            let new_height = action.previewed_height_spec(height);
                            let new_id = action.previewed_terrain_spec(terrain_id);
                            &&& r is Ok
                            &&& post_w.wf()
                            &&& post_w.slots@ == pre_w.slots@.update(
                                e as int,
                                (Slot {
                                    alive: pre_w.slots@[e as int].alive,
                                    parent: pre_w.slots@[e as int].parent,
                                    payload: Payload::TerrainRoot {
                                        terrain_id: new_id,
                                        tile: root_tile,
                                        height: new_height,
                                        scene: new_scene,
                                        zoning: Zoning::Clear,
                                    },
                                }),
                            )
                            &&& post_ix.wf()
                            &&& index_same_except(pre_ix, post_ix, tile)
                            &&& post_ix.height_at(tile) == Some(new_height)
                            &&& post_ix.terrain_at(tile) == pre_ix.terrain_at(tile)
                            &&& post_ix.ghost_at(tile) == pre_ix.ghost_at(tile)
                        },
                    }
                },
                _ => r == Err::<(), CommandError>(CommandError::StaleTerrain) && state_unchanged(
                    pre_w,
                    pre_ix,
                    post_w,
                    post_ix,
                ),
            }
        },
    }
}

/// How one command transforms the state: the dispatcher's contract.
pub open spec fn apply_rel(
    cmd: Command,
    pre_w: World,
    pre_ix: SpatialIndex,
    post_w: World,
    post_ix: SpatialIndex,
    r: Result<(), CommandError>,
    handles: TerrainHandles,
    ghost_handles: GhostHandles,
    costs: TerraformCosts,
) -> bool {
    match cmd {
        Command::SpawnTerrain { tile_pos, height, terrain_id } => spawn_terrain_rel(
            pre_w,
            pre_ix,
            post_w,
            post_ix,
            r,
            tile_pos,
            height,
            terrain_id,
            handles,
        ),
        Command::SpawnGhost { tile_pos, terrain_id, terraforming_action, ghost_kind } => spawn_ghost_rel(
            pre_w,
            pre_ix,
            post_w,
            post_ix,
            r,
            tile_pos,
            terrain_id,
            terraforming_action,
            ghost_kind,
            handles,
            ghost_handles,
            costs,
        ),
        Command::DespawnGhost { tile_pos } => despawn_ghost_rel(
            pre_w,
            pre_ix,
            post_w,
            post_ix,
            r,
            tile_pos,
        ),
        Command::ApplyTerraforming { tile_pos, terraforming_action } => apply_terraforming_rel(
            pre_w,
            pre_ix,
            post_w,
            post_ix,
            r,
            tile_pos,
            terraforming_action,
            handles,
        ),
    }
}

impl Command {
    /// Applies this command to the shared world: the single dispatcher
    /// through which every mutation runs.
    pub fn apply(
        self,
        world: &mut World,
        index: &mut SpatialIndex,
        handles: &TerrainHandles,
        ghost_handles: &GhostHandles,
        costs: &TerraformCosts,
    ) -> (r: Result<(), CommandError>)
        requires
            old(world).wf(),
            old(index).wf(),
        ensures
            final(world).wf(),
            final(index).wf(),
            apply_rel(
                self,
                *old(world),
                *old(index),
                *final(world),
                *final(index),
                r,
                *handles,
                *ghost_handles,
                *costs,
            ),
    {
        match self {
            Command::SpawnTerrain { tile_pos, height, terrain_id } => {
                let scene = match handles.get_scene(terrain_id) {
                    None => {
                        return Err(CommandError::UnknownTerrainType);
                    },
                    Some(s) => s,
                };
                index.update_height(tile_pos, height);
                let template = terrain_template(tile_pos, height, terrain_id, scene, handles);
                let root = template.instantiate(world);
                index.add_terrain(tile_pos, root);
                Ok(())
            },
            Command::SpawnGhost { tile_pos, terrain_id, terraforming_action, ghost_kind } => {
                if !index.is_valid(tile_pos) {
                    return Ok(());
                }
                let scene = match handles.get_scene(terrain_id) {
                    None => {
                        return Err(CommandError::UnknownTerrainType);
                    },
                    Some(s) => s,
                };
                let current = match index.get_height(tile_pos) {
                    None => {
                        return Err(CommandError::MissingHeight);
                    },
                    Some(h) => h,
                };
                let projected = terraforming_action.previewed_height(current);
                let material = ghost_handles.get_material(ghost_kind);
                match ghost_kind {
                    GhostKind::Persistent => {
                        match index.get_ghost_terrain(tile_pos) {
                            Some(g) => {
                                if world.contains(g) {
                                    world.despawn_recursive(g);
                                    index.remove_ghost_terrain(tile_pos);
                                }
                            },
                            None => {},
                        }
                        let ghost mid_slots = world.slots@;
                        let input_inventory = costs.input_inventory(terraforming_action);
                        let output_inventory = costs.output_inventory(terraforming_action);
                        let template = ghost_template(
                            tile_pos,
                            terraforming_action,
                            material,
                            scene,
                            projected,
                            input_inventory,
                            output_inventory,
                        );
                        let root = template.instantiate(world);
                        index.add_ghost_terrain(root, tile_pos);
                        proof {
                            match old(index).ghost_at(tile_pos) {
                                Some(g) => {
                                    if slot_alive(old(world).slots@, g as int) {
                                        assert(despawned_from(
                                            old(world).slots@,
                                            mid_slots,
                                            g as int,
                                        ));
                                    }
                                },
                                None => {},
                            }
                        }
                        Ok(())
                    },
                    GhostKind::Preview => {
                        let template = preview_template(
                            tile_pos,
                            terraforming_action,
                            material,
                            scene,
                            projected,
                        );
                        template.instantiate(world);
                        Ok(())
                    },
                }
            },
            Command::DespawnGhost { tile_pos } => {
                let maybe_entity = index.remove_ghost_terrain(tile_pos);
                match maybe_entity {
                    None => Ok(()),
                    Some(g) => {
                        world.despawn_recursive(g);
                        Ok(())
                    },
                }
            },
            Command::ApplyTerraforming { tile_pos, terraforming_action } => {
                let terrain_entity = match index.get_terrain(tile_pos) {
                    None => {
                        return Err(CommandError::MissingTerrain);
                    },
                    Some(e) => e,
                };
                let slot = match world.get_slot(terrain_entity) {
                    None => {
                        return Err(CommandError::StaleTerrain);
                    },
                    Some(s) => s,
                };
                if !slot.alive {
                    return Err(CommandError::StaleTerrain);
                }
                match slot.payload {
                    Payload::TerrainRoot { terrain_id, tile: root_tile, height, scene, zoning: _ } => {
                        let new_scene = match terraforming_action {
                            TerraformingAction::Change(new_id) => {
                                match handles.get_scene(new_id) {
                                    None => {
                                        return Err(CommandError::UnknownTerrainType);
                                    },
                                    Some(s) => s,
                                }
                            },
                            _ => scene,
                        };
                        let new_height = terraforming_action.previewed_height(height);
                        let new_id = terraforming_action.previewed_terrain(terrain_id);
                        world.set_payload(
                            terrain_entity,
                            Payload::TerrainRoot {
                                terrain_id: new_id,
                                tile: root_tile,
                                height: new_height,
                                scene: new_scene,
                                zoning: Zoning::Clear,
                            },
                        );
                        index.update_height(tile_pos, new_height);
                        Ok(())
                    },
                    _ => Err(CommandError::StaleTerrain),
                }
            },
        }
    }
}

/// The ordered queue of deferred commands, drained strictly first-in,
/// first-out.
pub struct CommandQueue {
    /// Pending commands, oldest first.
    pub items: Vec<Command>,
}

impl CommandQueue {
    /// An empty queue.
    pub fn new() -> (r: CommandQueue)
        ensures
            r.items@.len() == 0,
    {
        CommandQueue { items: Vec::new() }
    }

    /// Enqueues a command to spawn a new terrain tile.
    ///
    /// Overwrites existing terrain.
    pub fn spawn_terrain(&mut self, tile_pos: TilePos, height: Height, terrain_id: TerrainId)
        ensures
            final(self).items@ == old(self).items@.push(
                Command::SpawnTerrain { tile_pos, height, terrain_id },
            ),
    {
        self.items.push(Command::SpawnTerrain { tile_pos, height, terrain_id });
    }

    /// Enqueues a command to spawn a ghost that previews
    /// `terraforming_action` at `tile_pos`.
    ///
    /// Replaces any existing ghost.
    pub fn spawn_ghost_terrain(
        &mut self,
        tile_pos: TilePos,
        terrain_id: TerrainId,
        terraforming_action: TerraformingAction,
    )
        ensures
            final(self).items@ == old(self).items@.push(
                Command::SpawnGhost {
                    tile_pos,
                    terrain_id,
                    terraforming_action,
                    ghost_kind: GhostKind::Persistent,
                },
            ),
    {
        self.items.push(
            Command::SpawnGhost {
                tile_pos,
                terrain_id,
                terraforming_action,
                ghost_kind: GhostKind::Persistent,
            },
        );
    }

    /// Enqueues a command to despawn any ghost at `tile_pos`.
    ///
    /// Has no effect if the tile position is already empty.
    pub fn despawn_ghost_terrain(&mut self, tile_pos: TilePos)
        ensures
            final(self).items@ == old(self).items@.push(Command::DespawnGhost { tile_pos }),
    {
        self.items.push(Command::DespawnGhost { tile_pos });
    }

    /// Enqueues a command to spawn a preview of `terraforming_action` at
    /// `tile_pos`.
    pub fn spawn_preview_terrain(
        &mut self,
        tile_pos: TilePos,
        terrain_id: TerrainId,
        terraforming_action: TerraformingAction,
    )
        ensures
            final(self).items@ == old(self).items@.push(
                Command::SpawnGhost {
                    tile_pos,
                    terrain_id,
                    terraforming_action,
                    ghost_kind: GhostKind::Preview,
                },
            ),
    {
        self.items.push(
            Command::SpawnGhost {
                tile_pos,
                terrain_id,
                terraforming_action,
                ghost_kind: GhostKind::Preview,
            },
        );
    }

    /// Enqueues a command to apply `terraforming_action` to the terrain at
    /// `tile_pos`.
    pub fn apply_terraforming_action(
        &mut self,
        tile_pos: TilePos,
        terraforming_action: TerraformingAction,
    )
        ensures
            final(self).items@ == old(self).items@.push(
                Command::ApplyTerraforming { tile_pos, terraforming_action },
            ),
    {
        self.items.push(Command::ApplyTerraforming { tile_pos, terraforming_action });
    }
}

/// How an all-successful sequence of commands transforms the state:
/// each command runs, in order, on the state the previous ones left.
pub open spec fn queue_runs_ok(
    cmds: Seq<Command>,
    pre_w: World,
    pre_ix: SpatialIndex,
    post_w: World,
    post_ix: SpatialIndex,
    handles: TerrainHandles,
    ghost_handles: GhostHandles,
    costs: TerraformCosts,
) -> bool
    decreases cmds.len(),
{
    if cmds.len() == 0 {
        state_unchanged(pre_w, pre_ix, post_w, post_ix)
    } else {
        exists|mid_w: World, mid_ix: SpatialIndex|
            queue_runs_ok(
                cmds.drop_last(),
                pre_w,
                pre_ix,
                mid_w,
                mid_ix,
                handles,
                ghost_handles,
                costs,
            ) && #[trigger] apply_rel(
                cmds.last(),
                mid_w,
                mid_ix,
                post_w,
                post_ix,
                Ok(()),
                handles,
                ghost_handles,
                costs,
            )
    }
}

/// Drains the queue against the shared world, applying every pending
/// command strictly in submission order, each all-or-nothing. The first
/// aborted command stops the run and returns its error; the commands
/// before it stay applied, and the rest are discarded with the queue.
pub fn drain(
    queue: &mut CommandQueue,
    world: &mut World,
    index: &mut SpatialIndex,
    handles: &TerrainHandles,
    ghost_handles: &GhostHandles,
    costs: &TerraformCosts,
) -> (r: Result<(), CommandError>)
    requires
        old(world).wf(),
        old(index).wf(),
    ensures
        final(world).wf(),
        final(index).wf(),
        final(queue).items@.len() == 0,
        r is Ok ==> queue_runs_ok(
            old(queue).items@,
            *old(world),
            *old(index),
            *final(world),
            *final(index),
            *handles,
            *ghost_handles,
            *costs,
        ),
        r is Err ==> exists|i: int, mid_w: World, mid_ix: SpatialIndex|
            {
                &&& 0 <= i < old(queue).items@.len()
                &&& queue_runs_ok(
                    old(queue).items@.take(i),
                    *old(world),
                    *old(index),
                    mid_w,
                    mid_ix,
                    *handles,
                    *ghost_handles,
                    *costs,
                )
                &&& #[trigger] apply_rel(
                    old(queue).items@[i],
                    mid_w,
                    mid_ix,
                    *final(world),
                    *final(index),
                    r,
                    *handles,
                    *ghost_handles,
                    *costs,
                )
            },
{
    let ghost cmds = queue.items@;
    let mut i: usize = 0;
    proof {
        assert(cmds.take(0) =~= Seq::<Command>::empty());
    }
    while i < queue.items.len()
        invariant
            world.wf(),
            index.wf(),
            i <= cmds.len(),
            queue.items@ == cmds,
            cmds == old(queue).items@,
            queue_runs_ok(
                cmds.take(i as int),
                *old(world),
                *old(index),
                *world,
                *index,
                *handles,
                *ghost_handles,
                *costs,
            ),
        decreases cmds.len() - i,
    {
        let cmd = queue.items[i];
        let ghost w_before = *world;
        let ghost ix_before = *index;
        let step = cmd.apply(world, index, handles, ghost_handles, costs);
        match step {
            Ok(_) => {
                proof {
                    assert(cmds.take(i as int + 1).drop_last() =~= cmds.take(i as int));
                    assert(cmds.take(i as int + 1).last() == cmds[i as int]);
                    assert(apply_rel(
                        cmds.take(i as int + 1).last(),
                        w_before,
                        ix_before,
                        *world,
                        *index,
                        Ok(()),
                        *handles,
                        *ghost_handles,
                        *costs,
                    ));
                }
            },
            Err(e) => {
                proof {
                    assert(queue_runs_ok(
                        cmds.take(i as int),
                        *old(world),
                        *old(index),
                        w_before,
                        ix_before,
                        *handles,
                        *ghost_handles,
                        *costs,
                    ));
                    assert(apply_rel(
                        cmds[i as int],
                        w_before,
                        ix_before,
                        *world,
                        *index,
                        Err::<(), CommandError>(e),
                        *handles,
                        *ghost_handles,
                        *costs,
                    ));
                    assert(exists|j: int, mid_w: World, mid_ix: SpatialIndex|
                        {
                            &&& 0 <= j < cmds.len()
                            &&& queue_runs_ok(
                                cmds.take(j),
                                *old(world),
                                *old(index),
                                mid_w,
                                mid_ix,
                                *handles,
                                *ghost_handles,
                                *costs,
                            )
                            &&& #[trigger] apply_rel(
                                cmds[j],
                                mid_w,
                                mid_ix,
                                *world,
                                *index,
                                Err::<(), CommandError>(e),
                                *handles,
                                *ghost_handles,
                                *costs,
                            )
                        });
                }
                queue.items = Vec::new();
                return Err(e);
            },
        }
        i = i + 1;
    }
    proof {
        assert(cmds.take(cmds.len() as int) =~= cmds);
    }
    queue.items = Vec::new();
    Ok(())
}

} // verus!
