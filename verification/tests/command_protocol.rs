use terrain_core::actions::{TerraformingAction, Zoning};
use terrain_core::assets::{GhostHandles, TerraformCosts, TerrainHandles};
use terrain_core::commands::{drain, CommandError, CommandQueue};
use terrain_core::geometry::{Height, TilePos};
use terrain_core::index::SpatialIndex;
use terrain_core::world::{Payload, World};

const GRASS: u64 = 1;
const STONE: u64 = 2;

fn handles() -> TerrainHandles {
    TerrainHandles {
        scenes: vec![(GRASS, 101), (STONE, 102)],
        topper_mesh: 200,
        column_mesh: 201,
        column_material: 202,
    }
}

fn ghost_handles() -> GhostHandles {
    GhostHandles { ghost_material: 301, preview_material: 302 }
}

fn costs() -> TerraformCosts {
    TerraformCosts {
        raise_input: 401,
        raise_output: 402,
        lower_input: 403,
        lower_output: 404,
        change_input: 405,
        change_output: 406,
    }
}

fn run(queue: &mut CommandQueue, world: &mut World, index: &mut SpatialIndex) -> Result<
    (),
    CommandError,
> {
    drain(queue, world, index, &handles(), &ghost_handles(), &costs())
}

#[test]
fn ghost_previews_raise_then_commit_updates_terrain() {
    let mut world = World::new();
    let mut index = SpatialIndex::new(10);
    let mut queue = CommandQueue::new();
    let tile = TilePos::new(2, 3);

    queue.spawn_terrain(tile, Height::new(5), GRASS);
    run(&mut queue, &mut world, &mut index).unwrap();
    assert_eq!(index.get_height(tile), Some(Height::new(5)));

    queue.spawn_ghost_terrain(tile, STONE, TerraformingAction::Raise);
    run(&mut queue, &mut world, &mut index).unwrap();

    let ghost = index.get_ghost_terrain(tile).unwrap();
    let slot = world.get_slot(ghost).unwrap();
    match slot.payload {
        Payload::GhostRoot { projected_height, scene, .. } => {
            assert_eq!(projected_height, Height::new(6));
            assert_eq!(scene, 102);
        },
        _ => panic!("expected a ghost root"),
    }
    // The committed terrain is untouched by the preview.
    assert_eq!(index.get_height(tile), Some(Height::new(5)));

    // The zoning system marks the tile as having a requested edit.
    let terrain = index.get_terrain(tile).unwrap();
    world.set_payload(
        terrain,
        Payload::TerrainRoot {
            terrain_id: GRASS,
            tile,
            height: Height::new(5),
            scene: 101,
            zoning: Zoning::Requested(TerraformingAction::Raise),
        },
    );

    queue.apply_terraforming_action(tile, TerraformingAction::Raise);
    run(&mut queue, &mut world, &mut index).unwrap();

    assert_eq!(index.get_height(tile), Some(Height::new(6)));
    // The commit resolved the edit: the zoning marker is cleared.
    match world.get_slot(terrain).unwrap().payload {
        Payload::TerrainRoot { zoning, height, .. } => {
            assert_eq!(zoning, Zoning::Clear);
            assert_eq!(height, Height::new(6));
        },
        _ => panic!("expected a terrain root"),
    }
    // The ghost is untouched by the commit: removal is a separate command.
    assert!(world.contains(ghost));
    assert_eq!(index.get_ghost_terrain(tile), Some(ghost));
}

#[test]
fn despawn_ghost_on_empty_tile_is_noop() {
    let mut world = World::new();
    let mut index = SpatialIndex::new(10);
    let mut queue = CommandQueue::new();
    let tile = TilePos::new(0, 0);

    queue.spawn_terrain(tile, Height::new(1), GRASS);
    run(&mut queue, &mut world, &mut index).unwrap();

    let count_before = world.entity_count();
    queue.despawn_ghost_terrain(TilePos::new(4, 4));
    run(&mut queue, &mut world, &mut index).unwrap();
    assert_eq!(world.entity_count(), count_before);
    assert_eq!(index.get_terrain(tile), Some(0));
}

#[test]
fn spawning_second_ghost_replaces_first() {
    let mut world = World::new();
    let mut index = SpatialIndex::new(10);
    let mut queue = CommandQueue::new();
    let tile = TilePos::new(1, 1);

    queue.spawn_terrain(tile, Height::new(2), GRASS);
    queue.spawn_ghost_terrain(tile, STONE, TerraformingAction::Raise);
    run(&mut queue, &mut world, &mut index).unwrap();

    let first = index.get_ghost_terrain(tile).unwrap();
    let first_child = first + 1;
    assert!(world.contains(first));
    assert!(world.contains(first_child));

    queue.spawn_ghost_terrain(tile, STONE, TerraformingAction::Lower);
    run(&mut queue, &mut world, &mut index).unwrap();

    let second = index.get_ghost_terrain(tile).unwrap();
    assert_ne!(second, first);
    // The old ghost and its scene-root child are gone from the world.
    assert!(!world.contains(first));
    assert!(!world.contains(first_child));
    match world.get_slot(second).unwrap().payload {
        Payload::GhostRoot { projected_height, .. } => {
            assert_eq!(projected_height, Height::new(1));
        },
        _ => panic!("expected a ghost root"),
    }
}

#[test]
fn preview_leaves_index_alone() {
    let mut world = World::new();
    let mut index = SpatialIndex::new(10);
    let mut queue = CommandQueue::new();
    let tile = TilePos::new(3, 3);

    queue.spawn_terrain(tile, Height::new(4), GRASS);
    queue.spawn_ghost_terrain(tile, STONE, TerraformingAction::Raise);
    run(&mut queue, &mut world, &mut index).unwrap();

    let terrain = index.get_terrain(tile);
    let ghost = index.get_ghost_terrain(tile);
    let count_before = world.entity_count();

    queue.spawn_preview_terrain(tile, STONE, TerraformingAction::Lower);
    run(&mut queue, &mut world, &mut index).unwrap();

    // The index is untouched; the existing ghost is not replaced.
    assert_eq!(index.get_terrain(tile), terrain);
    assert_eq!(index.get_ghost_terrain(tile), ghost);
    assert_eq!(index.get_height(tile), Some(Height::new(4)));
    // A preview root was spawned, unindexed, with no children: terrain
    // took ids 0 through 3 and the ghost ids 4 and 5, so it is id 6.
    assert_eq!(world.entity_count(), count_before + 1);
    match world.get_slot(6).map(|s| s.payload) {
        Some(Payload::PreviewRoot { projected_height, .. }) => {
            assert_eq!(projected_height, Height::new(3));
        },
        _ => panic!("expected a preview root"),
    }
}

#[test]
fn despawn_ghost_removes_all_descendants() {
    let mut world = World::new();
    let mut index = SpatialIndex::new(10);
    let mut queue = CommandQueue::new();
    let tile = TilePos::new(5, 5);

    queue.spawn_terrain(tile, Height::new(0), GRASS);
    queue.spawn_ghost_terrain(tile, STONE, TerraformingAction::Raise);
    run(&mut queue, &mut world, &mut index).unwrap();

    let terrain = index.get_terrain(tile).unwrap();
    let ghost = index.get_ghost_terrain(tile).unwrap();
    let ghost_child = ghost + 1;
    assert!(world.contains(ghost_child));

    queue.despawn_ghost_terrain(tile);
    run(&mut queue, &mut world, &mut index).unwrap();

    assert_eq!(index.get_ghost_terrain(tile), None);
    assert!(!world.contains(ghost));
    assert!(!world.contains(ghost_child));
    // The terrain entity and its children are untouched.
    assert!(world.contains(terrain));
    assert!(world.contains(terrain + 1));
    assert!(world.contains(terrain + 2));
    assert!(world.contains(terrain + 3));
}

#[test]
fn raise_then_lower_restores_height_exactly() {
    let mut world = World::new();
    let mut index = SpatialIndex::new(10);
    let mut queue = CommandQueue::new();
    let tile = TilePos::new(-2, 7);

    queue.spawn_terrain(tile, Height::new(7), GRASS);
    queue.apply_terraforming_action(tile, TerraformingAction::Raise);
    queue.apply_terraforming_action(tile, TerraformingAction::Lower);
    run(&mut queue, &mut world, &mut index).unwrap();

    assert_eq!(index.get_height(tile), Some(Height::new(7)));
    let terrain = index.get_terrain(tile).unwrap();
    match world.get_slot(terrain).unwrap().payload {
        Payload::TerrainRoot { height, .. } => assert_eq!(height, Height::new(7)),
        _ => panic!("expected a terrain root"),
    }
}

#[test]
fn change_keeps_height_and_swaps_scene() {
    let mut world = World::new();
    let mut index = SpatialIndex::new(10);
    let mut queue = CommandQueue::new();
    let tile = TilePos::new(0, -9);

    queue.spawn_terrain(tile, Height::new(3), GRASS);
    queue.apply_terraforming_action(tile, TerraformingAction::Change(STONE));
    run(&mut queue, &mut world, &mut index).unwrap();

    assert_eq!(index.get_height(tile), Some(Height::new(3)));
    let terrain = index.get_terrain(tile).unwrap();
    match world.get_slot(terrain).unwrap().payload {
        Payload::TerrainRoot { terrain_id, height, scene, .. } => {
            assert_eq!(terrain_id, STONE);
            assert_eq!(height, Height::new(3));
            assert_eq!(scene, 102);
        },
        _ => panic!("expected a terrain root"),
    }
}

#[test]
fn order_of_ghost_and_commit_matters() {
    // In submission order: ghost first, then commit.
    let mut world_a = World::new();
    let mut index_a = SpatialIndex::new(10);
    let mut queue_a = CommandQueue::new();
    let tile = TilePos::new(6, 6);
    queue_a.spawn_terrain(tile, Height::new(5), GRASS);
    queue_a.spawn_ghost_terrain(tile, STONE, TerraformingAction::Raise);
    queue_a.apply_terraforming_action(tile, TerraformingAction::Raise);
    run(&mut queue_a, &mut world_a, &mut index_a).unwrap();
    let ghost_a = index_a.get_ghost_terrain(tile).unwrap();
    let projected_a = match world_a.get_slot(ghost_a).unwrap().payload {
        Payload::GhostRoot { projected_height, .. } => projected_height,
        _ => panic!("expected a ghost root"),
    };

    // Reordered: commit first, then ghost.
    let mut world_b = World::new();
    let mut index_b = SpatialIndex::new(10);
    let mut queue_b = CommandQueue::new();
    queue_b.spawn_terrain(tile, Height::new(5), GRASS);
    queue_b.apply_terraforming_action(tile, TerraformingAction::Raise);
    queue_b.spawn_ghost_terrain(tile, STONE, TerraformingAction::Raise);
    run(&mut queue_b, &mut world_b, &mut index_b).unwrap();
    let ghost_b = index_b.get_ghost_terrain(tile).unwrap();
    let projected_b = match world_b.get_slot(ghost_b).unwrap().payload {
        Payload::GhostRoot { projected_height, .. } => projected_height,
        _ => panic!("expected a ghost root"),
    };

    assert_eq!(projected_a, Height::new(6));
    assert_eq!(projected_b, Height::new(7));
    assert_ne!(projected_a, projected_b);
    // Both runs commit the same final terrain height.
    assert_eq!(index_a.get_height(tile), Some(Height::new(6)));
    assert_eq!(index_b.get_height(tile), Some(Height::new(6)));
}

#[test]
fn ghost_outside_bounds_is_silent_noop() {
    let mut world = World::new();
    let mut index = SpatialIndex::new(10);
    let mut queue = CommandQueue::new();

    queue.spawn_ghost_terrain(TilePos::new(99, 0), STONE, TerraformingAction::Raise);
    let outcome = run(&mut queue, &mut world, &mut index);
    assert_eq!(outcome, Ok(()));
    assert_eq!(world.entity_count(), 0);
    assert_eq!(index.get_ghost_terrain(TilePos::new(99, 0)), None);
}

#[test]
fn unknown_terrain_type_aborts_spawn() {
    let mut world = World::new();
    let mut index = SpatialIndex::new(10);
    let mut queue = CommandQueue::new();
    let tile = TilePos::new(0, 0);

    queue.spawn_terrain(tile, Height::new(1), 999);
    let outcome = run(&mut queue, &mut world, &mut index);
    assert_eq!(outcome, Err(CommandError::UnknownTerrainType));
    // The world is exactly as it was before the aborted command.
    assert_eq!(world.entity_count(), 0);
    assert_eq!(index.get_height(tile), None);
    assert_eq!(index.get_terrain(tile), None);
}

#[test]
fn ghost_without_recorded_height_aborts() {
    let mut world = World::new();
    let mut index = SpatialIndex::new(10);
    let mut queue = CommandQueue::new();

    queue.spawn_ghost_terrain(TilePos::new(1, 2), STONE, TerraformingAction::Raise);
    let outcome = run(&mut queue, &mut world, &mut index);
    assert_eq!(outcome, Err(CommandError::MissingHeight));
    assert_eq!(world.entity_count(), 0);
}

#[test]
fn terraforming_without_terrain_aborts() {
    let mut world = World::new();
    let mut index = SpatialIndex::new(10);
    let mut queue = CommandQueue::new();

    queue.apply_terraforming_action(TilePos::new(1, 2), TerraformingAction::Raise);
    let outcome = run(&mut queue, &mut world, &mut index);
    assert_eq!(outcome, Err(CommandError::MissingTerrain));
}

#[test]
fn terraforming_stale_terrain_aborts() {
    let mut world = World::new();
    let mut index = SpatialIndex::new(10);
    let mut queue = CommandQueue::new();
    let tile = TilePos::new(2, 2);

    queue.spawn_terrain(tile, Height::new(1), GRASS);
    run(&mut queue, &mut world, &mut index).unwrap();
    let terrain = index.get_terrain(tile).unwrap();

    // Another system tears the entity down behind the index's back.
    world.despawn_recursive(terrain);

    queue.apply_terraforming_action(tile, TerraformingAction::Raise);
    let outcome = run(&mut queue, &mut world, &mut index);
    assert_eq!(outcome, Err(CommandError::StaleTerrain));
}

#[test]
fn change_to_unknown_type_aborts() {
    let mut world = World::new();
    let mut index = SpatialIndex::new(10);
    let mut queue = CommandQueue::new();
    let tile = TilePos::new(2, 2);

    queue.spawn_terrain(tile, Height::new(1), GRASS);
    run(&mut queue, &mut world, &mut index).unwrap();

    queue.apply_terraforming_action(tile, TerraformingAction::Change(999));
    let outcome = run(&mut queue, &mut world, &mut index);
    assert_eq!(outcome, Err(CommandError::UnknownTerrainType));
    assert_eq!(index.get_height(tile), Some(Height::new(1)));
}

#[test]
fn drain_stops_at_first_aborted_command() {
    let mut world = World::new();
    let mut index = SpatialIndex::new(10);
    let mut queue = CommandQueue::new();
    let first = TilePos::new(0, 0);
    let third = TilePos::new(1, 0);

    queue.spawn_terrain(first, Height::new(1), GRASS);
    queue.apply_terraforming_action(TilePos::new(9, 9), TerraformingAction::Raise);
    queue.spawn_terrain(third, Height::new(2), GRASS);
    let outcome = run(&mut queue, &mut world, &mut index);

    assert_eq!(outcome, Err(CommandError::MissingTerrain));
    // The command before the aborted one stays applied ...
    assert!(index.get_terrain(first).is_some());
    // ... and the one after it was discarded with the queue.
    assert_eq!(index.get_terrain(third), None);
}

#[test]
fn spawn_terrain_overwrites_previous_entry() {
    let mut world = World::new();
    let mut index = SpatialIndex::new(10);
    let mut queue = CommandQueue::new();
    let tile = TilePos::new(4, -4);

    queue.spawn_terrain(tile, Height::new(1), GRASS);
    run(&mut queue, &mut world, &mut index).unwrap();
    let old_root = index.get_terrain(tile).unwrap();

    queue.spawn_terrain(tile, Height::new(9), STONE);
    run(&mut queue, &mut world, &mut index).unwrap();

    let new_root = index.get_terrain(tile).unwrap();
    assert_ne!(new_root, old_root);
    assert_eq!(index.get_height(tile), Some(Height::new(9)));
    match world.get_slot(new_root).unwrap().payload {
        Payload::TerrainRoot { terrain_id, .. } => assert_eq!(terrain_id, STONE),
        _ => panic!("expected a terrain root"),
    }
}
