use terrain_core::actions::{GhostKind, TerraformingAction};
use terrain_core::assets::{GhostHandles, TerraformCosts, TerrainHandles};
use terrain_core::geometry::{Height, TilePos};
use terrain_core::index::SpatialIndex;
use terrain_core::templates::{terrain_template, OVERLAY_OVERSIZE_PER_MILLE};
use terrain_core::world::{Payload, World};

#[test]
fn height_raise_and_lower_step_by_one() {
    let mut h = Height::new(5);
    h.raise();
    assert_eq!(h, Height::new(6));
    h.lower();
    h.lower();
    assert_eq!(h, Height::new(4));
}

#[test]
fn height_saturates_at_the_numeric_limits() {
    let mut top = Height::new(i64::MAX);
    top.raise();
    assert_eq!(top, Height::new(i64::MAX));
    let mut bottom = Height::new(i64::MIN);
    bottom.lower();
    assert_eq!(bottom, Height::new(i64::MIN));
}

#[test]
fn previewed_height_follows_the_action() {
    let h = Height::new(5);
    assert_eq!(TerraformingAction::Raise.previewed_height(h), Height::new(6));
    assert_eq!(TerraformingAction::Lower.previewed_height(h), Height::new(4));
    assert_eq!(TerraformingAction::Change(7).previewed_height(h), Height::new(5));
    assert_eq!(TerraformingAction::Change(7).previewed_terrain(3), 7);
    assert_eq!(TerraformingAction::Raise.previewed_terrain(3), 3);
}

#[test]
fn index_upserts_and_removals() {
    let mut index = SpatialIndex::new(10);
    let tile = TilePos::new(2, -3);
    let other = TilePos::new(-2, 3);

    assert_eq!(index.get_height(tile), None);
    index.update_height(tile, Height::new(4));
    index.add_terrain(tile, 17);
    index.add_ghost_terrain(23, tile);
    index.update_height(other, Height::new(1));

    assert_eq!(index.get_height(tile), Some(Height::new(4)));
    assert_eq!(index.get_terrain(tile), Some(17));
    assert_eq!(index.get_ghost_terrain(tile), Some(23));
    assert_eq!(index.get_height(other), Some(Height::new(1)));
    assert_eq!(index.get_terrain(other), None);

    // Upserts overwrite in place.
    index.update_height(tile, Height::new(9));
    index.add_terrain(tile, 18);
    assert_eq!(index.get_height(tile), Some(Height::new(9)));
    assert_eq!(index.get_terrain(tile), Some(18));

    // Removal returns the prior ghost, once.
    assert_eq!(index.remove_ghost_terrain(tile), Some(23));
    assert_eq!(index.get_ghost_terrain(tile), None);
    assert_eq!(index.remove_ghost_terrain(tile), None);
    // Terrain and height survive the ghost's removal.
    assert_eq!(index.get_terrain(tile), Some(18));
    assert_eq!(index.get_height(tile), Some(Height::new(9)));
}

#[test]
fn index_bounds_check() {
    let index = SpatialIndex::new(3);
    assert!(index.is_valid(TilePos::new(0, 0)));
    assert!(index.is_valid(TilePos::new(-3, 3)));
    assert!(!index.is_valid(TilePos::new(4, 0)));
    assert!(!index.is_valid(TilePos::new(0, -4)));
}

#[test]
fn ghost_and_preview_materials_differ_by_kind() {
    let handles = GhostHandles { ghost_material: 31, preview_material: 32 };
    assert_eq!(handles.get_material(GhostKind::Persistent), 31);
    assert_eq!(handles.get_material(GhostKind::Preview), 32);
}

#[test]
fn scene_lookup_finds_known_types_only() {
    let handles = TerrainHandles {
        scenes: vec![(1, 101), (2, 102)],
        topper_mesh: 200,
        column_mesh: 201,
        column_material: 202,
    };
    assert_eq!(handles.get_scene(1), Some(101));
    assert_eq!(handles.get_scene(2), Some(102));
    assert_eq!(handles.get_scene(3), None);
}

#[test]
fn costs_follow_the_action() {
    let costs = TerraformCosts {
        raise_input: 1,
        raise_output: 2,
        lower_input: 3,
        lower_output: 4,
        change_input: 5,
        change_output: 6,
    };
    assert_eq!(costs.input_inventory(TerraformingAction::Raise), 1);
    assert_eq!(costs.output_inventory(TerraformingAction::Raise), 2);
    assert_eq!(costs.input_inventory(TerraformingAction::Lower), 3);
    assert_eq!(costs.output_inventory(TerraformingAction::Lower), 4);
    assert_eq!(costs.input_inventory(TerraformingAction::Change(9)), 5);
    assert_eq!(costs.output_inventory(TerraformingAction::Change(9)), 6);
}

#[test]
fn terrain_children_keep_their_mandatory_order() {
    let handles = TerrainHandles {
        scenes: vec![(1, 101)],
        topper_mesh: 200,
        column_mesh: 201,
        column_material: 202,
    };
    let mut world = World::new();
    let template = terrain_template(TilePos::new(0, 0), Height::new(2), 1, 101, &handles);
    let root = template.instantiate(&mut world);

    // Child 0: the decorative column.
    match world.get_slot(root + 1).unwrap().payload {
        Payload::Column { mesh, material } => {
            assert_eq!(mesh, 201);
            assert_eq!(material, 202);
        },
        _ => panic!("child 0 must be the column"),
    }
    // Child 1: the hidden overlay, slightly oversized.
    match world.get_slot(root + 2).unwrap().payload {
        Payload::OverlayTopper { mesh, visible, scale_per_mille } => {
            assert_eq!(mesh, 200);
            assert!(!visible);
            assert_eq!(scale_per_mille, OVERLAY_OVERSIZE_PER_MILLE);
            assert!(scale_per_mille > 1000);
        },
        _ => panic!("child 1 must be the overlay"),
    }
    // Child 2: the visual scene root.
    match world.get_slot(root + 3).unwrap().payload {
        Payload::SceneRoot { scene } => assert_eq!(scene, 101),
        _ => panic!("child 2 must be the scene root"),
    }
    // All three are children of the root.
    assert_eq!(world.get_slot(root + 1).unwrap().parent, Some(root));
    assert_eq!(world.get_slot(root + 2).unwrap().parent, Some(root));
    assert_eq!(world.get_slot(root + 3).unwrap().parent, Some(root));
    assert_eq!(world.get_slot(root).unwrap().parent, None);
}

#[test]
fn despawn_recursive_on_dead_entity_changes_nothing() {
    let mut world = World::new();
    let root = world.spawn_root(Payload::SceneRoot { scene: 1 });
    let child = world.spawn_child(root, Payload::SceneRoot { scene: 2 });
    world.despawn_recursive(root);
    assert!(!world.contains(root));
    assert!(!world.contains(child));
    let count = world.entity_count();
    world.despawn_recursive(root);
    assert_eq!(world.entity_count(), count);
}
