//! The shared entity store: an arena of entities with parent links.
//!
//! Entities are addressed by the index at which they were created; indices
//! are never reused, a despawned entity only has its `alive` flag cleared.
//! Every entity carries one component payload and an optional parent link.
//! Parents are always created before their children, so a parent's index is
//! smaller than the child's; teardown of an entity removes every descendant
//! reachable through parent links.

use vstd::prelude::*;
use crate::actions::{TerraformingAction, TerrainId, Zoning};
use crate::assets::{AssetId, InventoryId};
use crate::geometry::{Height, TilePos};

verus! {

/// Identifier of an entity: its slot index in the arena.
pub type EntityId = usize;

/// The component data carried by one entity.
#[derive(Clone, Copy, Debug)]
pub enum Payload {
    /// Root of a committed terrain tile.
    TerrainRoot {
        /// Terrain type of the tile.
        terrain_id: TerrainId,
        /// Coordinate of the tile.
        tile: TilePos,
        /// Committed elevation of the tile.
        height: Height,
        /// Scene handle of the tile's visual asset.
        scene: AssetId,
        /// Pending-edit marker of the tile.
        zoning: Zoning,
    },
    /// Root of a persistent ghost preview, registered in the spatial index.
    GhostRoot {
        /// Action the ghost previews.
        action: TerraformingAction,
        /// Coordinate of the previewed tile.
        tile: TilePos,
        /// Tint material marking the entity as a ghost.
        material: AssetId,
        /// Scene handle of the previewed terrain type.
        scene: AssetId,
        /// Elevation the tile would have after the action.
        projected_height: Height,
        /// Resources the action would consume.
        input_inventory: InventoryId,
        /// Resources the action would produce.
        output_inventory: InventoryId,
    },
    /// Root of a transient preview, never registered in the spatial index.
    PreviewRoot {
        /// Action the preview previews.
        action: TerraformingAction,
        /// Coordinate of the previewed tile.
        tile: TilePos,
        /// Tint material marking the entity as a preview.
        material: AssetId,
        /// Scene handle of the previewed terrain type.
        scene: AssetId,
        /// Elevation the tile would have after the action.
        projected_height: Height,
    },
    /// Decorative column under a terrain tile.
    Column {
        /// Mesh of the column.
        mesh: AssetId,
        /// Material of the column.
        material: AssetId,
    },
    /// Hidden overlay copy of the tile topper, slightly oversized so it
    /// never z-fights the topper when shown.
    OverlayTopper {
        /// Mesh shared with the tile topper.
        mesh: AssetId,
        /// Whether the overlay is currently shown.
        visible: bool,
        /// Uniform scale in thousandths; slightly above 1000.
        scale_per_mille: u64,
    },
    /// Root of the loaded visual scene of an entity.
    SceneRoot {
        /// Scene handle of the visual asset.
        scene: AssetId,
    },
}

/// One slot of the arena.
#[derive(Clone, Copy, Debug)]
pub struct Slot {
    /// Whether the entity exists; cleared on despawn, never set again.
    pub alive: bool,
    /// The entity this one is a child of, if any; always a smaller index.
    pub parent: Option<EntityId>,
    /// Component data of the entity.
    pub payload: Payload,
}

/// Whether `e` names a live slot of `s`.
pub open spec fn slot_alive(s: Seq<Slot>, e: int) -> bool {
    0 <= e < s.len() && s[e].alive
}

/// Whether `e` is `root` or a descendant of `root` through parent links.
///
/// Parent links of live entities always point to smaller indices, so the
/// recursion descends.
pub open spec fn in_subtree(s: Seq<Slot>, root: int, e: int) -> bool
    decreases e,
{
    if e == root {
        true
    } else if 0 <= e && e < s.len() {
        match s[e].parent {
            Some(p) => p < e && in_subtree(s, root, p as int),
            None => false,
        }
    } else {
        false
    }
}

/// How a store changes when the subtree rooted at `root` is despawned:
/// every slot keeps its parent and payload, and exactly the live members
/// of the subtree lose their `alive` flag.
pub open spec fn despawned_from(pre: Seq<Slot>, post: Seq<Slot>, root: int) -> bool {
    &&& post.len() == pre.len()
    &&& forall|e: int|
        0 <= e < pre.len() ==> (#[trigger] post[e]).parent == pre[e].parent
            && post[e].payload == pre[e].payload
    &&& forall|e: int|
        0 <= e < pre.len() ==> (#[trigger] post[e]).alive == (pre[e].alive && !in_subtree(
            pre,
            root,
            e,
        ))
}

/// Number of live entities in the store.
pub open spec fn alive_count(s: Seq<Slot>) -> nat
    decreases s.len(),
{
    if s.len() == 0 {
        0
    } else {
        alive_count(s.drop_last()) + if s.last().alive {
            1nat
        } else {
            0nat
        }
    }
}

/// An entity below the root of a subtree is never a member of it.
pub proof fn lemma_subtree_below_root(s: Seq<Slot>, root: int, e: int)
    requires
        e < root,
    ensures
        !in_subtree(s, root, e),
    decreases e,
{
    if e != root && 0 <= e && e < s.len() {
        match s[e].parent {
            Some(p) => {
                if p < e {
                    lemma_subtree_below_root(s, root, p as int);
                }
            },
            None => {},
        }
    }
}

/// The shared entity store.
pub struct World {
    /// The arena; an entity's identifier is its index here.
    pub slots: Vec<Slot>,
}

impl World {
    /// Whether `e` names a live entity.
    pub open spec fn is_alive(self, e: int) -> bool {
        slot_alive(self.slots@, e)
    }

    /// Well-formedness: a live entity's parent link, if any, points to a
    /// smaller index that is itself live.
    pub open spec fn wf(self) -> bool {
        forall|i: int|
            0 <= i < self.slots@.len() && (#[trigger] self.slots@[i]).alive ==> match self.slots@[i].parent {
                Some(p) => p < i && self.slots@[p as int].alive,
                None => true,
            }
    }

    /// An empty store.
    pub fn new() -> (r: World)
        ensures
            r.wf(),
            r.slots@.len() == 0,
    {
        World { slots: Vec::new() }
    }

    /// Spawns a new root entity carrying `payload`; returns its identifier.
    pub fn spawn_root(&mut self, payload: Payload) -> (r: EntityId)
        requires
            old(self).wf(),
        ensures
            final(self).wf(),
            r == old(self).slots@.len(),
            final(self).slots@ == old(self).slots@.push(
                Slot { alive: true, parent: None, payload },
            ),
    {
        let id = self.slots.len();
        self.slots.push(Slot { alive: true, parent: None, payload });
        id
    }

    /// Spawns a new entity carrying `payload` as a child of `parent`.
    pub fn spawn_child(&mut self, parent: EntityId, payload: Payload) -> (r: EntityId)
        requires
            old(self).wf(),
            old(self).is_alive(parent as int),
        ensures
            final(self).wf(),
            r == old(self).slots@.len(),
            final(self).slots@ == old(self).slots@.push(
                Slot { alive: true, parent: Some(parent), payload },
            ),
    {
        let id = self.slots.len();
        self.slots.push(Slot { alive: true, parent: Some(parent), payload });
        id
    }

    /// Whether the store currently contains a live entity named `e`.
    pub fn contains(&self, e: EntityId) -> (r: bool)
        ensures
            r == self.is_alive(e as int),
    {
        e < self.slots.len() && self.slots[e].alive
    }

    /// The slot of entity `e`, or `None` if `e` was never created.
    pub fn get_slot(&self, e: EntityId) -> (r: Option<Slot>)
        ensures
            match r {
                Some(s) => e < self.slots@.len() && s == self.slots@[e as int],
                None => e >= self.slots@.len(),
            },
    {
        if e < self.slots.len() {
            Some(self.slots[e])
        } else {
            None
        }
    }

    /// Replaces the payload of the live entity `e`.
    pub fn set_payload(&mut self, e: EntityId, payload: Payload)
        requires
            old(self).wf(),
            old(self).is_alive(e as int),
        ensures
            final(self).wf(),
            final(self).slots@ == old(self).slots@.update(
                e as int,
                Slot { payload, ..old(self).slots@[e as int] },
            ),
    {
        let mut s = self.slots[e];
        s.payload = payload;
        self.slots.set(e, s);
        proof {
            assert forall|i: int|
                0 <= i < self.slots@.len() && (#[trigger] self.slots@[i]).alive implies match self.slots@[i].parent {
                Some(p) => p < i && self.slots@[p as int].alive,
                None => true,
            } by {
                assert(self.slots@[i].parent == old(self).slots@[i].parent);
                assert(self.slots@[i].alive == old(self).slots@[i].alive);
            }
        }
    }

    /// Despawns entity `e` and every descendant of it; a no-op if `e` is
    /// not a live entity.
    pub fn despawn_recursive(&mut self, e: EntityId)
        requires
            old(self).wf(),
        ensures
            final(self).wf(),
            old(self).is_alive(e as int) ==> despawned_from(
                old(self).slots@,
                final(self).slots@,
                e as int,
            ),
            !old(self).is_alive(e as int) ==> *final(self) == *old(self),
    {
        let ghost orig = self.slots@;
        if e >= self.slots.len() {
            return ;
        }
        let root_slot = self.slots[e];
        if !root_slot.alive {
            return ;
        }
        let mut s = root_slot;
        s.alive = false;
        self.slots.set(e, s);
        let mut i: usize = e + 1;
        proof {
            assert forall|k: int| 0 <= k < e implies !in_subtree(orig, e as int, k) by {
                lemma_subtree_below_root(orig, e as int, k);
            }
        }
        while i < self.slots.len()
            invariant
                e < i <= self.slots@.len(),
                self.slots@.len() == orig.len(),
                orig[e as int].alive,
                forall|k: int|
                    0 <= k < orig.len() ==> (#[trigger] self.slots@[k]).parent == orig[k].parent
                        && self.slots@[k].payload == orig[k].payload,
                forall|k: int|
                    0 <= k < i ==> (#[trigger] self.slots@[k]).alive == (orig[k].alive
                        && !in_subtree(orig, e as int, k)),
                forall|k: int|
                    i <= k < orig.len() ==> (#[trigger] self.slots@[k]).alive == orig[k].alive,
                forall|k: int|
                    0 <= k < orig.len() && (#[trigger] orig[k]).alive ==> match orig[k].parent {
                        Some(p) => p < k && orig[p as int].alive,
                        None => true,
                    },
            decreases self.slots@.len() - i,
        {
            let s = self.slots[i];
            if s.alive {
                match s.parent {
                    Some(p) => {
                        if !self.slots[p].alive {
                            let mut s2 = s;
                            s2.alive = false;
                            self.slots.set(i, s2);
                        }
                    },
                    None => {},
                }
            }
            proof {
                let k = i as int;
                if orig[k].alive {
                    match orig[k].parent {
                        Some(p) => {
                            assert(p < k && orig[p as int].alive);
                            assert(in_subtree(orig, e as int, k) == in_subtree(
                                orig,
                                e as int,
                                p as int,
                            ));
                        },
                        None => {
                            assert(!in_subtree(orig, e as int, k));
                        },
                    }
                }
            }
            i = i + 1;
        }
        proof {
            assert(despawned_from(orig, self.slots@, e as int));
            assert forall|k: int|
                0 <= k < self.slots@.len() && (#[trigger] self.slots@[k]).alive implies match self.slots@[k].parent {
                Some(p) => p < k && self.slots@[p as int].alive,
                None => true,
            } by {
                assert(orig[k].alive && !in_subtree(orig, e as int, k));
                match orig[k].parent {
                    Some(p) => {
                        assert(p < k && orig[p as int].alive);
                        if k != e as int {
                            assert(!in_subtree(orig, e as int, p as int));
                        }
                    },
                    None => {},
                }
            }
        }
    }

    /// Number of live entities in the store.
    pub fn entity_count(&self) -> (r: usize)
        ensures
            r == alive_count(self.slots@),
    {
        let mut count: usize = 0;
        let mut i: usize = 0;
        proof {
            assert(self.slots@.take(0) =~= Seq::<Slot>::empty());
        }
        while i < self.slots.len()
            invariant
                i <= self.slots@.len(),
                count <= i,
                count == alive_count(self.slots@.take(i as int)),
            decreases self.slots@.len() - i,
        {
            proof {
                assert(self.slots@.take(i as int + 1).drop_last() =~= self.slots@.take(i as int));
                assert(self.slots@.take(i as int + 1).last() == self.slots@[i as int]);
            }
            if self.slots[i].alive {
                count = count + 1;
            }
            i = i + 1;
        }
        proof {
            assert(self.slots@.take(self.slots@.len() as int) =~= self.slots@);
        }
        count
    }
}

} // verus!
