//! The spatial index: the authoritative mapping from tile coordinate to
//! terrain entity, ghost entity and committed elevation.
//!
//! The index holds at most one record per tile, so a tile can never carry
//! two terrain entities or two ghost entities at once. Bounds knowledge is
//! delegated to map geometry; here it is a square half-extent.

use vstd::prelude::*;
use crate::geometry::{Height, TilePos};
use crate::world::EntityId;

verus! {

/// Everything the index records about one tile.
#[derive(Clone, Copy, Debug)]
pub struct TileRecord {
    /// The tile the record belongs to.
    pub tile: TilePos,
    /// The committed terrain entity at the tile, if any.
    pub terrain: Option<EntityId>,
    /// The ghost entity previewing a pending edit at the tile, if any.
    pub ghost_entity: Option<EntityId>,
    /// The committed elevation of the tile, if any.
    pub height: Option<Height>,
}

/// First record for `tile` in an association sequence.
pub open spec fn find_record(s: Seq<TileRecord>, tile: TilePos) -> Option<TileRecord>
    decreases s.len(),
{
    if s.len() == 0 {
        None
    } else if s[0].tile == tile {
        Some(s[0])
    } else {
        find_record(s.skip(1), tile)
    }
}

/// The authoritative tile state of the world.
pub struct SpatialIndex {
    /// One record per tile that has ever been touched.
    pub records: Vec<TileRecord>,
    /// Half-extent of the world: a tile is in bounds when both of its
    /// coordinates lie in `[-radius, radius]`.
    pub radius: i64,
}

impl SpatialIndex {
    /// Well-formedness: the extent is non-negative and no tile appears
    /// in two records.
    pub open spec fn wf(self) -> bool {
        &&& 0 <= self.radius
        &&& forall|i: int, j: int|
            0 <= i < j < self.records@.len() ==> (#[trigger] self.records@[i]).tile != (
            #[trigger] self.records@[j]).tile
    }

    /// The terrain entity recorded at `tile`.
    pub open spec fn terrain_at(self, tile: TilePos) -> Option<EntityId> {
        match find_record(self.records@, tile) {
            Some(r) => r.terrain,
            None => None,
        }
    }

    /// The ghost entity recorded at `tile`.
    pub open spec fn ghost_at(self, tile: TilePos) -> Option<EntityId> {
        match find_record(self.records@, tile) {
            Some(r) => r.ghost_entity,
            None => None,
        }
    }

    /// The committed elevation recorded at `tile`.
    pub open spec fn height_at(self, tile: TilePos) -> Option<Height> {
        match find_record(self.records@, tile) {
            Some(r) => r.height,
            None => None,
        }
    }

    /// Whether `tile` lies within the world's extent.
    pub open spec fn valid_spec(self, tile: TilePos) -> bool {
        -self.radius <= tile.x <= self.radius && -self.radius <= tile.y <= self.radius
    }

    /// An empty index for a world of the given half-extent.
    pub fn new(radius: i64) -> (r: SpatialIndex)
        requires
            0 <= radius,
        ensures
            r.wf(),
            r.radius == radius,
            forall|t: TilePos| #[trigger] r.terrain_at(t) is None,
            forall|t: TilePos| #[trigger] r.ghost_at(t) is None,
            forall|t: TilePos| #[trigger] r.height_at(t) is None,
    {
        SpatialIndex { records: Vec::new(), radius }
    }

    /// Index of the record for `tile`, if one exists.
    fn find_index(&self, tile: TilePos) -> (r: Option<usize>)
        ensures
            match r {
                Some(i) => i < self.records@.len() && self.records@[i as int].tile == tile
                    && find_record(self.records@, tile) == Some(self.records@[i as int]) && (forall|
                    j: int,
                |
                    0 <= j < i ==> (#[trigger] self.records@[j]).tile != tile),
                None => find_record(self.records@, tile) is None && (forall|j: int|
                    0 <= j < self.records@.len() ==> (#[trigger] self.records@[j]).tile != tile),
            },
    {
        let mut i: usize = 0;
        proof {
            assert(self.records@.skip(0) =~= self.records@);
        }
        while i < self.records.len()
            invariant
                i <= self.records@.len(),
                find_record(self.records@, tile) == find_record(
                    self.records@.skip(i as int),
                    tile,
                ),
                forall|j: int| 0 <= j < i ==> (#[trigger] self.records@[j]).tile != tile,
            decreases self.records@.len() - i,
        {
            let r = self.records[i];
            proof {
                assert(self.records@.skip(i as int)[0] == self.records@[i as int]);
                assert(self.records@.skip(i as int).skip(1) =~= self.records@.skip(i as int + 1));
            }
            if r.tile == tile {
                return Some(i);
            }
            i = i + 1;
        }
        None
    }

    /// Unconditionally records `height` as the committed elevation of
    /// `tile`; terrain and ghost entries are untouched. Bounds are not
    /// checked: validity is the caller's responsibility.
    pub fn update_height(&mut self, tile: TilePos, height: Height)
        requires
            old(self).wf(),
        ensures
            final(self).wf(),
            final(self).radius == old(self).radius,
            final(self).height_at(tile) == Some(height),
            final(self).terrain_at(tile) == old(self).terrain_at(tile),
            final(self).ghost_at(tile) == old(self).ghost_at(tile),
            forall|t: TilePos|
                t != tile ==> #[trigger] final(self).height_at(t) == old(self).height_at(t),
            forall|t: TilePos|
                t != tile ==> #[trigger] final(self).terrain_at(t) == old(self).terrain_at(t),
            forall|t: TilePos|
                t != tile ==> #[trigger] final(self).ghost_at(t) == old(self).ghost_at(t),
    {
        match self.find_index(tile) {
            Some(i) => {
                let mut r = self.records[i];
                r.height = Some(height);
                self.records.set(i, r);
                proof {
                    lemma_find_update_same_tile(old(self).records@, i as int, r);
                }
            },
            None => {
                let r = TileRecord { tile, terrain: None, ghost_entity: None, height: Some(height) };
                self.records.push(r);
                proof {
                    lemma_find_push(old(self).records@, r);
                }
            },
        }
    }

    /// Records `entity` as the committed terrain at `tile`, overwriting
    /// any earlier terrain entry; ghost and height entries are untouched.
    pub fn add_terrain(&mut self, tile: TilePos, entity: EntityId)
        requires
            old(self).wf(),
        ensures
            final(self).wf(),
            final(self).radius == old(self).radius,
            final(self).terrain_at(tile) == Some(entity),
            final(self).ghost_at(tile) == old(self).ghost_at(tile),
            final(self).height_at(tile) == old(self).height_at(tile),
            forall|t: TilePos|
                t != tile ==> #[trigger] final(self).height_at(t) == old(self).height_at(t),
            forall|t: TilePos|
                t != tile ==> #[trigger] final(self).terrain_at(t) == old(self).terrain_at(t),
            forall|t: TilePos|
                t != tile ==> #[trigger] final(self).ghost_at(t) == old(self).ghost_at(t),
    {
        match self.find_index(tile) {
            Some(i) => {
                let mut r = self.records[i];
                r.terrain = Some(entity);
                self.records.set(i, r);
                proof {
                    lemma_find_update_same_tile(old(self).records@, i as int, r);
                }
            },
            None => {
                let r = TileRecord { tile, terrain: Some(entity), ghost_entity: None, height: None };
                self.records.push(r);
                proof {
                    lemma_find_push(old(self).records@, r);
                }
            },
        }
    }

    /// Records `entity` as the ghost at `tile`, overwriting any earlier
    /// ghost entry; the caller has either ensured no ghost exists or
    /// accepted the overwrite.
    pub fn add_ghost_terrain(&mut self, entity: EntityId, tile: TilePos)
        requires
            old(self).wf(),
        ensures
            final(self).wf(),
            final(self).radius == old(self).radius,
            final(self).ghost_at(tile) == Some(entity),
            final(self).terrain_at(tile) == old(self).terrain_at(tile),
            final(self).height_at(tile) == old(self).height_at(tile),
            forall|t: TilePos|
                t != tile ==> #[trigger] final(self).height_at(t) == old(self).height_at(t),
            forall|t: TilePos|
                t != tile ==> #[trigger] final(self).terrain_at(t) == old(self).terrain_at(t),
            forall|t: TilePos|
                t != tile ==> #[trigger] final(self).ghost_at(t) == old(self).ghost_at(t),
    {
        match self.find_index(tile) {
            Some(i) => {
                let mut r = self.records[i];
                r.ghost_entity = Some(entity);
                self.records.set(i, r);
                proof {
                    lemma_find_update_same_tile(old(self).records@, i as int, r);
                }
            },
            None => {
                let r = TileRecord { tile, terrain: None, ghost_entity: Some(entity), height: None };
                self.records.push(r);
                proof {
                    lemma_find_push(old(self).records@, r);
                }
            },
        }
    }

    /// Removes and returns the ghost entry at `tile`; `None`, and no
    /// change at all, if the tile has no ghost.
    pub fn remove_ghost_terrain(&mut self, tile: TilePos) -> (r: Option<EntityId>)
        requires
            old(self).wf(),
        ensures
            final(self).wf(),
            final(self).radius == old(self).radius,
            r == old(self).ghost_at(tile),
            final(self).ghost_at(tile) is None,
            final(self).terrain_at(tile) == old(self).terrain_at(tile),
            final(self).height_at(tile) == old(self).height_at(tile),
            r is None ==> *final(self) == *old(self),
            forall|t: TilePos|
                t != tile ==> #[trigger] final(self).height_at(t) == old(self).height_at(t),
            forall|t: TilePos|
                t != tile ==> #[trigger] final(self).terrain_at(t) == old(self).terrain_at(t),
            forall|t: TilePos|
                t != tile ==> #[trigger] final(self).ghost_at(t) == old(self).ghost_at(t),
    {
        match self.find_index(tile) {
            Some(i) => {
                let mut r = self.records[i];
                match r.ghost_entity {
                    Some(g) => {
                        r.ghost_entity = None;
                        self.records.set(i, r);
                        proof {
                            lemma_find_update_same_tile(old(self).records@, i as int, r);
                        }
                        Some(g)
                    },
                    None => None,
                }
            },
            None => None,
        }
    }

    /// The committed terrain entity at `tile`, if any.
    pub fn get_terrain(&self, tile: TilePos) -> (r: Option<EntityId>)
        ensures
            r == self.terrain_at(tile),
    {
        match self.find_index(tile) {
            Some(i) => self.records[i].terrain,
            None => None,
        }
    }

    /// The ghost entity at `tile`, if any.
    pub fn get_ghost_terrain(&self, tile: TilePos) -> (r: Option<EntityId>)
        ensures
            r == self.ghost_at(tile),
    {
        match self.find_index(tile) {
            Some(i) => self.records[i].ghost_entity,
            None => None,
        }
    }

    /// The committed elevation at `tile`, if any.
    pub fn get_height(&self, tile: TilePos) -> (r: Option<Height>)
        ensures
            r == self.height_at(tile),
    {
        match self.find_index(tile) {
            Some(i) => self.records[i].height,
            None => None,
        }
    }

    /// Whether `tile` lies within the world's extent.
    pub fn is_valid(&self, tile: TilePos) -> (r: bool)
        requires
            self.wf(),
        ensures
            r == self.valid_spec(tile),
    {
        -self.radius <= tile.x && tile.x <= self.radius && -self.radius <= tile.y && tile.y
            <= self.radius
    }
}

/// After any sequence of operations a well-formed index holds at most one
/// record for any tile: two distinct record positions never name the same
/// tile, so at most one terrain entity and at most one ghost entity is
/// registered per tile.
pub proof fn lemma_index_uniqueness(ix: SpatialIndex, tile: TilePos, i: int, j: int)
    requires
        ix.wf(),
        0 <= i < ix.records@.len(),
        0 <= j < ix.records@.len(),
        i != j,
        ix.records@[i].tile == tile,
    ensures
        ix.records@[j].tile != tile,
{
}

/// Replacing the first record of a tile with another record of the same
/// tile changes lookups only at that tile.
proof fn lemma_find_update_same_tile(s: Seq<TileRecord>, i: int, r: TileRecord)
    requires
        0 <= i < s.len(),
        s[i].tile == r.tile,
        forall|j: int| 0 <= j < i ==> (#[trigger] s[j]).tile != r.tile,
    ensures
        find_record(s.update(i, r), r.tile) == Some(r),
        forall|t: TilePos|
            t != r.tile ==> #[trigger] find_record(s.update(i, r), t) == find_record(s, t),
    decreases s.len(),
{
    let s2 = s.update(i, r);
    if i == 0 {
        assert(s2[0] == r);
        assert forall|t: TilePos| t != r.tile implies #[trigger] find_record(s2, t) == find_record(
            s,
            t,
        ) by {
            assert(s2.skip(1) =~= s.skip(1));
            assert(s2[0].tile == s[0].tile);
        }
    } else {
        assert(s2[0] == s[0]);
        assert(s[0].tile != r.tile);
        assert(s.skip(1).update(i - 1, r) =~= s2.skip(1));
        assert forall|j: int| 0 <= j < i - 1 implies (#[trigger] s.skip(1)[j]).tile != r.tile by {
            assert(s.skip(1)[j] == s[j + 1]);
        }
        lemma_find_update_same_tile(s.skip(1), i - 1, r);
        assert(find_record(s2, r.tile) == find_record(s2.skip(1), r.tile));
        assert forall|t: TilePos| t != r.tile implies #[trigger] find_record(s2, t) == find_record(
            s,
            t,
        ) by {
            if s[0].tile == t {
                assert(find_record(s2, t) == Some(s2[0]));
                assert(find_record(s, t) == Some(s[0]));
            } else {
                assert(find_record(s2, t) == find_record(s2.skip(1), t));
                assert(find_record(s, t) == find_record(s.skip(1), t));
            }
        }
    }
}

/// Appending a record for a tile that has no record yet changes lookups
/// only at that tile.
proof fn lemma_find_push(s: Seq<TileRecord>, r: TileRecord)
    requires
        forall|j: int| 0 <= j < s.len() ==> (#[trigger] s[j]).tile != r.tile,
    ensures
        find_record(s.push(r), r.tile) == Some(r),
        forall|t: TilePos| t != r.tile ==> #[trigger] find_record(s.push(r), t) == find_record(s, t),
    decreases s.len(),
{
    let s2 = s.push(r);
    if s.len() == 0 {
        assert(s2[0] == r);
        assert forall|t: TilePos| t != r.tile implies #[trigger] find_record(s2, t) == find_record(
            s,
            t,
        ) by {
            assert(s2.len() == 1);
            assert(s2[0] == r);
            assert(s2.skip(1) =~= Seq::<TileRecord>::empty());
            assert(find_record(s2, t) == find_record(s2.skip(1), t));
            assert(find_record(s2.skip(1), t) is None);
            assert(find_record(s, t) is None);
        }
    } else {
        assert(s2[0] == s[0]);
        assert(s2.skip(1) =~= s.skip(1).push(r));
        assert forall|j: int| 0 <= j < s.skip(1).len() implies (#[trigger] s.skip(1)[j]).tile
            != r.tile by {
            assert(s.skip(1)[j] == s[j + 1]);
        }
        lemma_find_push(s.skip(1), r);
        assert(s[0].tile != r.tile);
        assert(find_record(s2, r.tile) == find_record(s2.skip(1), r.tile));
        assert forall|t: TilePos| t != r.tile implies #[trigger] find_record(s2, t) == find_record(
            s,
            t,
        ) by {
            if s[0].tile == t {
                assert(find_record(s2, t) == Some(s2[0]));
                assert(find_record(s, t) == Some(s[0]));
            } else {
                assert(find_record(s2, t) == find_record(s2.skip(1), t));
                assert(find_record(s, t) == find_record(s.skip(1), t));
            }
        }
    }
}

} // verus!
