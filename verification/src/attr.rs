//! The tile attribute set: which tile ids are collidable, and how they slope.
//!
//! A tile id without an entry is not collidable, whatever the tile looks like.

use std::collections::HashMap;
use vstd::prelude::*;
use vstd::std_specs::hash::*;
use crate::surface::valid_angle;

verus! {

/// What a collidable tile is like.
#[derive(Clone, Copy, Debug, PartialEq, Eq, Structural)]
pub enum TileAttr {
    /// A slope: the magnitude is the steepness category, the sign the
    /// direction in which the surface rises. Zero is a flat solid tile.
    Angle(i8),
}

impl TileAttr {
    /// The attribute names a category that the surface table has.
    pub open spec fn valid(self) -> bool {
        valid_angle(self.spec_angle() as int)
    }

    /// The angle of the tile.
    pub open spec fn spec_angle(self) -> i8 {
        match self {
            TileAttr::Angle(a) => a,
        }
    }

    /// The angle of the tile.
    pub fn angle(&self) -> (a: i8)
        ensures
            a == self.spec_angle(),
    {
        match self {
            TileAttr::Angle(a) => *a,
        }
    }
}

/// The tile id of the hazard that is collidable under one ruleset only.
pub const HAZARD_TILE: usize = 89;

/// The registry of collidable tile ids of one tile set.
pub struct AttrSet {
    tile_set_id: usize,
    tiles: HashMap<usize, TileAttr>,
}

impl View for AttrSet {
    type V = Map<usize, TileAttr>;

    closed spec fn view(&self) -> Map<usize, TileAttr> {
        self.tiles@
    }
}

/// The slope classification of the tiles of the shared level tile set.
pub open spec fn slope_tiles() -> Map<usize, TileAttr> {
    map![
        2usize => TileAttr::Angle(0),
        3usize => TileAttr::Angle(0),
        4usize => TileAttr::Angle(0),
        5usize => TileAttr::Angle(0),
        6usize => TileAttr::Angle(0),
        65usize => TileAttr::Angle(0),
        66usize => TileAttr::Angle(0),
        67usize => TileAttr::Angle((-1) as i8),
        82usize => TileAttr::Angle(0),
        68usize => TileAttr::Angle(1),
        83usize => TileAttr::Angle(0),
        69usize => TileAttr::Angle((-2) as i8),
        71usize => TileAttr::Angle((-3) as i8),
        78usize => TileAttr::Angle(0),
        79usize => TileAttr::Angle(0),
        70usize => TileAttr::Angle(2),
        72usize => TileAttr::Angle(3),
        80usize => TileAttr::Angle(0),
        81usize => TileAttr::Angle(0),
        73usize => TileAttr::Angle((-4) as i8),
        74usize => TileAttr::Angle(4)
    ]
}

/// Every entry of a map names a category that the surface table has.
pub open spec fn all_valid(tiles: Map<usize, TileAttr>) -> bool {
    forall|id: usize| tiles.contains_key(id) ==> (#[trigger] tiles[id]).valid()
}

impl AttrSet {
    /// Every entry names a category that the surface table has.
    #[verifier::type_invariant]
    pub open spec fn wf(&self) -> bool {
        all_valid(self@)
    }

    /// The tile set whose ids are classified.
    pub closed spec fn spec_tile_set_id(&self) -> usize {
        self.tile_set_id
    }

    /// An empty registry for the given tile set.
    pub fn new(tile_set_id: usize) -> (s: AttrSet)
        ensures
            s@ == Map::<usize, TileAttr>::empty(),
            s.spec_tile_set_id() == tile_set_id,
            s.wf(),
    {
        broadcast use group_hash_axioms;

        AttrSet { tile_set_id, tiles: HashMap::new() }
    }

    /// The tile set whose ids are classified.
    pub fn tile_set_id(&self) -> (id: usize)
        ensures
            id == self.spec_tile_set_id(),
    {
        self.tile_set_id
    }

    /// Registers a tile id as collidable, replacing an earlier entry.
    pub fn insert(&mut self, tile_id: usize, attr: TileAttr)
        requires
            attr.valid(),
        ensures
            final(self)@ == old(self)@.insert(tile_id, attr),
            final(self).spec_tile_set_id() == old(self).spec_tile_set_id(),
            final(self).wf(),
    {
        broadcast use group_hash_axioms;

        proof {
            use_type_invariant(&*self);
        }
        let mut tiles: HashMap<usize, TileAttr> = HashMap::new();
        std::mem::swap(&mut self.tiles, &mut tiles);
        tiles.insert(tile_id, attr);
        std::mem::swap(&mut self.tiles, &mut tiles);
    }

    /// Makes a tile id not collidable.
    pub fn remove(&mut self, tile_id: usize)
        ensures
            final(self)@ == old(self)@.remove(tile_id),
            final(self).spec_tile_set_id() == old(self).spec_tile_set_id(),
            final(self).wf(),
    {
        broadcast use group_hash_axioms;

        proof {
            use_type_invariant(&*self);
        }
        let mut tiles: HashMap<usize, TileAttr> = HashMap::new();
        std::mem::swap(&mut self.tiles, &mut tiles);
        tiles.remove(&tile_id);
        std::mem::swap(&mut self.tiles, &mut tiles);
    }

    /// Whether a tile id is collidable.
    pub fn contains(&self, tile_id: usize) -> (b: bool)
        ensures
            b == self@.contains_key(tile_id),
    {
        broadcast use group_hash_axioms;

        self.tiles.contains_key(&tile_id)
    }

    /// The classification of a tile id, if it is collidable.
    pub fn get(&self, tile_id: usize) -> (attr: Option<TileAttr>)
        ensures
            attr == (if self@.contains_key(tile_id) {
                Some(self@[tile_id])
            } else {
                None
            }),
    {
        broadcast use group_hash_axioms;

        match self.tiles.get(&tile_id) {
            Some(a) => Some(*a),
            None => None,
        }
    }

    /// How many tile ids are collidable.
    pub fn len(&self) -> (n: usize)
        ensures
            n == self@.len(),
    {
        broadcast use group_hash_axioms;

        self.tiles.len()
    }

    /// Registers the slope classification of the shared level tile set,
    /// replacing earlier entries for the same ids.
    pub fn load_slope_tiles(&mut self)
        ensures
            final(self)@ == old(self)@.union_prefer_right(slope_tiles()),
            final(self).spec_tile_set_id() == old(self).spec_tile_set_id(),
            final(self).wf(),
    {
        self.insert(2, TileAttr::Angle(0));
        self.insert(3, TileAttr::Angle(0));
        self.insert(4, TileAttr::Angle(0));
        self.insert(5, TileAttr::Angle(0));
        self.insert(6, TileAttr::Angle(0));
        self.insert(65, TileAttr::Angle(0));
        self.insert(66, TileAttr::Angle(0));
        self.insert(67, TileAttr::Angle(-1));
        self.insert(82, TileAttr::Angle(0));
        self.insert(68, TileAttr::Angle(1));
        self.insert(83, TileAttr::Angle(0));
        self.insert(69, TileAttr::Angle(-2));
        self.insert(71, TileAttr::Angle(-3));
        self.insert(78, TileAttr::Angle(0));
        self.insert(79, TileAttr::Angle(0));
        self.insert(70, TileAttr::Angle(2));
        self.insert(72, TileAttr::Angle(3));
        self.insert(80, TileAttr::Angle(0));
        self.insert(81, TileAttr::Angle(0));
        self.insert(73, TileAttr::Angle(-4));
        self.insert(74, TileAttr::Angle(4));
        assert(self@ =~= old(self)@.union_prefer_right(slope_tiles()));
    }

    /// Sets whether the hazard tile is collidable: it is a flat solid tile
    /// when `solid`, and has no entry otherwise.
    pub fn set_hazard(&mut self, solid: bool)
        ensures
            final(self)@ == (if solid {
                old(self)@.insert(HAZARD_TILE, TileAttr::Angle(0))
            } else {
                old(self)@.remove(HAZARD_TILE)
            }),
            final(self).spec_tile_set_id() == old(self).spec_tile_set_id(),
            final(self).wf(),
    {
        if solid {
            self.insert(HAZARD_TILE, TileAttr::Angle(0));
        } else {
            self.remove(HAZARD_TILE);
        }
    }
}

} // verus!
