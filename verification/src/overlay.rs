//! The mode overlay: the bindings that let one level serve two rulesets.
//!
//! Every scene has two tables of bindings, one for each ruleset. A table says
//! which tile set and which palette a tile-map slot or a sprite slot is bound
//! to. Applying a table rewrites those bindings in the render state and nothing
//! else; a binding for a slot that the render state does not have is passed
//! over.

use std::collections::HashMap;
use vstd::prelude::*;
use vstd::std_specs::hash::*;
use crate::render::{RenderState, Sprite, TileMapSlot};
use crate::world::GameMode;

verus! {

/// The bindings of a scene, for both rulesets.
pub struct SceneMap {
    /// Which scene of the game this is.
    pub scene: usize,
    /// The scene was completed under both rulesets.
    pub both_complete: bool,
    /// Race: tile-map slot to tile set.
    pub bl_tm_ts: HashMap<usize, usize>,
    /// Race: tile-map slot to palette.
    pub bl_tm_pal: HashMap<usize, usize>,
    /// Race: sprite slot to tile set.
    pub bl_sp_ts: HashMap<usize, usize>,
    /// Race: sprite slot to palette.
    pub bl_sp_pal: HashMap<usize, usize>,
    /// Infiltration: tile-map slot to tile set.
    pub spy_tm_ts: HashMap<usize, usize>,
    /// Infiltration: tile-map slot to palette.
    pub spy_tm_pal: HashMap<usize, usize>,
    /// Infiltration: sprite slot to tile set.
    pub spy_sp_ts: HashMap<usize, usize>,
    /// Infiltration: sprite slot to palette.
    pub spy_sp_pal: HashMap<usize, usize>,
}

/// The bindings of a scene for one ruleset.
pub struct Bindings {
    pub tm_ts: Map<usize, usize>,
    pub tm_pal: Map<usize, usize>,
    pub sp_ts: Map<usize, usize>,
    pub sp_pal: Map<usize, usize>,
}

/// What a scene's bindings are, as a value.
pub struct SceneMapView {
    pub scene: usize,
    pub both_complete: bool,
    pub buglympics: Bindings,
    pub spyder: Bindings,
}

impl View for SceneMap {
    type V = SceneMapView;

    open spec fn view(&self) -> SceneMapView {
        SceneMapView {
            scene: self.scene,
            both_complete: self.both_complete,
            buglympics: Bindings {
                tm_ts: self.bl_tm_ts@,
                tm_pal: self.bl_tm_pal@,
                sp_ts: self.bl_sp_ts@,
                sp_pal: self.bl_sp_pal@,
            },
            spyder: Bindings {
                tm_ts: self.spy_tm_ts@,
                tm_pal: self.spy_tm_pal@,
                sp_ts: self.spy_sp_ts@,
                sp_pal: self.spy_sp_pal@,
            },
        }
    }
}

impl SceneMapView {
    /// The bindings for a ruleset.
    pub open spec fn bindings(self, game: GameMode) -> Bindings {
        match game {
            GameMode::Buglympics => self.buglympics,
            GameMode::Spyder => self.spyder,
        }
    }
}

/// The value that a table binds a slot to, or the value that the slot has if
/// the table has no binding for it.
pub open spec fn spec_bound(table: Map<usize, usize>, slot: int, current: usize) -> usize {
    if table.contains_key(slot as usize) {
        table[slot as usize]
    } else {
        current
    }
}

impl Bindings {
    /// The tile-map slots with these bindings applied.
    pub open spec fn bind_tile_maps(self, slots: Seq<TileMapSlot>) -> Seq<TileMapSlot> {
        Seq::new(
            slots.len(),
            |i: int|
                TileMapSlot {
                    tile_set_id: spec_bound(self.tm_ts, i, slots[i].tile_set_id),
                    palette_id: spec_bound(self.tm_pal, i, slots[i].palette_id),
                },
        )
    }

    /// The sprite slots with these bindings applied.
    pub open spec fn bind_sprites(self, slots: Seq<Sprite>) -> Seq<Sprite> {
        Seq::new(
            slots.len(),
            |i: int|
                Sprite {
                    tile_set_id: spec_bound(self.sp_ts, i, slots[i].tile_set_id),
                    palette_id: spec_bound(self.sp_pal, i, slots[i].palette_id),
                    ..slots[i]
                },
        )
    }
}

/// The value that a table binds a slot to, or the value that the slot has.
fn bound(table: &HashMap<usize, usize>, slot: usize, current: usize) -> (value: usize)
    ensures
        value == spec_bound(table@, slot as int, current),
{
    broadcast use group_hash_axioms;

    match table.get(&slot) {
        Some(v) => *v,
        None => current,
    }
}

/// A table with the given bindings, each a slot and what it is bound to; of
/// two bindings for one slot the later counts.
pub fn table_of(pairs: &Vec<(usize, usize)>) -> (table: HashMap<usize, usize>)
    ensures
        table@ == spec_table_of(pairs@, pairs@.len()),
{
    broadcast use group_hash_axioms;

    let mut table: HashMap<usize, usize> = HashMap::new();
    let mut i: usize = 0;
    while i < pairs.len()
        invariant
            i <= pairs@.len(),
            table@ == spec_table_of(pairs@, i as nat),
        decreases pairs@.len() - i,
    {
        table.insert(pairs[i].0, pairs[i].1);
        i = i + 1;
    }
    table
}

/// The table with the first `n` of the given bindings.
pub open spec fn spec_table_of(pairs: Seq<(usize, usize)>, n: nat) -> Map<usize, usize>
    decreases n,
{
    if n == 0 {
        Map::empty()
    } else {
        spec_table_of(pairs, (n - 1) as nat).insert(pairs[n - 1].0, pairs[n - 1].1)
    }
}

impl SceneMap {
    /// Applies the bindings of one ruleset to the render state.
    pub fn apply(&self, game: GameMode, render: &mut RenderState)
        ensures
            final(render).tile_maps@ == self@.bindings(game).bind_tile_maps(old(render).tile_maps@),
            final(render).sprites@ == self@.bindings(game).bind_sprites(old(render).sprites@),
    {
        let (tm_ts, tm_pal, sp_ts, sp_pal) = match game {
            GameMode::Buglympics => (&self.bl_tm_ts, &self.bl_tm_pal, &self.bl_sp_ts, &self.bl_sp_pal),
            GameMode::Spyder => (&self.spy_tm_ts, &self.spy_tm_pal, &self.spy_sp_ts, &self.spy_sp_pal),
        };
        let ghost bindings = self@.bindings(game);
        let mut i: usize = 0;
        while i < render.tile_maps.len()
            invariant
                i <= render.tile_maps@.len(),
                render.tile_maps@.len() == old(render).tile_maps@.len(),
                render.sprites@ == old(render).sprites@,
                bindings.tm_ts == tm_ts@,
                bindings.tm_pal == tm_pal@,
                forall|j: int|
                    0 <= j < i ==> render.tile_maps@[j] == bindings.bind_tile_maps(old(render).tile_maps@)[j],
                forall|j: int| i <= j < render.tile_maps@.len() ==> render.tile_maps@[j] == old(render).tile_maps@[j],
            decreases render.tile_maps@.len() - i,
        {
            let slot = render.tile_maps[i];
            let rebound = TileMapSlot {
                tile_set_id: bound(tm_ts, i, slot.tile_set_id),
                palette_id: bound(tm_pal, i, slot.palette_id),
            };
            render.tile_maps.set(i, rebound);
            i = i + 1;
        }
        assert(render.tile_maps@ =~= bindings.bind_tile_maps(old(render).tile_maps@));
        let mut k: usize = 0;
        while k < render.sprites.len()
            invariant
                k <= render.sprites@.len(),
                render.sprites@.len() == old(render).sprites@.len(),
                render.tile_maps@ == bindings.bind_tile_maps(old(render).tile_maps@),
                bindings.sp_ts == sp_ts@,
                bindings.sp_pal == sp_pal@,
                forall|j: int| 0 <= j < k ==> render.sprites@[j] == bindings.bind_sprites(old(render).sprites@)[j],
                forall|j: int| k <= j < render.sprites@.len() ==> render.sprites@[j] == old(render).sprites@[j],
            decreases render.sprites@.len() - k,
        {
            let mut sprite = render.sprites[k];
            sprite.tile_set_id = bound(sp_ts, k, sprite.tile_set_id);
            sprite.palette_id = bound(sp_pal, k, sprite.palette_id);
            render.sprites.set(k, sprite);
            k = k + 1;
        }
        assert(render.sprites@ =~= bindings.bind_sprites(old(render).sprites@));
    }
}

/// The bindings of a race scene of the game.
pub open spec fn spec_default_scene_map() -> SceneMapView {
    SceneMapView {
        scene: 5,
        both_complete: false,
        buglympics: Bindings {
            tm_ts: map![0usize => 0usize],
            tm_pal: map![0usize => 0usize, 1usize => 1usize],
            sp_ts: map![0usize => 2usize],
            sp_pal: map![0usize => 2usize],
        },
        spyder: Bindings {
            tm_ts: map![0usize => 3usize],
            tm_pal: map![0usize => 3usize],
            sp_ts: map![0usize => 4usize],
            sp_pal: map![0usize => 4usize],
        },
    }
}

impl Default for SceneMap {
    fn default() -> (m: SceneMap)
        ensures
            m@ == spec_default_scene_map(),
    {
        broadcast use group_hash_axioms;

        let mut bl_tm_ts: HashMap<usize, usize> = HashMap::new();
        bl_tm_ts.insert(0, 0);
        let mut bl_tm_pal: HashMap<usize, usize> = HashMap::new();
        bl_tm_pal.insert(0, 0);
        bl_tm_pal.insert(1, 1);
        let mut bl_sp_ts: HashMap<usize, usize> = HashMap::new();
        bl_sp_ts.insert(0, 2);
        let mut bl_sp_pal: HashMap<usize, usize> = HashMap::new();
        bl_sp_pal.insert(0, 2);
        let mut spy_tm_ts: HashMap<usize, usize> = HashMap::new();
        spy_tm_ts.insert(0, 3);
        let mut spy_tm_pal: HashMap<usize, usize> = HashMap::new();
        spy_tm_pal.insert(0, 3);
        let mut spy_sp_ts: HashMap<usize, usize> = HashMap::new();
        spy_sp_ts.insert(0, 4);
        let mut spy_sp_pal: HashMap<usize, usize> = HashMap::new();
        spy_sp_pal.insert(0, 4);
        SceneMap {
            scene: 5,
            both_complete: false,
            bl_tm_ts,
            bl_tm_pal,
            bl_sp_ts,
            bl_sp_pal,
            spy_tm_ts,
            spy_tm_pal,
            spy_sp_ts,
            spy_sp_pal,
        }
    }
}

/// Applying bindings changes nothing but bindings: every sprite stays where
/// it is, shows the tile it showed and is as visible as it was, and no slot
/// is added or lost.
pub proof fn lemma_bindings_keep_placement(bindings: Bindings, tile_maps: Seq<TileMapSlot>, sprites: Seq<Sprite>)
    ensures
        bindings.bind_tile_maps(tile_maps).len() == tile_maps.len(),
        bindings.bind_sprites(sprites).len() == sprites.len(),
        forall|i: int|
            0 <= i < sprites.len() ==> (#[trigger] bindings.bind_sprites(sprites)[i]) == (Sprite {
                tile_set_id: bindings.bind_sprites(sprites)[i].tile_set_id,
                palette_id: bindings.bind_sprites(sprites)[i].palette_id,
                ..sprites[i]
            }),
{
}

/// Applying the same bindings twice is the same as applying them once.
pub proof fn lemma_bindings_idempotent(bindings: Bindings, tile_maps: Seq<TileMapSlot>, sprites: Seq<Sprite>)
    ensures
        bindings.bind_tile_maps(bindings.bind_tile_maps(tile_maps)) == bindings.bind_tile_maps(tile_maps),
        bindings.bind_sprites(bindings.bind_sprites(sprites)) == bindings.bind_sprites(sprites),
{
    assert(bindings.bind_tile_maps(bindings.bind_tile_maps(tile_maps)) =~= bindings.bind_tile_maps(tile_maps));
    assert(bindings.bind_sprites(bindings.bind_sprites(sprites)) =~= bindings.bind_sprites(sprites));
}

/// A slot that a table binds is bound to what the table says, whatever it was
/// bound to before; a slot that the table does not bind keeps its binding.
pub proof fn lemma_bound_slot(bindings: Bindings, tile_maps: Seq<TileMapSlot>, slot: int)
    requires
        0 <= slot < tile_maps.len(),
    ensures
        bindings.tm_ts.contains_key(slot as usize) ==> bindings.bind_tile_maps(tile_maps)[slot].tile_set_id
            == bindings.tm_ts[slot as usize],
        !bindings.tm_ts.contains_key(slot as usize) ==> bindings.bind_tile_maps(tile_maps)[slot].tile_set_id
            == tile_maps[slot].tile_set_id,
        bindings.tm_pal.contains_key(slot as usize) ==> bindings.bind_tile_maps(tile_maps)[slot].palette_id
            == bindings.tm_pal[slot as usize],
        !bindings.tm_pal.contains_key(slot as usize) ==> bindings.bind_tile_maps(tile_maps)[slot].palette_id
            == tile_maps[slot].palette_id,
{
}

} // verus!
