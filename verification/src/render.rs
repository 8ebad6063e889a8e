//! What the simulation tells the renderer: which tile set and palette every
//! tile-map slot and sprite slot is bound to, and where every sprite is.
//!
//! The simulation writes positions, visibility, facing, animation frames and
//! binding ids. A write to a slot that the render state does not have changes
//! nothing.

use vstd::prelude::*;
use crate::units::{spec_to_pixel, to_pixel};

verus! {

/// One sprite slot.
#[derive(Clone, Copy, Debug, PartialEq, Eq, Structural)]
pub struct Sprite {
    pub tile_set_id: usize,
    pub palette_id: usize,
    /// The tile of the tile set that is shown.
    pub frame: usize,
    /// The size of the sprite, in pixels.
    pub width: u16,
    pub height: u16,
    pub scene_x: u16,
    pub scene_y: u16,
    /// The sprite faces left.
    pub reverse_x: bool,
    pub hide: bool,
}

/// The bindings of one tile-map slot.
#[derive(Clone, Copy, Debug, PartialEq, Eq, Structural)]
pub struct TileMapSlot {
    pub tile_set_id: usize,
    pub palette_id: usize,
}

/// The render state that both rulesets share.
pub struct RenderState {
    pub tile_maps: Vec<TileMapSlot>,
    pub sprites: Vec<Sprite>,
}

/// The sprites after one of them was hidden.
pub open spec fn spec_hidden(sprites: Seq<Sprite>, id: int) -> Seq<Sprite> {
    if 0 <= id < sprites.len() {
        sprites.update(id, Sprite { hide: true, ..sprites[id] })
    } else {
        sprites
    }
}

/// The sprites after one of them was moved to a world position.
pub open spec fn spec_placed(sprites: Seq<Sprite>, id: int, x: int, y: int) -> Seq<Sprite> {
    if 0 <= id < sprites.len() {
        sprites.update(
            id,
            Sprite { scene_x: spec_to_pixel(x) as u16, scene_y: spec_to_pixel(y) as u16, ..sprites[id] },
        )
    } else {
        sprites
    }
}

impl RenderState {
    /// A render state without slots.
    pub fn new() -> (r: RenderState)
        ensures
            r.tile_maps@.len() == 0,
            r.sprites@.len() == 0,
    {
        RenderState { tile_maps: Vec::new(), sprites: Vec::new() }
    }

    /// Adds a sprite slot and returns its id.
    pub fn add_sprite(&mut self, sprite: Sprite) -> (id: usize)
        ensures
            final(self).tile_maps@ == old(self).tile_maps@,
            final(self).sprites@ == old(self).sprites@.push(sprite),
            id == old(self).sprites@.len(),
    {
        let id = self.sprites.len();
        self.sprites.push(sprite);
        id
    }

    /// Adds a tile-map slot and returns its id.
    pub fn add_tile_map(&mut self, slot: TileMapSlot) -> (id: usize)
        ensures
            final(self).sprites@ == old(self).sprites@,
            final(self).tile_maps@ == old(self).tile_maps@.push(slot),
            id == old(self).tile_maps@.len(),
    {
        let id = self.tile_maps.len();
        self.tile_maps.push(slot);
        id
    }

    /// Hides a sprite.
    pub fn hide_sprite(&mut self, id: usize)
        ensures
            final(self).tile_maps@ == old(self).tile_maps@,
            final(self).sprites@ == spec_hidden(old(self).sprites@, id as int),
    {
        if id < self.sprites.len() {
            let mut s = self.sprites[id];
            s.hide = true;
            self.sprites.set(id, s);
        }
    }

    /// Moves a sprite to the pixel that a world position falls on.
    pub fn place_sprite(&mut self, id: usize, x: i64, y: i64)
        ensures
            final(self).tile_maps@ == old(self).tile_maps@,
            final(self).sprites@ == spec_placed(old(self).sprites@, id as int, x as int, y as int),
    {
        if id < self.sprites.len() {
            let mut s = self.sprites[id];
            s.scene_x = to_pixel(x);
            s.scene_y = to_pixel(y);
            self.sprites.set(id, s);
        }
    }

}

/// The animation cursor of an entity: which sprite slot shows it, the range of
/// frames it cycles through, how many frames of the game one frame of the
/// animation lasts, and the frame it shows.
#[derive(Clone, Copy, Debug, PartialEq, Eq, Structural)]
pub struct Animation {
    pub sprite_id: usize,
    pub first: usize,
    pub last: usize,
    pub rate: u8,
    pub counter: u8,
    pub frame: usize,
}

impl Animation {
    /// The cursor set to a frame.
    pub open spec fn jumped(self, frame: usize) -> Animation {
        Animation { frame, counter: 0, ..self }
    }

    /// The cursor with the range of frames that it cycles through.
    pub open spec fn ranged(self, first: usize, last: usize) -> Animation {
        Animation { first, last, ..self }
    }

    /// The cursor one frame of the game later: once the frame shown has
    /// lasted as long as the rate says, the next frame of the range is shown,
    /// and the first again after the last.
    pub open spec fn advanced(self) -> Animation {
        if self.counter + 1 >= self.rate {
            Animation {
                counter: 0,
                frame: if self.first <= self.frame < self.last {
                    (self.frame + 1) as usize
                } else {
                    self.first
                },
                ..self
            }
        } else {
            Animation { counter: (self.counter + 1) as u8, ..self }
        }
    }

    /// Sets the cursor to a frame.
    pub fn jump_to(&mut self, frame: usize)
        ensures
            *final(self) == old(self).jumped(frame),
    {
        self.frame = frame;
        self.counter = 0;
    }

    /// Moves the cursor one frame of the game on.
    pub fn advance(&mut self)
        ensures
            *final(self) == old(self).advanced(),
    {
        if self.counter >= 254 || self.counter + 1 >= self.rate {
            self.counter = 0;
            if self.first <= self.frame && self.frame < self.last {
                self.frame = self.frame + 1;
            } else {
                self.frame = self.first;
            }
        } else {
            self.counter = self.counter + 1;
        }
    }
}

/// The sprites after one of them was given a frame, a world position and a
/// facing.
pub open spec fn spec_shown(sprites: Seq<Sprite>, id: int, frame: usize, x: int, y: int, reverse_x: bool) -> Seq<
    Sprite,
> {
    if 0 <= id < sprites.len() {
        sprites.update(
            id,
            Sprite {
                frame,
                scene_x: spec_to_pixel(x) as u16,
                scene_y: spec_to_pixel(y) as u16,
                reverse_x,
                ..sprites[id]
            },
        )
    } else {
        sprites
    }
}

impl RenderState {
    /// Shows an entity: gives its sprite the frame, the pixel position and
    /// the facing of the entity.
    pub fn show_sprite(&mut self, id: usize, frame: usize, x: i64, y: i64, reverse_x: bool)
        ensures
            final(self).tile_maps@ == old(self).tile_maps@,
            final(self).sprites@ == spec_shown(
                old(self).sprites@,
                id as int,
                frame,
                x as int,
                y as int,
                reverse_x,
            ),
    {
        if id < self.sprites.len() {
            let mut s = self.sprites[id];
            s.frame = frame;
            s.scene_x = to_pixel(x);
            s.scene_y = to_pixel(y);
            s.reverse_x = reverse_x;
            self.sprites.set(id, s);
        }
    }
}

} // verus!
