//! Where an entity is and how much room it takes.

use vstd::prelude::*;
use crate::units::{add_clamped, clamp_coord, is_coord, spec_clamp_coord, spec_trunc_div, COORD_MAX};

verus! {

/// The position of an entity, and the translation it was last given.
#[derive(Clone, Copy, Debug, PartialEq, Eq, Structural)]
pub struct Transform {
    pub entity_id: usize,
    pub scene_x: i64,
    pub scene_y: i64,
    pub translate_x: i64,
    pub translate_y: i64,
}

impl Transform {
    /// The position is a pair of world coordinates.
    pub open spec fn wf(self) -> bool {
        &&& is_coord(self.scene_x as int)
        &&& is_coord(self.scene_y as int)
    }

    /// The transform moved by `(dx, dy)`; a coordinate that would leave the
    /// world stays at the world's edge.
    pub open spec fn translated(self, dx: int, dy: int) -> Transform {
        Transform {
            entity_id: self.entity_id,
            scene_x: spec_clamp_coord(self.scene_x + dx) as i64,
            scene_y: spec_clamp_coord(self.scene_y + dy) as i64,
            translate_x: dx as i64,
            translate_y: dy as i64,
        }
    }

    /// The transform of an entity at the given position, brought into the
    /// world's range.
    pub open spec fn at(entity_id: usize, scene_x: int, scene_y: int) -> Transform {
        Transform {
            entity_id,
            scene_x: spec_clamp_coord(scene_x) as i64,
            scene_y: spec_clamp_coord(scene_y) as i64,
            translate_x: 0,
            translate_y: 0,
        }
    }

    /// The transform of an entity at the given position, brought into the
    /// world's range.
    pub fn new(entity_id: usize, scene_x: i64, scene_y: i64) -> (t: Transform)
        ensures
            t.wf(),
            t == Transform::at(entity_id, scene_x as int, scene_y as int),
    {
        Transform {
            entity_id,
            scene_x: clamp_coord(scene_x),
            scene_y: clamp_coord(scene_y),
            translate_x: 0,
            translate_y: 0,
        }
    }

    /// Whether the position is a pair of world coordinates.
    pub fn well_formed(&self) -> (b: bool)
        ensures
            b == self.wf(),
    {
        -COORD_MAX <= self.scene_x && self.scene_x <= COORD_MAX && -COORD_MAX <= self.scene_y
            && self.scene_y <= COORD_MAX
    }

    /// Moves the entity by `(dx, dy)`.
    pub fn translate(&mut self, dx: i64, dy: i64)
        ensures
            *final(self) == old(self).translated(dx as int, dy as int),
            final(self).wf(),
    {
        self.scene_x = add_clamped(self.scene_x, dx);
        self.scene_y = add_clamped(self.scene_y, dy);
        self.translate_x = dx;
        self.translate_y = dy;
    }
}

/// An axis-aligned box around an entity, as the offsets of its four edges from
/// the entity's position.
#[derive(Clone, Copy, Debug, PartialEq, Eq, Structural)]
pub struct BoxCollider {
    pub entity_id: usize,
    pub top: i64,
    pub bottom: i64,
    pub left: i64,
    pub right: i64,
}

impl BoxCollider {
    /// The world x-coordinate of the left edge of the box around an entity.
    pub open spec fn left_edge(self, at: Transform) -> int {
        spec_clamp_coord(at.scene_x + self.left)
    }

    /// The world x-coordinate of the right edge.
    pub open spec fn right_edge(self, at: Transform) -> int {
        spec_clamp_coord(at.scene_x + self.right)
    }

    /// The world y-coordinate of the top edge.
    pub open spec fn top_edge(self, at: Transform) -> int {
        spec_clamp_coord(at.scene_y + self.top)
    }

    /// The world y-coordinate of the bottom edge.
    pub open spec fn bottom_edge(self, at: Transform) -> int {
        spec_clamp_coord(at.scene_y + self.bottom)
    }

    /// The world x-coordinate halfway between the left and the right edge,
    /// rounded towards the entity's position.
    pub open spec fn center_x(self, at: Transform) -> int {
        spec_clamp_coord(at.scene_x + spec_trunc_div(self.left + self.right, 2))
    }

    /// The world coordinates of the four edges: left, top, right, bottom.
    pub fn edges(&self, at: &Transform) -> (e: (i64, i64, i64, i64))
        ensures
            e.0 == self.left_edge(*at),
            e.1 == self.top_edge(*at),
            e.2 == self.right_edge(*at),
            e.3 == self.bottom_edge(*at),
    {
        (
            add_clamped(at.scene_x, self.left),
            add_clamped(at.scene_y, self.top),
            add_clamped(at.scene_x, self.right),
            add_clamped(at.scene_y, self.bottom),
        )
    }

    /// The world x-coordinate halfway between the left and the right edge.
    pub fn middle_x(&self, at: &Transform) -> (x: i64)
        ensures
            x == self.center_x(*at),
    {
        let sum: i128 = (self.left as i128) + (self.right as i128);
        let half: i128 = if sum >= 0 {
            sum / 2
        } else {
            -((-sum) / 2)
        };
        add_clamped(at.scene_x, half as i64)
    }
}

} // verus!
