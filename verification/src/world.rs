//! The two rulesets, and what both share of the world.

use vstd::prelude::*;
use crate::attr::AttrSet;
use crate::units::RATE_MAX;

verus! {

/// The ruleset that is active: the infiltration mission or the race.
#[derive(Clone, Copy, Debug, PartialEq, Eq, Structural)]
pub enum GameMode {
    Spyder,
    Buglympics,
}

impl GameMode {
    /// The other ruleset.
    pub open spec fn other(self) -> GameMode {
        match self {
            GameMode::Spyder => GameMode::Buglympics,
            GameMode::Buglympics => GameMode::Spyder,
        }
    }
}

/// The gravity of a new world, in sub-pixel units per frame and frame.
pub const GRAVITY: i64 = 500;

/// What the world is like for every actor in it.
pub struct WorldState {
    /// By how much a falling actor gets faster each frame.
    pub gravity: i64,
    /// Which tiles of the level are collidable.
    pub collision_set: AttrSet,
}

impl WorldState {
    /// Gravity pulls downward and within the range of velocities.
    pub open spec fn wf(&self) -> bool {
        0 <= self.gravity <= RATE_MAX
    }

    /// Whether gravity pulls downward and within the range of velocities.
    pub fn well_formed(&self) -> (b: bool)
        ensures
            b == self.wf(),
    {
        0 <= self.gravity && self.gravity <= RATE_MAX
    }

    /// A world with the usual gravity in which no tile is collidable yet.
    pub fn new() -> (w: WorldState)
        ensures
            w.wf(),
            w.gravity == GRAVITY,
            w.collision_set@ == Map::<usize, crate::attr::TileAttr>::empty(),
            w.collision_set.spec_tile_set_id() == 0,
    {
        WorldState { gravity: GRAVITY, collision_set: AttrSet::new(0) }
    }
}

} // verus!
