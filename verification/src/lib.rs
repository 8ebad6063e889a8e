//! The simulation kernel of a side-scrolling platformer that plays two games
//! on one level: a race against the clock and an infiltration mission.
//!
//! The kernel is stepped frame by frame. It holds no picture and no sound: it
//! moves an actor over a grid of tiles, resolves its contact with the ground
//! and with walls, flies its projectiles, keeps the clocks and the records of
//! the events, and says which tile set and palette every slot of the picture
//! is bound to under the ruleset that is active.
//!
//! All quantities are whole numbers. Positions, velocities and distances are
//! counted in thousandths of a pixel, rates in thousandths, times in frames.
//!
//! - [`units`]: the fixed-point quantities.
//! - [`surface`]: the height profiles and acceleration shares of the slopes.
//! - [`attr`]: the set of collidable tile ids.
//! - [`grid`]: the tile grid of a level.
//! - [`probe`]: the collision probe.
//! - [`body`]: positions and boxes.
//! - [`render`]: the bindings and sprite placements handed to the renderer.
//! - [`sounds`]: the sound effects asked for.
//! - [`input`]: the input codes of a frame.
//! - [`records`]: the leaderboard of a race.
//! - [`launcher`]: projectiles and targets.
//! - [`world`]: the rulesets and the world they share.
//! - [`player`] and [`frame`]: the actor and its frame.
//! - [`menu`]: menus and their cursor.
//! - [`overlay`]: the bindings of a scene for both rulesets.
//! - [`state`]: the state of the game.
//! - [`scenes`]: the scenes of the game, the level scene among them.

pub mod units;
pub mod surface;
pub mod attr;
pub mod grid;
pub mod probe;
pub mod body;
pub mod render;
pub mod sounds;
pub mod input;
pub mod records;
pub mod launcher;
pub mod world;
pub mod player;
pub mod frame;
pub mod menu;
pub mod overlay;
pub mod state;
pub mod scenes;
