//! The locomotion controller: the actor that runs, jumps and lands on the
//! slopes of the tile grid.
//!
//! One frame takes the actor through these phases, in this order: friction and
//! input change the velocity, the velocity is capped, the position is
//! integrated, ground contact and then side contact are resolved, the finish
//! line is checked, and the state machine settles.

use vstd::prelude::*;
use crate::attr::{AttrSet, TileAttr};
use crate::body::{BoxCollider, Transform};
use crate::grid::{GridView, TileGrid};
use crate::input::{InputCode, Inputs};
use crate::launcher::{spec_projectile_sprite, Launcher, LauncherView, FIRE_SAMPLES};
use crate::probe::{hit_on_grid, nearest_among, spec_nearest_among, Direction, MapHit, Ray, RayHit};
use crate::render::{Animation, RenderState, Sprite};
use crate::sounds::{play_effect, spec_cue, Cue, SFX};
use crate::surface::{
    column_of, height, slope_accel, spec_column, spec_height, spec_is_slope_accel, spec_slope_accel,
    FULL_HEIGHT, TILE_PIXELS,
};
use crate::units::{
    add_clamped, is_coord, is_rate, scale, spec_abs, spec_clamp_coord, spec_scale, spec_sign,
    spec_to_pixel, to_pixel, PERMILLE, RATE_MAX, UNIT,
};
use crate::world::GameMode;

verus! {

/// The states of the actor.
#[derive(Clone, Copy, Debug, PartialEq, Eq, Structural)]
pub enum PlayerState {
    Standing,
    Walking,
    Jumping,
}

/// The fastest an actor falls, in sub-pixel units per frame.
pub const TERMINAL_VELOCITY: i64 = 10000;

/// How far below its feet an actor looks for ground, in sub-pixel units.
pub const GROUND_REACH: i64 = 8000;

/// How far ahead of its leading edge an actor looks for a wall.
pub const SIDE_REACH: i64 = 4000;

/// How far below the actor's position the wall probe starts.
pub const SIDE_PROBE_DROP: i64 = 16000;

/// How near the finish line counts as crossing it on the x-axis, in pixels.
pub const FINISH_TOLERANCE_X: i64 = 16;

/// How near the finish line counts as crossing it on the y-axis, in pixels.
pub const FINISH_TOLERANCE_Y: i64 = 48;

/// The y-coordinate below which an actor has fallen out of the level.
pub const FALL_LIMIT: i64 = 3280000;

/// Where an actor that has fallen out of the level is put back.
pub const RESPAWN: i64 = 100000;

/// The largest rate an actor can have, in thousandths.
pub const RATE_LIMIT: i64 = 10000;

/// For how many samples the effects of the actor sound.
pub const STEP_SAMPLES: usize = 800;

/// The actor.
pub struct Player {
    pub entity_id: usize,
    pub vel_x: i64,
    pub vel_y: i64,
    pub grounded: bool,
    /// The actor is held by a wall on its left.
    pub blocked_left: bool,
    /// The actor is held by a wall on its right.
    pub blocked_right: bool,
    pub finished: bool,
    pub facing_left: bool,
    pub player_state: PlayerState,
    pub jump_force: i64,
    /// The height of the surface under the actor, in pixels.
    pub slope: i64,
    /// The multiplier of the slope under the actor, in thousandths.
    pub slope_accel: i64,
    pub accel_rate: i64,
    pub decel_rate: i64,
    pub walk_speed: i64,
    pub run_speed: i64,
    pub air_control: i64,
    pub launcher: Launcher,
    pub transform: Transform,
    pub collider: BoxCollider,
    pub anim: Animation,
}

/// What an actor is, as a value, but for its launcher.
pub struct Actor {
    pub entity_id: usize,
    pub vel_x: i64,
    pub vel_y: i64,
    pub grounded: bool,
    pub blocked_left: bool,
    pub blocked_right: bool,
    pub finished: bool,
    pub facing_left: bool,
    pub player_state: PlayerState,
    pub jump_force: i64,
    pub slope: i64,
    pub slope_accel: i64,
    pub accel_rate: i64,
    pub decel_rate: i64,
    pub walk_speed: i64,
    pub run_speed: i64,
    pub air_control: i64,
    pub transform: Transform,
    pub collider: BoxCollider,
    pub anim: Animation,
}

impl View for Player {
    type V = Actor;

    open spec fn view(&self) -> Actor {
        Actor {
            entity_id: self.entity_id,
            vel_x: self.vel_x,
            vel_y: self.vel_y,
            grounded: self.grounded,
            blocked_left: self.blocked_left,
            blocked_right: self.blocked_right,
            finished: self.finished,
            facing_left: self.facing_left,
            player_state: self.player_state,
            jump_force: self.jump_force,
            slope: self.slope,
            slope_accel: self.slope_accel,
            accel_rate: self.accel_rate,
            decel_rate: self.decel_rate,
            walk_speed: self.walk_speed,
            run_speed: self.run_speed,
            air_control: self.air_control,
            transform: self.transform,
            collider: self.collider,
            anim: self.anim,
        }
    }
}

/// The height, in pixels, of the surface of a tile at a world x-coordinate; a
/// tile that is not collidable has none.
pub open spec fn spec_surface_height(attrs: Map<usize, TileAttr>, tile_id: usize, x: int) -> int {
    if attrs.contains_key(tile_id) {
        spec_height(attrs[tile_id].spec_angle() as int, spec_column(x))
    } else {
        0
    }
}

/// The multiplier, in thousandths, of the slope of a tile for an actor with
/// the given horizontal velocity; a tile that is not collidable has the
/// multiplier one.
pub open spec fn spec_surface_angle(attrs: Map<usize, TileAttr>, tile_id: usize, vel_x: int) -> int {
    if attrs.contains_key(tile_id) {
        spec_slope_accel(attrs[tile_id].spec_angle() as int, vel_x)
    } else {
        PERMILLE as int
    }
}

/// The height of the ground at a hit: the height of the tile that was hit
/// and, if that tile is full, the height of the tile directly above it on top.
pub open spec fn spec_ground_height(grid: GridView, attrs: Map<usize, TileAttr>, hit: MapHit) -> int {
    let own = spec_surface_height(attrs, hit.tile_id, hit.point_x as int);
    if own == FULL_HEIGHT {
        match grid.loc_above(hit.map_loc_id as int) {
            Some(up) => own + spec_surface_height(attrs, grid.cells[up] as usize, hit.point_x as int),
            None => own,
        }
    } else {
        own
    }
}

impl Actor {
    /// Every quantity of the actor is within its range.
    pub open spec fn wf(self) -> bool {
        &&& self.transform.wf()
        &&& is_rate(self.vel_x as int)
        &&& -RATE_MAX <= self.vel_y <= 2 * RATE_MAX
        &&& 0 <= self.walk_speed <= RATE_MAX
        &&& 0 <= self.run_speed <= RATE_MAX
        &&& 0 <= self.jump_force <= RATE_MAX
        &&& 0 <= self.accel_rate <= RATE_LIMIT
        &&& 0 <= self.decel_rate <= RATE_LIMIT
        &&& 0 <= self.air_control <= RATE_LIMIT
        &&& spec_is_slope_accel(self.slope_accel as int)
        &&& 0 <= self.slope <= 2 * FULL_HEIGHT
    }

    /// An actor at the given starting position, in pixels: airborne, at
    /// rest, with the rates of the game.
    pub open spec fn spawned(entity_id: usize, start_x: int, start_y: int) -> Actor {
        Actor {
            entity_id,
            vel_x: 0,
            vel_y: 0,
            grounded: false,
            blocked_left: false,
            blocked_right: false,
            finished: false,
            facing_left: false,
            player_state: PlayerState::Jumping,
            jump_force: 10000,
            slope: 0,
            slope_accel: PERMILLE,
            accel_rate: 100,
            decel_rate: 900,
            walk_speed: 3000,
            run_speed: 7000,
            air_control: 750,
            transform: Transform::at(entity_id, start_x * UNIT, start_y * UNIT),
            collider: BoxCollider { entity_id, top: 0, bottom: 48000, left: 0, right: 32000 },
            anim: Animation { sprite_id: 0, first: 1, last: 5, rate: 4, counter: 0, frame: 0 },
        }
    }

    /// The actor with the sprite slot that shows it.
    pub open spec fn shown_by(self, sprite_id: usize) -> Actor {
        Actor { anim: Animation { sprite_id, ..self.anim }, ..self }
    }

    /// The sprite that shows the actor when it enters a level.
    pub open spec fn sprite(self) -> Sprite {
        Sprite {
            tile_set_id: 2,
            palette_id: 2,
            frame: self.anim.frame,
            width: 32,
            height: 48,
            scene_x: spec_to_pixel(self.transform.scene_x as int) as u16,
            scene_y: spec_to_pixel(self.transform.scene_y as int) as u16,
            reverse_x: self.facing_left,
            hide: false,
        }
    }

    /// The rate, in thousandths, at which the actor keeps its horizontal
    /// velocity from one frame to the next: its own rate, raised on a
    /// downhill slope and lowered on an uphill one.
    pub open spec fn friction_rate(self) -> int {
        self.decel_rate + (self.slope_accel - 750) * 3 / 25
    }

    /// The speed that the actor aims for: running speed while the fire key
    /// is held in the race, walking speed otherwise.
    pub open spec fn move_speed(self, keys: Set<InputCode>, game: GameMode) -> int {
        if keys.contains(InputCode::Fire) && game == GameMode::Buglympics {
            self.run_speed as int
        } else {
            self.walk_speed as int
        }
    }

    /// How much horizontal velocity a held direction key adds in a frame.
    pub open spec fn push(self, keys: Set<InputCode>, game: GameMode) -> int {
        match self.player_state {
            PlayerState::Jumping => spec_scale(
                spec_scale(self.move_speed(keys, game), self.accel_rate as int),
                self.air_control as int,
            ),
            PlayerState::Standing => spec_scale(
                spec_scale(self.move_speed(keys, game), self.slope_accel as int),
                self.accel_rate as int,
            ),
            PlayerState::Walking => 0,
        }
    }

    /// The horizontal velocity after friction and input, before it is capped.
    pub open spec fn driven_vel_x(self, keys: Set<InputCode>, game: GameMode) -> int {
        spec_scale(self.vel_x as int, self.friction_rate()) + (if keys.contains(InputCode::Right) {
            self.push(keys, game)
        } else {
            0
        }) - (if keys.contains(InputCode::Left) {
            self.push(keys, game)
        } else {
            0
        })
    }

    /// A velocity held within the actor's running speed.
    pub open spec fn capped(self, vel_x: int) -> int {
        if spec_abs(vel_x) >= self.run_speed {
            self.run_speed * spec_sign(vel_x)
        } else {
            vel_x
        }
    }

    /// The vertical velocity after input and gravity.
    pub open spec fn driven_vel_y(self, keys: Set<InputCode>, gravity: int) -> int {
        match self.player_state {
            PlayerState::Jumping => if self.vel_y >= TERMINAL_VELOCITY {
                TERMINAL_VELOCITY as int
            } else {
                self.vel_y + gravity
            },
            PlayerState::Standing => if keys.contains(InputCode::Jump) {
                -self.jump_force
            } else {
                0
            },
            PlayerState::Walking => self.vel_y as int,
        }
    }

    /// The state after input: a standing actor starts to walk or to jump, a
    /// walking actor comes to a stand.
    pub open spec fn driven_state(self, keys: Set<InputCode>) -> PlayerState {
        match self.player_state {
            PlayerState::Jumping => PlayerState::Jumping,
            PlayerState::Standing => if keys.contains(InputCode::Jump) {
                PlayerState::Jumping
            } else if keys.contains(InputCode::Left) || keys.contains(InputCode::Right) {
                PlayerState::Walking
            } else {
                PlayerState::Standing
            },
            PlayerState::Walking => PlayerState::Standing,
        }
    }

    /// The facing after input: a walking actor does not turn.
    pub open spec fn driven_facing(self, keys: Set<InputCode>) -> bool {
        if self.player_state == PlayerState::Walking {
            self.facing_left
        } else if keys.contains(InputCode::Left) {
            true
        } else if keys.contains(InputCode::Right) {
            false
        } else {
            self.facing_left
        }
    }

    /// The actor jumps off in this frame.
    pub open spec fn jumps_off(self, keys: Set<InputCode>) -> bool {
        self.player_state == PlayerState::Standing && keys.contains(InputCode::Jump)
    }

    /// The effect of the jump, if the actor jumps off in this frame.
    pub open spec fn jump_cue(self, keys: Set<InputCode>, game: GameMode) -> Seq<Cue> {
        if self.jumps_off(keys) {
            seq![
                spec_cue(
                    if game == GameMode::Buglympics {
                        SFX::JumpA
                    } else {
                        SFX::JumpB
                    },
                    STEP_SAMPLES,
                ),
            ]
        } else {
            Seq::empty()
        }
    }

    /// The effect of skiing, if the actor skis on the ground.
    pub open spec fn ski_cue(self) -> Seq<Cue> {
        if self.grounded && self.skis() {
            seq![spec_cue(SFX::Ski, STEP_SAMPLES)]
        } else {
            Seq::empty()
        }
    }

    /// The actor after friction, input, gravity and the cap on its speed.
    #[verifier::opaque]
    pub open spec fn after_accelerate(self, keys: Set<InputCode>, game: GameMode, gravity: int) -> Actor {
        Actor {
            vel_x: self.capped(self.driven_vel_x(keys, game)) as i64,
            vel_y: self.driven_vel_y(keys, gravity) as i64,
            player_state: self.driven_state(keys),
            facing_left: self.driven_facing(keys),
            anim: Animation {
                rate: if keys.contains(InputCode::Fire) && game == GameMode::Buglympics {
                    8
                } else {
                    6
                },
                ..self.anim
            },
            ..self
        }
    }

    /// A wall holds the actor in the direction in which it moves.
    pub open spec fn held(self) -> bool {
        (self.blocked_right && self.vel_x > 0) || (self.blocked_left && self.vel_x < 0)
    }

    /// The actor moved by its velocity; an actor that a wall holds moves
    /// vertically only and comes to a stand.
    #[verifier::opaque]
    pub open spec fn after_integrate(self) -> Actor {
        if self.held() {
            Actor {
                player_state: PlayerState::Standing,
                transform: self.transform.translated(0, self.vel_y as int),
                ..self
            }
        } else {
            Actor { transform: self.transform.translated(self.vel_x as int, self.vel_y as int), ..self }
        }
    }

    /// The probe for ground: from the middle of the bottom edge, downward.
    pub open spec fn ground_sensor(self) -> Ray {
        Ray {
            origin_x: self.collider.center_x(self.transform) as i64,
            origin_y: self.collider.bottom_edge(self.transform) as i64,
            direction: Direction::Down,
            distance: GROUND_REACH,
            steps: 8,
        }
    }

    /// The actor set down on the ground that a hit found: its feet are put on
    /// the surface, which lies as far above the bottom of a tile as the
    /// ground is high.
    pub open spec fn landed_on(self, grid: GridView, attrs: Map<usize, TileAttr>, hit: MapHit) -> Actor {
        let ground = spec_ground_height(grid, attrs, hit);
        Actor {
            grounded: true,
            slope: ground as i64,
            slope_accel: spec_surface_angle(attrs, hit.tile_id, self.vel_x as int) as i64,
            transform: self.transform.translated(
                0,
                (hit.point_y - self.ground_sensor().origin_y) + (TILE_PIXELS - ground) * UNIT,
            ),
            ..self
        }
    }

    /// The actor after ground contact is resolved: an actor that rises has
    /// none, another is set down on the nearest collidable tile within reach
    /// below its feet.
    #[verifier::opaque]
    pub open spec fn after_ground(self, grid: GridView, attrs: Map<usize, TileAttr>) -> Actor {
        let aloft = Actor { grounded: false, ..self };
        if self.vel_y < 0 {
            aloft
        } else {
            match self.ground_sensor().nearest_collision(grid, attrs) {
                Some(hit) => aloft.landed_on(grid, attrs, hit),
                None => aloft,
            }
        }
    }

    /// The actor moves to the left.
    pub open spec fn leftward(self) -> bool {
        self.vel_x < 0
    }

    /// The probe for a wall: from the leading edge, in the direction of
    /// motion.
    pub open spec fn side_sensor(self) -> Ray {
        Ray {
            origin_x: (if self.leftward() {
                self.collider.left_edge(self.transform)
            } else {
                self.collider.right_edge(self.transform)
            }) as i64,
            origin_y: spec_clamp_coord(self.transform.scene_y + SIDE_PROBE_DROP) as i64,
            direction: if self.leftward() {
                Direction::Left
            } else {
                Direction::Right
            },
            distance: SIDE_REACH,
            steps: 4,
        }
    }

    /// The actor with the flag of its leading side set or cleared.
    pub open spec fn with_block(self, blocked: bool) -> Actor {
        if self.leftward() {
            Actor { blocked_left: blocked, ..self }
        } else {
            Actor { blocked_right: blocked, ..self }
        }
    }

    /// The actor after side contact is resolved: a full tile within reach
    /// ahead stops the actor at the point of contact, anything else frees
    /// the leading side.
    #[verifier::opaque]
    pub open spec fn after_side(self, grid: GridView, attrs: Map<usize, TileAttr>) -> Actor {
        match self.side_sensor().nearest_collision(grid, attrs) {
            Some(hit) => if spec_surface_height(attrs, hit.tile_id, hit.point_x as int) == FULL_HEIGHT {
                Actor {
                    vel_x: 0,
                    transform: self.transform.translated(hit.point_x - self.side_sensor().origin_x, 0),
                    ..self.with_block(true)
                }
            } else {
                self.with_block(false)
            },
            None => self.with_block(false),
        }
    }

    /// The actor is within the tolerance box of the finish line, given in
    /// pixels.
    pub open spec fn at_finish(self, finish_x: int, finish_y: int) -> bool {
        &&& spec_abs(self.transform.scene_x - finish_x * UNIT) < FINISH_TOLERANCE_X * UNIT
        &&& spec_abs(self.transform.scene_y - finish_y * UNIT) < FINISH_TOLERANCE_Y * UNIT
    }

    /// The actor after the finish line is checked: in the race, an actor
    /// within the tolerance box has finished.
    #[verifier::opaque]
    pub open spec fn after_finish(self, game: GameMode, finish_x: int, finish_y: int) -> Actor {
        if game == GameMode::Buglympics && self.at_finish(finish_x, finish_y) {
            Actor { finished: true, ..self }
        } else {
            self
        }
    }

    /// The actor skis: it walks on a slope that speeds it up.
    pub open spec fn skis(self) -> bool {
        self.player_state == PlayerState::Walking && self.slope_accel > PERMILLE
    }

    /// The actor after its state machine has settled: an actor without
    /// ground is jumping, a walking actor and an actor that has landed stand,
    /// and the animation follows.
    #[verifier::opaque]
    pub open spec fn after_settle(self) -> Actor {
        let state = if self.grounded {
            self.player_state
        } else {
            PlayerState::Jumping
        };
        let slope = if self.grounded {
            self.slope
        } else {
            0
        };
        match state {
            PlayerState::Walking => Actor {
                slope,
                player_state: PlayerState::Standing,
                anim: if self.slope_accel > PERMILLE {
                    self.anim.ranged(5, 5).jumped(5)
                } else {
                    self.anim.ranged(1, 5).advanced()
                },
                ..self
            },
            PlayerState::Jumping => if self.grounded {
                Actor { slope, player_state: PlayerState::Standing, anim: self.anim.jumped(1), ..self }
            } else {
                Actor {
                    slope,
                    player_state: PlayerState::Jumping,
                    anim: self.anim.ranged(6, 6).jumped(6),
                    ..self
                }
            },
            PlayerState::Standing => Actor { slope, anim: self.anim.ranged(0, 0).jumped(0), ..self },
        }
    }

    /// The actor after the fall check: an actor that has fallen out of the
    /// level is put back near the start.
    #[verifier::opaque]
    pub open spec fn after_fall(self) -> Actor {
        if self.transform.scene_y > FALL_LIMIT {
            Actor { transform: Transform { scene_x: RESPAWN, scene_y: RESPAWN, ..self.transform }, ..self }
        } else {
            self
        }
    }

    /// The actor of a frame once its contacts are resolved and the finish
    /// line is checked, before its state machine settles.
    pub open spec fn before_settle(
        self,
        keys: Set<InputCode>,
        game: GameMode,
        gravity: int,
        finish_x: int,
        finish_y: int,
        grid: GridView,
        attrs: Map<usize, TileAttr>,
    ) -> Actor {
        self.after_accelerate(keys, game, gravity).after_integrate().after_ground(grid, attrs).after_side(
            grid,
            attrs,
        ).after_finish(game, finish_x, finish_y)
    }

    /// The actor one frame later, but for its launcher.
    pub open spec fn after_frame(
        self,
        keys: Set<InputCode>,
        game: GameMode,
        gravity: int,
        finish_x: int,
        finish_y: int,
        grid: GridView,
        attrs: Map<usize, TileAttr>,
    ) -> Actor {
        self.before_settle(keys, game, gravity, finish_x, finish_y, grid, attrs).after_settle().after_fall()
    }
}

impl Player {
    /// Every quantity of the actor and of its launcher is within its range.
    pub open spec fn wf(&self) -> bool {
        self@.wf() && self.launcher.wf()
    }

    /// The actor fires in this frame: the fire key is held in the
    /// infiltration mission.
    pub open spec fn fires(keys: Set<InputCode>, game: GameMode) -> bool {
        keys.contains(InputCode::Fire) && game == GameMode::Spyder
    }

    /// The launcher after the fire phase of a frame.
    pub open spec fn launcher_after_fire(&self, keys: Set<InputCode>, game: GameMode, sprites: nat) -> LauncherView {
        if Self::fires(keys, game) {
            self.launcher@.ticked().fired(
                self.transform.scene_x as int,
                self.transform.scene_y as int,
                if self.facing_left {
                    Direction::Left
                } else {
                    Direction::Right
                },
                sprites as usize,
            )
        } else {
            self.launcher@.ticked()
        }
    }

    /// The sprites after the fire phase of a frame.
    pub open spec fn sprites_after_fire(&self, keys: Set<InputCode>, game: GameMode, sprites: Seq<Sprite>) -> Seq<
        Sprite,
    > {
        if Self::fires(keys, game) && self.launcher@.ticked().honors_fire() {
            sprites.push(
                spec_projectile_sprite(
                    self.launcher.projectile_tile,
                    self.transform.scene_x as int,
                    self.transform.scene_y as int,
                ),
            )
        } else {
            sprites
        }
    }

    /// The effect of the shot, if a shot is fired in this frame.
    pub open spec fn shot_cue(&self, keys: Set<InputCode>, game: GameMode) -> Seq<Cue> {
        if Self::fires(keys, game) && self.launcher@.ticked().honors_fire() {
            seq![spec_cue(SFX::Fire, FIRE_SAMPLES)]
        } else {
            Seq::empty()
        }
    }

    /// The effects that the actor asks for in a frame, in their order: the
    /// shot, the jump, the skiing.
    pub open spec fn cues_of_frame(
        &self,
        keys: Set<InputCode>,
        game: GameMode,
        gravity: int,
        finish_x: int,
        finish_y: int,
        grid: GridView,
        attrs: Map<usize, TileAttr>,
    ) -> Seq<Cue> {
        self.shot_cue(keys, game) + self@.jump_cue(keys, game) + self@.before_settle(
            keys,
            game,
            gravity,
            finish_x,
            finish_y,
            grid,
            attrs,
        ).ski_cue()
    }

    /// Whether every quantity of the actor and of its launcher is within its
    /// range.
    pub fn well_formed(&self) -> (b: bool)
        ensures
            b == self.wf(),
    {
        let rates: bool = 0 <= self.accel_rate && self.accel_rate <= RATE_LIMIT && 0 <= self.decel_rate
            && self.decel_rate <= RATE_LIMIT && 0 <= self.air_control && self.air_control <= RATE_LIMIT;
        let speeds: bool = 0 <= self.walk_speed && self.walk_speed <= RATE_MAX && 0 <= self.run_speed
            && self.run_speed <= RATE_MAX && 0 <= self.jump_force && self.jump_force <= RATE_MAX;
        let velocity: bool = -RATE_MAX <= self.vel_x && self.vel_x <= RATE_MAX && -RATE_MAX <= self.vel_y
            && self.vel_y <= 2 * RATE_MAX;
        let slope: bool = (self.slope_accel == 500 || self.slope_accel == 750 || self.slope_accel == 1000
            || self.slope_accel == 1250 || self.slope_accel == 1500) && 0 <= self.slope && self.slope <= 32;
        rates && speeds && velocity && slope && self.transform.well_formed() && self.launcher.well_formed()
    }

    /// An actor at the given starting position, in pixels: airborne, at
    /// rest, with the rates of the game and a launcher of its own.
    pub fn new(entity_id: usize, start_pos: [u16; 2]) -> (p: Player)
        ensures
            p.wf(),
            p@ == Actor::spawned(entity_id, start_pos[0] as int, start_pos[1] as int),
            p.launcher@ == crate::launcher::spec_new_launcher(),
    {
        let x: i64 = (start_pos[0] as i64) * UNIT;
        let y: i64 = (start_pos[1] as i64) * UNIT;
        Player {
            entity_id,
            vel_x: 0,
            vel_y: 0,
            grounded: false,
            blocked_left: false,
            blocked_right: false,
            finished: false,
            facing_left: false,
            player_state: PlayerState::Jumping,
            jump_force: 10000,
            slope: 0,
            slope_accel: PERMILLE,
            accel_rate: 100,
            decel_rate: 900,
            walk_speed: 3000,
            run_speed: 7000,
            air_control: 750,
            launcher: Launcher::new(),
            transform: Transform::new(entity_id, x, y),
            collider: BoxCollider { entity_id, top: 0, bottom: 48000, left: 0, right: 32000 },
            anim: Animation { sprite_id: 0, first: 1, last: 5, rate: 4, counter: 0, frame: 0 },
        }
    }

    /// Gives the actor a sprite of its own, at the actor's position.
    pub fn init(&mut self, render: &mut RenderState)
        ensures
            final(self).launcher == old(self).launcher,
            final(self).anim.sprite_id == old(render).sprites@.len(),
            final(self)@ == old(self)@.shown_by(final(self).anim.sprite_id),
            final(render).tile_maps@ == old(render).tile_maps@,
            final(render).sprites@ == old(render).sprites@.push(old(self)@.sprite()),
    {
        let sprite = Sprite {
            tile_set_id: 2,
            palette_id: 2,
            frame: self.anim.frame,
            width: 32,
            height: 48,
            scene_x: to_pixel(self.transform.scene_x),
            scene_y: to_pixel(self.transform.scene_y),
            reverse_x: self.facing_left,
            hide: false,
        };
        self.anim.sprite_id = render.add_sprite(sprite);
    }

    /// The height, in pixels, of the surface of a tile at a world
    /// x-coordinate.
    pub fn find_surface_height(tile_id: usize, x: i64, attrs: &AttrSet) -> (h: u8)
        ensures
            h == spec_surface_height(attrs@, tile_id, x as int),
            h <= FULL_HEIGHT,
    {
        proof {
            use_type_invariant(attrs);
        }
        match attrs.get(tile_id) {
            Some(attr) => height(attr.angle(), column_of(x)),
            None => 0,
        }
    }

    /// The multiplier, in thousandths, of the slope of a tile for this
    /// actor.
    pub fn find_surface_angle(&self, tile_id: usize, attrs: &AttrSet) -> (m: i64)
        ensures
            m == spec_surface_angle(attrs@, tile_id, self.vel_x as int),
            spec_is_slope_accel(m as int),
    {
        proof {
            use_type_invariant(attrs);
        }
        match attrs.get(tile_id) {
            Some(attr) => slope_accel(attr.angle(), self.vel_x),
            None => PERMILLE,
        }
    }

    /// Casts several probes and returns the nearest hit of all on a
    /// collidable tile, with the probe that reported it.
    pub fn get_nearest_map_collision(sensors: &Vec<Ray>, grid: &TileGrid, attrs: &AttrSet) -> (found: Option<
        RayHit,
    >)
        requires
            forall|s: int| 0 <= s < sensors@.len() ==> (#[trigger] sensors@[s]).wf(),
        ensures
            found is None <==> forall|s: int|
                0 <= s < sensors@.len() ==> (#[trigger] sensors@[s]).all_hits(grid@, attrs@).len() == 0,
            found matches Some(f) ==> {
                &&& f.sensor < sensors@.len()
                &&& hit_on_grid(f.hit, grid@, attrs@)
                &&& f.hit.in_range()
                &&& exists|j: int|
                    spec_nearest_among(sensors@, grid@, attrs@, f.sensor as int, j) && f.hit
                        == #[trigger] sensors@[f.sensor as int].all_hits(grid@, attrs@)[j]
            },
    {
        nearest_among(sensors, grid, attrs)
    }

    /// The rate at which the actor keeps its horizontal velocity.
    fn keep_rate(&self) -> (rate: i64)
        requires
            self.wf(),
        ensures
            rate == self@.friction_rate(),
            -30 <= rate <= RATE_LIMIT + 90,
    {
        self.decel_rate + (self.slope_accel - 750) * 3 / 25
    }

    /// How much horizontal velocity a held direction key adds in a frame.
    fn push_of(&self, keys: &Inputs, game: GameMode) -> (push: i64)
        requires
            self.wf(),
        ensures
            push == self@.push(keys@, game),
            -100 * RATE_MAX <= push <= 100 * RATE_MAX,
    {
        let move_speed: i64 = if keys.contains(InputCode::Fire) && game == GameMode::Buglympics {
            self.run_speed
        } else {
            self.walk_speed
        };
        match self.player_state {
            PlayerState::Jumping => {
                let first: i64 = scale(move_speed, self.accel_rate);
                proof {
                    lemma_scale_bound(move_speed as int, self.accel_rate as int, RATE_MAX as int, RATE_LIMIT as int);
                }
                proof {
                    lemma_scale_bound(first as int, self.air_control as int, 10 * RATE_MAX, RATE_LIMIT as int);
                }
                scale(first, self.air_control)
            },
            PlayerState::Standing => {
                let first: i64 = scale(move_speed, self.slope_accel);
                proof {
                    lemma_scale_bound(move_speed as int, self.slope_accel as int, RATE_MAX as int, RATE_LIMIT as int);
                }
                proof {
                    lemma_scale_bound(first as int, self.accel_rate as int, 10 * RATE_MAX, RATE_LIMIT as int);
                }
                scale(first, self.accel_rate)
            },
            PlayerState::Walking => 0,
        }
    }

    /// A velocity held within the actor's running speed.
    fn cap(&self, vel_x: i64) -> (capped: i64)
        requires
            self.wf(),
            is_coord(vel_x as int),
        ensures
            capped == self@.capped(vel_x as int),
            is_rate(capped as int),
    {
        let speed: i64 = if vel_x < 0 {
            -vel_x
        } else {
            vel_x
        };
        if speed >= self.run_speed {
            if vel_x < 0 {
                -self.run_speed
            } else {
                self.run_speed
            }
        } else {
            vel_x
        }
    }

    /// Applies friction, input and gravity to the velocity, caps the
    /// horizontal speed, and asks for the effect of a jump.
    pub fn accelerate(&mut self, keys: &Inputs, game: GameMode, gravity: i64, cues: &mut Vec<Cue>)
        requires
            old(self).wf(),
            0 <= gravity <= RATE_MAX,
        ensures
            final(self).launcher == old(self).launcher,
            final(self)@ == old(self)@.after_accelerate(keys@, game, gravity as int),
            final(self).wf(),
            final(cues)@ == old(cues)@ + old(self)@.jump_cue(keys@, game),
    {
        reveal(Actor::after_accelerate);
        let rate: i64 = self.keep_rate();
        let kept: i64 = scale(self.vel_x, rate);
        proof {
            lemma_scale_bound(self.vel_x as int, rate as int, RATE_MAX as int, RATE_LIMIT + 90);
        }
        let push: i64 = self.push_of(keys, game);
        let right: bool = keys.contains(InputCode::Right);
        let left: bool = keys.contains(InputCode::Left);
        let jump: bool = keys.contains(InputCode::Jump);
        let racing: bool = keys.contains(InputCode::Fire) && game == GameMode::Buglympics;
        let gain: i64 = (if right {
            push
        } else {
            0
        }) - (if left {
            push
        } else {
            0
        });
        self.anim.rate = if racing {
            8
        } else {
            6
        };
        self.vel_x = self.cap(kept + gain);
        match self.player_state {
            PlayerState::Jumping => {
                self.vel_y = if self.vel_y >= TERMINAL_VELOCITY {
                    TERMINAL_VELOCITY
                } else {
                    self.vel_y + gravity
                };
                if left {
                    self.facing_left = true;
                } else if right {
                    self.facing_left = false;
                }
            },
            PlayerState::Standing => {
                self.vel_y = 0;
                if left {
                    self.facing_left = true;
                } else if right {
                    self.facing_left = false;
                }
                if jump {
                    self.player_state = PlayerState::Jumping;
                    self.vel_y = -self.jump_force;
                    match game {
                        GameMode::Buglympics => play_effect(cues, SFX::JumpA, STEP_SAMPLES),
                        GameMode::Spyder => play_effect(cues, SFX::JumpB, STEP_SAMPLES),
                    }
                } else if left || right {
                    self.player_state = PlayerState::Walking;
                }
            },
            PlayerState::Walking => {
                self.player_state = PlayerState::Standing;
            },
        }
        assert(cues@ =~= old(cues)@ + old(self)@.jump_cue(keys@, game));
    }

    /// Moves the actor by its velocity.
    pub fn integrate(&mut self)
        requires
            old(self).wf(),
        ensures
            final(self).launcher == old(self).launcher,
            final(self)@ == old(self)@.after_integrate(),
            final(self).wf(),
    {
        reveal(Actor::after_integrate);
        if (self.blocked_right && self.vel_x > 0) || (self.blocked_left && self.vel_x < 0) {
            self.player_state = PlayerState::Standing;
            self.transform.translate(0, self.vel_y);
        } else {
            self.transform.translate(self.vel_x, self.vel_y);
        }
    }

    /// Resolves ground contact.
    pub fn check_ground_collision(&mut self, grid: &TileGrid, attrs: &AttrSet)
        requires
            old(self).wf(),
        ensures
            final(self).launcher == old(self).launcher,
            final(self)@ == old(self)@.after_ground(grid@, attrs@),
            final(self).wf(),
    {
        reveal(Actor::after_ground);
        self.grounded = false;
        if self.vel_y < 0 {
            return ;
        }
        let sensor = Ray {
            origin_x: self.collider.middle_x(&self.transform),
            origin_y: add_clamped(self.transform.scene_y, self.collider.bottom),
            direction: Direction::Down,
            distance: GROUND_REACH,
            steps: 8,
        };
        match sensor.nearest_map_collision(grid, attrs) {
            Some(hit) => {
                self.grounded = true;
                let mut ground: i64 = Self::find_surface_height(hit.tile_id, hit.point_x, attrs) as i64;
                self.slope_accel = self.find_surface_angle(hit.tile_id, attrs);
                if ground == FULL_HEIGHT as i64 {
                    match grid.above(hit.map_loc_id) {
                        Some(up) => {
                            let tile_above = grid.tile(up) as usize;
                            ground = ground + (Self::find_surface_height(tile_above, hit.point_x, attrs) as i64);
                        },
                        None => {},
                    }
                }
                self.slope = ground;
                let lift: i64 = (hit.point_y - sensor.origin_y) + (TILE_PIXELS - ground) * UNIT;
                self.transform.translate(0, lift);
            },
            None => {},
        }
    }

    /// Resolves side contact.
    pub fn check_side_collision(&mut self, grid: &TileGrid, attrs: &AttrSet)
        requires
            old(self).wf(),
        ensures
            final(self).launcher == old(self).launcher,
            final(self)@ == old(self)@.after_side(grid@, attrs@),
            final(self).wf(),
    {
        reveal(Actor::after_side);
        let leftward: bool = self.vel_x < 0;
        let offset: i64 = if leftward {
            self.collider.left
        } else {
            self.collider.right
        };
        let sensor = Ray {
            origin_x: add_clamped(self.transform.scene_x, offset),
            origin_y: add_clamped(self.transform.scene_y, SIDE_PROBE_DROP),
            direction: if leftward {
                Direction::Left
            } else {
                Direction::Right
            },
            distance: SIDE_REACH,
            steps: 4,
        };
        let mut blocked = false;
        match sensor.nearest_map_collision(grid, attrs) {
            Some(hit) => {
                let surface = Self::find_surface_height(hit.tile_id, hit.point_x, attrs);
                if surface == FULL_HEIGHT {
                    blocked = true;
                    self.vel_x = 0;
                    self.transform.translate(hit.point_x - sensor.origin_x, 0);
                }
            },
            None => {},
        }
        if leftward {
            self.blocked_left = blocked;
        } else {
            self.blocked_right = blocked;
        }
    }

    /// Checks whether the actor has crossed the finish line, given in
    /// pixels.
    pub fn check_finish(&mut self, game: GameMode, finish_line: [u16; 2])
        requires
            old(self).wf(),
        ensures
            final(self).launcher == old(self).launcher,
            final(self)@ == old(self)@.after_finish(game, finish_line[0] as int, finish_line[1] as int),
            final(self).wf(),
    {
        reveal(Actor::after_finish);
        match game {
            GameMode::Buglympics => {
                let dx: i64 = self.transform.scene_x - (finish_line[0] as i64) * UNIT;
                let dy: i64 = self.transform.scene_y - (finish_line[1] as i64) * UNIT;
                let near_x: bool = -FINISH_TOLERANCE_X * UNIT < dx && dx < FINISH_TOLERANCE_X * UNIT;
                let near_y: bool = -FINISH_TOLERANCE_Y * UNIT < dy && dy < FINISH_TOLERANCE_Y * UNIT;
                if near_x && near_y {
                    self.finished = true;
                }
            },
            GameMode::Spyder => {},
        }
    }

    /// Lets the state machine settle and the animation follow, and asks for
    /// the effect of skiing.
    pub fn settle(&mut self, cues: &mut Vec<Cue>)
        requires
            old(self).wf(),
        ensures
            final(self).launcher == old(self).launcher,
            final(self)@ == old(self)@.after_settle(),
            final(self).wf(),
            final(cues)@ == old(cues)@ + old(self)@.ski_cue(),
    {
        reveal(Actor::after_settle);
        if !self.grounded {
            self.slope = 0;
            self.player_state = PlayerState::Jumping;
        }
        match self.player_state {
            PlayerState::Walking => {
                if self.slope_accel > PERMILLE {
                    self.anim.first = 5;
                    self.anim.last = 5;
                    self.anim.jump_to(5);
                    play_effect(cues, SFX::Ski, STEP_SAMPLES);
                } else {
                    self.anim.first = 1;
                    self.anim.last = 5;
                    self.anim.advance();
                }
                self.player_state = PlayerState::Standing;
            },
            PlayerState::Jumping => {
                if self.grounded {
                    self.anim.jump_to(1);
                    self.player_state = PlayerState::Standing;
                } else {
                    self.anim.first = 6;
                    self.anim.last = 6;
                    self.anim.jump_to(6);
                }
            },
            PlayerState::Standing => {
                self.anim.first = 0;
                self.anim.last = 0;
                self.anim.jump_to(0);
            },
        }
        assert(cues@ =~= old(cues)@ + old(self)@.ski_cue());
    }

    /// Puts an actor that has fallen out of the level back near the start.
    pub fn check_fall(&mut self)
        requires
            old(self).wf(),
        ensures
            final(self).launcher == old(self).launcher,
            final(self)@ == old(self)@.after_fall(),
            final(self).wf(),
    {
        reveal(Actor::after_fall);
        if self.transform.scene_y > FALL_LIMIT {
            self.transform.scene_x = RESPAWN;
            self.transform.scene_y = RESPAWN;
        }
    }
}

/// Casts a probe and returns its nearest hit on a collidable tile.
pub fn get_nearest_map_collision(sensor: &Ray, grid: &TileGrid, attrs: &AttrSet) -> (hit: Option<MapHit>)
    requires
        sensor.wf(),
    ensures
        hit == sensor.nearest_collision(grid@, attrs@),
        hit is None <==> sensor.all_hits(grid@, attrs@).len() == 0,
        hit matches Some(h) ==> hit_on_grid(h, grid@, attrs@) && h.in_range(),
{
    sensor.nearest_map_collision(grid, attrs)
}

/// Once the state machine has settled, an actor stands or jumps: it jumps
/// exactly if it has no ground under its feet.
pub proof fn lemma_settled(actor: Actor)
    ensures
        actor.after_settle().player_state != PlayerState::Walking,
        actor.after_settle().player_state == PlayerState::Jumping <==> !actor.grounded,
        actor.after_settle().grounded == actor.grounded,
        !actor.grounded ==> actor.after_settle().slope == 0,
{
    reveal(Actor::after_settle);
}

/// An actor that is set down on the ground stands with its feet on the
/// surface: the bottom edge of its box lies as far above the bottom of the
/// tile that was hit as the ground is high. This holds wherever the world's
/// edge does not come in between.
pub proof fn lemma_landed_on_surface(actor: Actor, grid: GridView, attrs: Map<usize, TileAttr>, hit: MapHit)
    requires
        actor.wf(),
        is_coord(actor.transform.scene_y + actor.collider.bottom),
        is_coord(hit.point_y + (TILE_PIXELS - spec_ground_height(grid, attrs, hit)) * UNIT),
        is_coord(
            hit.point_y + (TILE_PIXELS - spec_ground_height(grid, attrs, hit)) * UNIT - actor.collider.bottom,
        ),
    ensures
        actor.landed_on(grid, attrs, hit).collider.bottom_edge(actor.landed_on(grid, attrs, hit).transform)
            == hit.point_y + (TILE_PIXELS - spec_ground_height(grid, attrs, hit)) * UNIT,
        actor.landed_on(grid, attrs, hit).grounded,
        actor.landed_on(grid, attrs, hit).transform.scene_x == actor.transform.scene_x,
{
}

/// An actor that a wall stops stands with its leading edge at the point of
/// contact and moves no further sideways. This holds wherever the world's
/// edge does not come in between.
pub proof fn lemma_stopped_at_wall(actor: Actor, grid: GridView, attrs: Map<usize, TileAttr>)
    requires
        actor.wf(),
        actor.side_sensor().nearest_collision(grid, attrs) is Some,
        spec_surface_height(
            attrs,
            actor.side_sensor().nearest_collision(grid, attrs).unwrap().tile_id,
            actor.side_sensor().nearest_collision(grid, attrs).unwrap().point_x as int,
        ) == FULL_HEIGHT,
        is_coord(actor.transform.scene_x + actor.collider.left),
        is_coord(actor.transform.scene_x + actor.collider.right),
        is_coord(actor.side_sensor().nearest_collision(grid, attrs).unwrap().point_x as int),
        is_coord(
            actor.side_sensor().nearest_collision(grid, attrs).unwrap().point_x - (if actor.leftward() {
                actor.collider.left
            } else {
                actor.collider.right
            }),
        ),
    ensures
        actor.after_side(grid, attrs).vel_x == 0,
        actor.leftward() ==> actor.after_side(grid, attrs).blocked_left && actor.after_side(
            grid,
            attrs,
        ).collider.left_edge(actor.after_side(grid, attrs).transform) == actor.side_sensor().nearest_collision(
            grid,
            attrs,
        ).unwrap().point_x,
        !actor.leftward() ==> actor.after_side(grid, attrs).blocked_right && actor.after_side(
            grid,
            attrs,
        ).collider.right_edge(actor.after_side(grid, attrs).transform) == actor.side_sensor().nearest_collision(
            grid,
            attrs,
        ).unwrap().point_x,
        actor.after_side(grid, attrs).transform.scene_y == actor.transform.scene_y,
{
    reveal(Actor::after_side);
}

/// After friction, input and gravity an actor is no faster than its running
/// speed.
pub proof fn lemma_speed_capped(actor: Actor, keys: Set<InputCode>, game: GameMode, gravity: int)
    requires
        actor.wf(),
    ensures
        -actor.run_speed <= actor.after_accelerate(keys, game, gravity).vel_x <= actor.run_speed,
        actor.after_accelerate(keys, game, gravity).run_speed == actor.run_speed,
{
    reveal(Actor::after_accelerate);
    let driven = actor.driven_vel_x(keys, game);
    assert(-actor.run_speed <= actor.capped(driven) <= actor.run_speed) by {
        if spec_abs(driven) >= actor.run_speed {
            assert(actor.run_speed * 1 == actor.run_speed);
            assert(actor.run_speed * (-1) == -actor.run_speed);
        }
    }
}

/// A scaled value is bounded by the bounds of its factors.
pub proof fn lemma_scale_bound(v: int, permille: int, v_max: int, rate_max: int)
    requires
        -v_max <= v <= v_max,
        -rate_max <= permille <= rate_max,
        0 <= v_max,
        0 <= rate_max,
    ensures
        -((v_max * rate_max) / 1000) <= spec_scale(v, permille) <= (v_max * rate_max) / 1000,
        v_max * rate_max >= 0,
{
    assert(-(v_max * rate_max) <= v * permille <= v_max * rate_max) by (nonlinear_arith)
        requires
            -v_max <= v <= v_max,
            -rate_max <= permille <= rate_max,
            0 <= v_max,
            0 <= rate_max,
    ;
    assert(v_max * rate_max >= 0) by (nonlinear_arith)
        requires
            0 <= v_max,
            0 <= rate_max,
    ;
    let p = v * permille;
    let m = v_max * rate_max;
    if p >= 0 {
        vstd::arithmetic::div_mod::lemma_div_is_ordered(p, m, 1000);
        vstd::arithmetic::div_mod::lemma_div_pos_is_pos(p, 1000);
    } else {
        vstd::arithmetic::div_mod::lemma_div_is_ordered(-p, m, 1000);
        vstd::arithmetic::div_mod::lemma_div_pos_is_pos(-p, 1000);
    }
}

} // verus!
