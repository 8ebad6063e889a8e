//! One frame of the actor, from input to the sprite that shows it.

use vstd::prelude::*;
use crate::attr::{AttrSet, TileAttr};
use crate::grid::{GridView, TileGrid};
use crate::input::{InputCode, Inputs};
use crate::launcher::{spec_fly, Flight, LauncherView, Target};
use crate::player::Player;
use crate::probe::Direction;
use crate::render::{spec_shown, RenderState, Sprite};
use crate::sounds::Cue;
use crate::units::RATE_MAX;
use crate::world::{GameMode, WorldState};

verus! {

impl Player {
    /// The pool, the targets and the sprites after the projectiles of the
    /// frame have flown.
    pub open spec fn flight_of_frame(
        &self,
        keys: Set<InputCode>,
        game: GameMode,
        sprites: Seq<Sprite>,
        grid: GridView,
        attrs: Map<usize, TileAttr>,
        targets: Seq<Target>,
    ) -> Flight {
        let pool = self.launcher_after_fire(keys, game, sprites.len()).projectiles;
        spec_fly(pool, grid, attrs, targets, self.sprites_after_fire(keys, game, sprites), pool.len())
    }

    /// The sprites of a frame before the actor itself is shown.
    pub open spec fn sprites_before_show(
        &self,
        keys: Set<InputCode>,
        game: GameMode,
        sprites: Seq<Sprite>,
        grid: GridView,
        attrs: Map<usize, TileAttr>,
        targets: Seq<Target>,
    ) -> Seq<Sprite> {
        self.flight_of_frame(keys, game, sprites, grid, attrs, targets).sprites
    }

    /// Takes the actor through one frame: input, integration, ground and side
    /// contact, the finish line, its projectiles, and the state machine; then
    /// shows the actor where it is.
    pub fn update(
        &mut self,
        keys: &Inputs,
        game: GameMode,
        world: &WorldState,
        grid: &TileGrid,
        targets: &mut Vec<Target>,
        finish_line: [u16; 2],
        render: &mut RenderState,
        cues: &mut Vec<Cue>,
    )
        requires
            old(self).wf(),
            world.wf(),
        ensures
            final(self).wf(),
            final(self)@ == old(self)@.after_frame(
                keys@,
                game,
                world.gravity as int,
                finish_line[0] as int,
                finish_line[1] as int,
                grid@,
                world.collision_set@,
            ),
            final(self).launcher@ == (LauncherView {
                projectiles: final(self).launcher.projectiles@,
                ..old(self).launcher_after_fire(keys@, game, old(render).sprites@.len())
            }),
            (Flight {
                projectiles: final(self).launcher.projectiles@,
                targets: final(targets)@,
                sprites: old(self).sprites_before_show(
                    keys@,
                    game,
                    old(render).sprites@,
                    grid@,
                    world.collision_set@,
                    old(targets)@,
                ),
            }) == old(self).flight_of_frame(
                keys@,
                game,
                old(render).sprites@,
                grid@,
                world.collision_set@,
                old(targets)@,
            ),
            final(render).sprites@ == spec_shown(
                old(self).sprites_before_show(
                    keys@,
                    game,
                    old(render).sprites@,
                    grid@,
                    world.collision_set@,
                    old(targets)@,
                ),
                final(self).anim.sprite_id as int,
                final(self).anim.frame,
                final(self).transform.scene_x as int,
                final(self).transform.scene_y as int,
                final(self).facing_left,
            ),
            final(render).tile_maps@ == old(render).tile_maps@,
            final(cues)@ == old(cues)@ + old(self).cues_of_frame(
                keys@,
                game,
                world.gravity as int,
                finish_line[0] as int,
                finish_line[1] as int,
                grid@,
                world.collision_set@,
            ),
    {
        let attrs = &world.collision_set;
        self.fire_phase(keys, game, render, cues);
        self.move_phase(keys, game, world.gravity, grid, attrs, finish_line, cues);
        self.launcher.update_projectiles(grid, attrs, targets, render);
        self.settle(cues);
        self.check_fall();
        assert(cues@ =~= old(cues)@ + old(self).cues_of_frame(
            keys@,
            game,
            world.gravity as int,
            finish_line[0] as int,
            finish_line[1] as int,
            grid@,
            world.collision_set@,
        ));
        render.show_sprite(
            self.anim.sprite_id,
            self.anim.frame,
            self.transform.scene_x,
            self.transform.scene_y,
            self.facing_left,
        );
    }

    /// The fire phase of a frame: the launcher's cooldown counts one frame
    /// up, and a fire request is handled if the actor fires.
    pub fn fire_phase(&mut self, keys: &Inputs, game: GameMode, render: &mut RenderState, cues: &mut Vec<Cue>)
        requires
            old(self).wf(),
        ensures
            final(self).wf(),
            final(self)@ == old(self)@,
            final(self).launcher@ == old(self).launcher_after_fire(keys@, game, old(render).sprites@.len()),
            final(render).sprites@ == old(self).sprites_after_fire(keys@, game, old(render).sprites@),
            final(render).tile_maps@ == old(render).tile_maps@,
            final(cues)@ == old(cues)@ + old(self).shot_cue(keys@, game),
    {
        self.launcher.tick();
        if keys.contains(InputCode::Fire) && game == GameMode::Spyder {
            let direction = if self.facing_left {
                Direction::Left
            } else {
                Direction::Right
            };
            self.launcher.fire(self.transform.scene_x, self.transform.scene_y, direction, render, cues);
        }
        assert(cues@ =~= old(cues)@ + old(self).shot_cue(keys@, game));
    }

    /// The phases of a frame that move the actor: friction, input and
    /// gravity, integration, ground contact, side contact, and the check of
    /// the finish line.
    pub fn move_phase(
        &mut self,
        keys: &Inputs,
        game: GameMode,
        gravity: i64,
        grid: &TileGrid,
        attrs: &AttrSet,
        finish_line: [u16; 2],
        cues: &mut Vec<Cue>,
    )
        requires
            old(self).wf(),
            0 <= gravity <= RATE_MAX,
        ensures
            final(self).wf(),
            final(self).launcher == old(self).launcher,
            final(self)@ == old(self)@.before_settle(
                keys@,
                game,
                gravity as int,
                finish_line[0] as int,
                finish_line[1] as int,
                grid@,
                attrs@,
            ),
            final(cues)@ == old(cues)@ + old(self)@.jump_cue(keys@, game),
    {
        self.accelerate(keys, game, gravity, cues);
        self.integrate();
        self.check_ground_collision(grid, attrs);
        self.check_side_collision(grid, attrs);
        self.check_finish(game, finish_line);
        assert(cues@ =~= old(cues)@ + old(self)@.jump_cue(keys@, game));
    }
}

} // verus!
