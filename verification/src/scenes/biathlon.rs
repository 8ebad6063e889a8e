//! The level scene: the race and the mission that share a level.
//!
//! Each frame the clock of the active ruleset runs, the actor moves, and the
//! scene ends when both rulesets are accomplished, when the mission runs out
//! of time, or when the actor falls out of the level.

use vstd::prelude::*;
use vstd::std_specs::hash::*;
use crate::attr::{slope_tiles, AttrSet, TileAttr, HAZARD_TILE};
use crate::body::Transform;
use crate::grid::{GridView, TileGrid};
use crate::input::InputCode;
use crate::launcher::{
    count_hits, spec_hit_count, spec_new_launcher, spec_target_box, spec_target_sprite, Flight,
    LauncherView, Target,
};
use crate::overlay::{Bindings, SceneMapView};
use crate::player::{Actor, Player};
use crate::probe::Ray;
use crate::records::spec_check_result;
use crate::render::{spec_placed, spec_shown, RenderState, Sprite};
use crate::scenes::{swap_bindings, swaps, SceneExit};
use crate::state::{next_count, spec_next_count, GameState, SpyderEventRecord, MEDAL_CEREMONY};
use crate::units::UNIT;
use crate::world::GameMode;

verus! {

/// How far below the actor's position the level must reach, in sub-pixel
/// units, for the actor not to have fallen out of it.
pub const FALL_MARGIN: i64 = 96000;

/// How far up and to the left of the actor the camera aims, in sub-pixel
/// units.
pub const CAMERA_LEAD: i64 = 100000;

/// How many targets were struck, and how many there are.
#[derive(Clone, Copy, Debug, PartialEq, Eq, Structural)]
pub struct HitCount {
    pub struck: u8,
    pub targets: usize,
}

/// What the clock of the level shows.
#[derive(Clone, Copy, Debug, PartialEq, Eq, Structural)]
pub struct TimerDisplay {
    /// In the mission: the count of the targets.
    pub hits: Option<HitCount>,
    pub minutes: u32,
    pub seconds: u32,
    pub hundredths: u32,
}

/// What a frame of the level tells the caller.
#[derive(Clone, Copy, Debug, PartialEq, Eq, Structural)]
pub struct FrameReport {
    /// How the scene ended, if it ended in this frame.
    pub exit: Option<SceneExit>,
    /// Where the camera aims.
    pub camera_x: i64,
    pub camera_y: i64,
    /// What the clock shows.
    pub clock: TimerDisplay,
}

/// The frames that a clock shows: a countdown that has run out shows none.
pub open spec fn spec_clock_frames(state: GameState) -> u32 {
    match state.game {
        GameMode::Buglympics => state.bl_timer,
        GameMode::Spyder => if state.spy_timer < 0 {
            0
        } else {
            state.spy_timer as u32
        },
    }
}

/// What the clock shows for a number of frames.
pub open spec fn spec_clock(hits: Option<HitCount>, frames: u32) -> TimerDisplay {
    TimerDisplay {
        hits,
        minutes: frames / 3600,
        seconds: (frames / 60) % 60,
        hundredths: ((frames % 60) * 100 / 60) as u32,
    }
}

/// The event of the state has everything that a level needs: bindings, a
/// race with its leaderboard, and a mission.
pub open spec fn event_ready(state: GameState) -> bool {
    &&& state.events@.contains_key(state.event)
    &&& state.buglympics.events@.contains_key(state.event)
    &&& state.buglympics.medals@.contains_key(state.event)
    &&& state.spyder.events@.contains_key(state.event)
}

/// Whether the event of the state has everything that a level needs.
pub fn is_event_ready(state: &GameState) -> (b: bool)
    ensures
        b == event_ready(*state),
{
    broadcast use group_hash_axioms;

    state.events.contains_key(&state.event) && state.buglympics.events.contains_key(&state.event)
        && state.buglympics.medals.contains_key(&state.event) && state.spyder.events.contains_key(
        &state.event,
    )
}

/// What the clock of the level shows: the time of the race, or the time left
/// for the mission with the count of the targets.
pub fn display_timer(state: &GameState) -> (clock: TimerDisplay)
    requires
        state.game == GameMode::Spyder ==> state.spyder.events@.contains_key(state.event),
    ensures
        clock == spec_clock(
            match state.game {
                GameMode::Buglympics => None,
                GameMode::Spyder => Some(
                    HitCount {
                        struck: state.hit_count,
                        targets: state.spyder.events@[state.event].targets@.len() as usize,
                    },
                ),
            },
            spec_clock_frames(*state),
        ),
{
    broadcast use group_hash_axioms;

    let (hits, frames): (Option<HitCount>, u32) = match state.game {
        GameMode::Buglympics => (None, state.bl_timer),
        GameMode::Spyder => {
            let total = match state.spyder.events.get(&state.event) {
                Some(event) => event.targets.len(),
                None => 0,
            };
            let frames: u32 = if state.spy_timer < 0 {
                0
            } else {
                state.spy_timer as u32
            };
            (Some(HitCount { struck: state.hit_count, targets: total }), frames)
        },
    };
    TimerDisplay {
        hits,
        minutes: frames / 3600,
        seconds: (frames / 60) % 60,
        hundredths: (frames % 60) * 100 / 60,
    }
}

/// The collision set after the tiles of a level are set: at the start of a
/// level the slope classification of the level tile set is entered, and the
/// hazard tile is collidable in the mission only.
pub open spec fn spec_tile_attrs(tiles: Map<usize, TileAttr>, game: GameMode, initial: bool) -> Map<
    usize,
    TileAttr,
> {
    let base = if initial {
        tiles.union_prefer_right(slope_tiles())
    } else {
        tiles
    };
    match game {
        GameMode::Buglympics => base.remove(HAZARD_TILE),
        GameMode::Spyder => base.insert(HAZARD_TILE, TileAttr::Angle(0)),
    }
}

/// The hazard tile is collidable in the mission and in the mission only, and
/// the ruleset decides on no other tile: an increment of a probe over the
/// hazard tile reports a hit in the mission and none in the race, and an
/// increment over any other tile reports the same under both rulesets.
pub proof fn lemma_hazard_follows_ruleset(
    tiles: Map<usize, TileAttr>,
    initial: bool,
    ray: Ray,
    grid: GridView,
    k: int,
)
    ensures
        spec_tile_attrs(tiles, GameMode::Spyder, initial).contains_key(HAZARD_TILE),
        !spec_tile_attrs(tiles, GameMode::Buglympics, initial).contains_key(HAZARD_TILE),
        forall|id: usize|
            id != HAZARD_TILE ==> (spec_tile_attrs(tiles, GameMode::Spyder, initial).contains_key(id)
                <==> spec_tile_attrs(tiles, GameMode::Buglympics, initial).contains_key(id)),
        grid.covers(ray.sample_x(k), ray.sample_y(k)) && grid.cells[grid.loc_at(
            ray.sample_x(k),
            ray.sample_y(k),
        )] == HAZARD_TILE ==> {
            &&& ray.hit_at(grid, spec_tile_attrs(tiles, GameMode::Spyder, initial), k) is Some
            &&& ray.hit_at(grid, spec_tile_attrs(tiles, GameMode::Buglympics, initial), k) is None
        },
        grid.covers(ray.sample_x(k), ray.sample_y(k)) && grid.cells[grid.loc_at(
            ray.sample_x(k),
            ray.sample_y(k),
        )] != HAZARD_TILE ==> ray.hit_at(grid, spec_tile_attrs(tiles, GameMode::Spyder, initial), k)
            == ray.hit_at(grid, spec_tile_attrs(tiles, GameMode::Buglympics, initial), k),
{
}

/// Sets which tiles are collidable under the active ruleset; `initial` says
/// that the level starts.
pub fn set_tile_attrs(state: &mut GameState, initial: bool)
    ensures
        final(state).world.collision_set@ == spec_tile_attrs(
            old(state).world.collision_set@,
            old(state).game,
            initial,
        ),
        final(state).world.collision_set.spec_tile_set_id() == old(state).world.collision_set.spec_tile_set_id(),
        final(state).world.gravity == old(state).world.gravity,
        *final(state) == (GameState { world: final(state).world, ..*old(state) }),
{
    if initial {
        state.world.collision_set.load_slope_tiles();
    }
    match state.game {
        GameMode::Buglympics => state.world.collision_set.set_hazard(false),
        GameMode::Spyder => state.world.collision_set.set_hazard(true),
    }
}

/// The clocks of a level and what they have led to.
pub struct Clock {
    pub bl_timer: u32,
    pub bl_finished: bool,
    pub spy_timer: i32,
    pub spy_finished: bool,
}

/// One frame less, as far as frames are counted.
pub open spec fn spec_count_down(frames: i32) -> i32 {
    if frames > i32::MIN {
        (frames - 1) as i32
    } else {
        frames
    }
}

/// Every target was struck.
pub open spec fn all_struck(targets: Seq<Target>) -> bool {
    forall|i: int| 0 <= i < targets.len() ==> (#[trigger] targets[i]).hit
}

impl Clock {
    /// The clocks one frame later. The clock of the active ruleset runs
    /// until that ruleset is accomplished: the race when the actor has
    /// finished, the mission when every target was struck.
    pub open spec fn step(self, game: GameMode, finished: bool, struck: bool) -> Clock {
        match game {
            GameMode::Buglympics => Clock {
                bl_timer: if self.bl_finished {
                    self.bl_timer
                } else {
                    spec_next_count(self.bl_timer)
                },
                bl_finished: self.bl_finished || finished,
                ..self
            },
            GameMode::Spyder => Clock {
                spy_timer: if self.spy_finished {
                    self.spy_timer
                } else {
                    spec_count_down(self.spy_timer)
                },
                spy_finished: self.spy_finished || struck,
                ..self
            },
        }
    }

    /// The mission has run out of time: its countdown has reached zero
    /// before every target was struck.
    pub open spec fn timed_out(self, game: GameMode) -> bool {
        game == GameMode::Spyder && self.spy_timer <= 0 && !self.spy_finished
    }

    /// Both rulesets are accomplished.
    pub open spec fn both_done(self) -> bool {
        self.bl_finished && self.spy_finished
    }
}

/// The clocks of a state.
pub open spec fn clock_of(state: GameState) -> Clock {
    Clock {
        bl_timer: state.bl_timer,
        bl_finished: state.bl_finished,
        spy_timer: state.spy_timer,
        spy_finished: state.spy_finished,
    }
}

/// The targets of the event of a state.
pub open spec fn targets_of(state: GameState) -> Seq<Target> {
    state.spyder.events@[state.event].targets@
}

/// The sprites after the first `n` targets were shown where they are.
pub open spec fn spec_show_targets(sprites: Seq<Sprite>, targets: Seq<Target>, n: nat) -> Seq<Sprite>
    decreases n,
{
    if n == 0 {
        sprites
    } else {
        spec_placed(
            spec_show_targets(sprites, targets, (n - 1) as nat),
            targets[n - 1].sprite_id as int,
            targets[n - 1].transform.scene_x as int,
            targets[n - 1].transform.scene_y as int,
        )
    }
}

/// Shows every target where it is, and says whether every target was struck.
pub fn survey_targets(targets: &Vec<Target>, render: &mut RenderState) -> (all: bool)
    ensures
        all == all_struck(targets@),
        final(render).tile_maps@ == old(render).tile_maps@,
        final(render).sprites@ == spec_show_targets(old(render).sprites@, targets@, targets@.len()),
{
    let mut all = true;
    let mut i: usize = 0;
    while i < targets.len()
        invariant
            i <= targets@.len(),
            all == (forall|j: int| 0 <= j < i ==> (#[trigger] targets@[j]).hit),
            render.tile_maps@ == old(render).tile_maps@,
            render.sprites@ == spec_show_targets(old(render).sprites@, targets@, i as nat),
        decreases targets@.len() - i,
    {
        targets[i].update(render);
        if !targets[i].hit {
            all = false;
        }
        i = i + 1;
    }
    all
}

/// Runs the clock of the race for one frame, and enters the finish into the
/// leaderboard in the frame in which the actor has finished.
pub fn run_race_clock(state: &mut GameState)
    requires
        old(state).wf(),
        old(state).game == GameMode::Buglympics,
        old(state).buglympics.medals@.contains_key(old(state).event),
    ensures
        final(state).wf(),
        clock_of(*final(state)) == clock_of(*old(state)).step(
            GameMode::Buglympics,
            old(state).player.finished,
            false,
        ),
        *final(state) == (GameState {
            bl_timer: final(state).bl_timer,
            bl_finished: final(state).bl_finished,
            buglympics: final(state).buglympics,
            ..*old(state)
        }),
        race_recorded(*old(state), *final(state)),
{
    if !state.bl_finished {
        state.bl_timer = next_count(state.bl_timer);
    }
    if state.player.finished && !state.bl_finished {
        state.buglympics.record_finish(state.event, state.bl_timer);
        state.bl_finished = true;
    }
}

/// The leaderboards of the later state are those of the earlier, with the
/// finish entered if the actor has finished the race in between.
pub open spec fn race_recorded(before: GameState, after: GameState) -> bool {
    if before.game == GameMode::Buglympics && before.player.finished && !before.bl_finished {
        &&& after.buglympics.nation == before.buglympics.nation
        &&& after.buglympics.events == before.buglympics.events
        &&& after.buglympics.medals@.dom() == before.buglympics.medals@.dom()
        &&& forall|other: usize|
            other != before.event && before.buglympics.medals@.contains_key(other)
                ==> after.buglympics.medals@[other] == before.buglympics.medals@[other]
        &&& after.buglympics.medals@[before.event]@ == spec_check_result(
            before.buglympics.medals@[before.event]@,
            before.buglympics.finish_record(before.event, spec_next_count(before.bl_timer)),
        )
        &&& after.buglympics.medals@[before.event].spec_event()
            == before.buglympics.medals@[before.event].spec_event()
    } else {
        after.buglympics == before.buglympics
    }
}

/// The results of the later state are those of the earlier, with the result
/// of the mission entered if it was accomplished in between.
pub open spec fn mission_recorded(before: GameState, after: GameState) -> bool {
    &&& after.spyder.events == before.spyder.events
    &&& after.spyder.results@ == (if before.game == GameMode::Spyder && all_struck(targets_of(before))
        && !before.spy_finished {
        before.spyder.results@.insert(
            before.event,
            SpyderEventRecord {
                event: before.event,
                time_remaining: spec_count_down(before.spy_timer),
            },
        )
    } else {
        before.spyder.results@
    })
}

/// Runs the clock of the mission for one frame, counts the targets that were
/// struck, shows the targets, and enters the result in the frame in which
/// the last target was struck.
pub fn run_mission_clock(state: &mut GameState, render: &mut RenderState)
    requires
        old(state).wf(),
        old(state).game == GameMode::Spyder,
        old(state).spyder.events@.contains_key(old(state).event),
    ensures
        final(state).wf(),
        clock_of(*final(state)) == clock_of(*old(state)).step(
            GameMode::Spyder,
            false,
            all_struck(targets_of(*old(state))),
        ),
        final(state).hit_count == (if spec_hit_count(targets_of(*old(state))) > 255 {
            255
        } else {
            spec_hit_count(targets_of(*old(state))) as int
        }),
        *final(state) == (GameState {
            spy_timer: final(state).spy_timer,
            spy_finished: final(state).spy_finished,
            hit_count: final(state).hit_count,
            spyder: final(state).spyder,
            ..*old(state)
        }),
        mission_recorded(*old(state), *final(state)),
        final(render).tile_maps@ == old(render).tile_maps@,
        final(render).sprites@ == spec_show_targets(
            old(render).sprites@,
            targets_of(*old(state)),
            targets_of(*old(state)).len(),
        ),
{
    broadcast use group_hash_axioms;

    if !state.spy_finished {
        state.spy_timer = if state.spy_timer > i32::MIN {
            state.spy_timer - 1
        } else {
            state.spy_timer
        };
    }
    let (hits, all): (u8, bool) = match state.spyder.events.get(&state.event) {
        Some(event) => (count_hits(&event.targets), survey_targets(&event.targets, render)),
        None => (0, false),
    };
    state.hit_count = hits;
    if all && !state.spy_finished {
        state.spyder.record_result(state.event, state.spy_timer);
        state.spy_finished = true;
    }
}

/// The finish line of the event of a state, in pixels.
pub open spec fn finish_line_of(state: GameState) -> [u16; 2] {
    state.buglympics.events@[state.event].finish_line
}

/// The sprites of a level before the actor's frame: in the mission the
/// targets are shown where they are.
pub open spec fn sprites_before_player(state: GameState, sprites: Seq<Sprite>) -> Seq<Sprite> {
    match state.game {
        GameMode::Buglympics => sprites,
        GameMode::Spyder => spec_show_targets(sprites, targets_of(state), targets_of(state).len()),
    }
}

/// The later state and render state are the earlier ones with the actor
/// taken through one frame of the level, among the targets of the event and
/// towards its finish line.
pub open spec fn player_moved(
    before: GameState,
    after: GameState,
    grid: GridView,
    sprites_before: Seq<Sprite>,
) -> bool {
    let keys = before.inputs@;
    let attrs = before.world.collision_set@;
    let finish = finish_line_of(before);
    let shown = before.player.sprites_before_show(
        keys,
        before.game,
        sprites_before,
        grid,
        attrs,
        targets_of(before),
    );
    &&& after.player@ == before.player@.after_frame(
        keys,
        before.game,
        before.world.gravity as int,
        finish[0] as int,
        finish[1] as int,
        grid,
        attrs,
    )
    &&& after.player.launcher@ == (LauncherView {
        projectiles: after.player.launcher.projectiles@,
        ..before.player.launcher_after_fire(keys, before.game, sprites_before.len())
    })
    &&& (Flight {
        projectiles: after.player.launcher.projectiles@,
        targets: targets_of(after),
        sprites: shown,
    }) == before.player.flight_of_frame(keys, before.game, sprites_before, grid, attrs, targets_of(before))
    &&& after.sfx_queue@ == before.sfx_queue@ + before.player.cues_of_frame(
        keys,
        before.game,
        before.world.gravity as int,
        finish[0] as int,
        finish[1] as int,
        grid,
        attrs,
    )
    &&& after.spyder.events@.dom() == before.spyder.events@.dom()
    &&& after.spyder.events@[before.event].start_line == before.spyder.events@[before.event].start_line
    &&& after.spyder.events@[before.event].time_limit == before.spyder.events@[before.event].time_limit
    &&& forall|other: usize|
        other != before.event && before.spyder.events@.contains_key(other) ==> after.spyder.events@[other]
            == before.spyder.events@[other]
}

/// The sprites of a level after the actor's frame: the projectiles have
/// flown, and the actor is shown where it is.
pub open spec fn sprites_after_player(
    before: GameState,
    after: GameState,
    grid: GridView,
    sprites_before: Seq<Sprite>,
) -> Seq<Sprite> {
    spec_shown(
        before.player.sprites_before_show(
            before.inputs@,
            before.game,
            sprites_before,
            grid,
            before.world.collision_set@,
            targets_of(before),
        ),
        after.player.anim.sprite_id as int,
        after.player.anim.frame,
        after.player.transform.scene_x as int,
        after.player.transform.scene_y as int,
        after.player.facing_left,
    )
}

/// Takes the actor through one frame of the level.
pub fn run_player(state: &mut GameState, grid: &TileGrid, render: &mut RenderState)
    requires
        old(state).wf(),
        event_ready(*old(state)),
    ensures
        final(state).wf(),
        player_moved(*old(state), *final(state), grid@, old(render).sprites@),
        final(state).spyder.results == old(state).spyder.results,
        final(render).sprites@ == sprites_after_player(*old(state), *final(state), grid@, old(render).sprites@),
        final(render).tile_maps@ == old(render).tile_maps@,
        *final(state) == (GameState {
            player: final(state).player,
            spyder: final(state).spyder,
            sfx_queue: final(state).sfx_queue,
            ..*old(state)
        }),
{
    broadcast use group_hash_axioms;

    let finish_line: [u16; 2] = match state.buglympics.events.get(&state.event) {
        Some(race) => race.finish_line,
        None => [0, 0],
    };
    match state.spyder.events.remove(&state.event) {
        Some(mission) => {
            let mut mission = mission;
            state.player.update(
                &state.inputs,
                state.game,
                &state.world,
                grid,
                &mut mission.targets,
                finish_line,
                render,
                &mut state.sfx_queue,
            );
            state.spyder.events.insert(state.event, mission);
            assert(state.spyder.events@.dom() =~= old(state).spyder.events@.dom());
        },
        None => {},
    }
}

/// The actor has fallen out of the level: the level does not reach far
/// enough below the actor's position.
pub open spec fn fell_out(player: Player, grid: GridView) -> bool {
    player.transform.scene_y + FALL_MARGIN > grid.rows * grid.tile_height * UNIT
}

/// Whether the actor has fallen out of the level.
pub fn has_fallen_out(player: &Player, grid: &TileGrid) -> (b: bool)
    ensures
        b == fell_out(*player, grid@),
{
    let rows: u128 = grid.rows() as u128;
    let height: u128 = grid.tile_height() as u128;
    assert(rows * height * 1000 <= 0xffff_ffff_ffff_ffff * 0xffff * 1000) by (nonlinear_arith)
        requires
            rows <= 0xffff_ffff_ffff_ffff,
            height <= 0xffff,
    ;
    let bound: u128 = rows * height * 1000;
    let reach: i128 = (player.transform.scene_y as i128) + (FALL_MARGIN as i128);
    if reach < 0 {
        false
    } else {
        (reach as u128) > bound
    }
}

/// Marks the event of the state as completed under both rulesets.
pub fn mark_both_complete(state: &mut GameState)
    requires
        old(state).events@.contains_key(old(state).event),
    ensures
        final(state).events@.dom() == old(state).events@.dom(),
        final(state).events@[old(state).event]@ == (SceneMapView {
            both_complete: true,
            ..old(state).events@[old(state).event]@
        }),
        forall|other: usize|
            other != old(state).event && old(state).events@.contains_key(other) ==> final(state).events@[other]
                == old(state).events@[other],
        *final(state) == (GameState { events: final(state).events, ..*old(state) }),
{
    broadcast use group_hash_axioms;

    match state.events.remove(&state.event) {
        Some(mapping) => {
            let mut mapping = mapping;
            mapping.both_complete = true;
            state.events.insert(state.event, mapping);
            assert(state.events@.dom() =~= old(state).events@.dom());
        },
        None => {},
    }
}

/// The later state is the earlier with the clocks of the level run for one
/// frame and the accomplishment of a ruleset recorded.
pub open spec fn clocks_ran(before: GameState, after: GameState) -> bool {
    &&& clock_of(after) == clock_of(before).step(
        before.game,
        before.player.finished,
        all_struck(targets_of(before)),
    )
    &&& after.hit_count == (match before.game {
        GameMode::Buglympics => before.hit_count as int,
        GameMode::Spyder => if spec_hit_count(targets_of(before)) > 255 {
            255
        } else {
            spec_hit_count(targets_of(before)) as int
        },
    })
    &&& race_recorded(before, after)
    &&& mission_recorded(before, after)
    &&& after.events@.dom() == before.events@.dom()
    &&& forall|other: usize|
        other != before.event && before.events@.contains_key(other) ==> after.events@[other]
            == before.events@[other]
    &&& after.events@[before.event]@ == (SceneMapView {
        both_complete: before.events@[before.event]@.both_complete || clock_of(after).both_done(),
        ..before.events@[before.event]@
    })
    &&& after.last_event_success == (if clock_of(after).both_done() {
        true
    } else if clock_of(after).timed_out(before.game) {
        false
    } else {
        before.last_event_success
    })
    &&& after == (GameState {
        bl_timer: after.bl_timer,
        bl_finished: after.bl_finished,
        spy_timer: after.spy_timer,
        spy_finished: after.spy_finished,
        hit_count: after.hit_count,
        buglympics: after.buglympics,
        spyder: after.spyder,
        events: after.events,
        last_event_success: after.last_event_success,
        ..before
    })
}

/// Runs the clock of the active ruleset for one frame, records its
/// accomplishment, and says whether the scene ends on that account and what
/// the clock shows.
pub fn run_clocks(state: &mut GameState, render: &mut RenderState) -> (out: (bool, TimerDisplay))
    requires
        old(state).wf(),
        event_ready(*old(state)),
    ensures
        final(state).wf(),
        event_ready(*final(state)),
        clocks_ran(*old(state), *final(state)),
        out.0 == (clock_of(*final(state)).timed_out(old(state).game) || clock_of(*final(state)).both_done()),
        out.1 == spec_report_clock(*old(state), *final(state)),
        final(render).tile_maps@ == old(render).tile_maps@,
        final(render).sprites@ == sprites_before_player(*old(state), old(render).sprites@),
{
    let mut ends = false;
    match state.game {
        GameMode::Buglympics => run_race_clock(state),
        GameMode::Spyder => {
            run_mission_clock(state, render);
            if state.spy_timer <= 0 && !state.spy_finished {
                state.last_event_success = false;
                ends = true;
            }
        },
    }
    let clock = display_timer(state);
    if state.bl_finished && state.spy_finished {
        mark_both_complete(state);
        state.last_event_success = true;
        ends = true;
    } else {
        assert(state.events@[state.event]@ == (SceneMapView {
            both_complete: state.events@[state.event]@.both_complete,
            ..state.events@[state.event]@
        }));
    }
    (ends, clock)
}

/// What the clock of the level shows in a frame.
pub open spec fn spec_report_clock(before: GameState, after: GameState) -> TimerDisplay {
    spec_clock(
        match before.game {
            GameMode::Buglympics => None,
            GameMode::Spyder => Some(
                HitCount { struck: after.hit_count, targets: targets_of(before).len() as usize },
            ),
        },
        match before.game {
            GameMode::Buglympics => after.bl_timer,
            GameMode::Spyder => if after.spy_timer < 0 {
                0
            } else {
                after.spy_timer as u32
            },
        },
    )
}

/// The later state is the earlier at the end of a frame of the level: a
/// scene that ends leads to the medal ceremony, a swap of the ruleset is
/// handled, and the frame is counted.
pub open spec fn frame_ended(before: GameState, after: GameState, ends: bool, fell: bool) -> bool {
    &&& after.last_event_success == (if fell {
        false
    } else {
        before.last_event_success
    })
    &&& after.current_scene == (if ends || fell {
        MEDAL_CEREMONY
    } else {
        before.current_scene
    })
    &&& after.game == (if before.inputs@.contains(InputCode::Swap) {
        before.game_after_swap()
    } else {
        before.game
    })
    &&& after.world.gravity == before.world.gravity
    &&& after.world.collision_set.spec_tile_set_id() == before.world.collision_set.spec_tile_set_id()
    &&& after.world.collision_set@ == (if before.inputs@.contains(InputCode::Swap) {
        spec_tile_attrs(before.world.collision_set@, after.game, false)
    } else {
        before.world.collision_set@
    })
    &&& after.swap_cooldown == spec_next_count(
        if swaps(before) {
            0
        } else {
            before.swap_cooldown
        },
    )
    &&& after.scene_frames == spec_next_count(before.scene_frames)
    &&& after == (GameState {
        last_event_success: after.last_event_success,
        current_scene: after.current_scene,
        game: after.game,
        world: after.world,
        swap_cooldown: after.swap_cooldown,
        scene_frames: after.scene_frames,
        ..before
    })
}

/// Ends a frame of the level: the scene ends if the event is over or the
/// actor has fallen out of the level, a swap of the ruleset is handled, and
/// the frame is counted. Says whether the scene ends.
pub fn end_frame(state: &mut GameState, grid: &TileGrid, render: &mut RenderState, ends: bool) -> (over: bool)
    requires
        old(state).wf(),
    ensures
        final(state).wf(),
        over == (ends || fell_out(old(state).player, grid@)),
        frame_ended(*old(state), *final(state), ends, fell_out(old(state).player, grid@)),
        final(render).tile_maps@ == (match swap_bindings(*old(state)) {
            Some(b) => b.bind_tile_maps(old(render).tile_maps@),
            None => old(render).tile_maps@,
        }),
        final(render).sprites@ == (match swap_bindings(*old(state)) {
            Some(b) => b.bind_sprites(old(render).sprites@),
            None => old(render).sprites@,
        }),
{
    let mut over = ends;
    if has_fallen_out(&state.player, grid) {
        state.last_event_success = false;
        over = true;
    }
    if over {
        state.current_scene = MEDAL_CEREMONY;
    }
    if state.inputs.contains(InputCode::Swap) {
        state.swap_game(render);
        set_tile_attrs(state, false);
    }
    state.swap_cooldown = next_count(state.swap_cooldown);
    state.scene_frames = next_count(state.scene_frames);
    over
}

/// The scene ends in the frame that leads from the earlier state to the
/// later: the mission has run out of time, both rulesets are accomplished, or
/// the actor has fallen out of the level.
pub open spec fn scene_ends(before: GameState, after: GameState, grid: GridView) -> bool {
    ||| clock_of(after).timed_out(before.game)
    ||| clock_of(after).both_done()
    ||| fell_out(after.player, grid)
}

/// The event is accomplished in the frame that leads to the given state:
/// both rulesets are accomplished and the actor has not fallen out of the
/// level.
pub open spec fn event_won(after: GameState, grid: GridView) -> bool {
    clock_of(after).both_done() && !fell_out(after.player, grid)
}

/// The later state is the earlier one frame of the level later.
pub open spec fn level_stepped(
    before: GameState,
    after: GameState,
    grid: GridView,
    sprites_before: Seq<Sprite>,
) -> bool {
    &&& clock_of(after) == clock_of(before).step(
        before.game,
        before.player.finished,
        all_struck(targets_of(before)),
    )
    &&& after.hit_count == (match before.game {
        GameMode::Buglympics => before.hit_count as int,
        GameMode::Spyder => if spec_hit_count(targets_of(before)) > 255 {
            255
        } else {
            spec_hit_count(targets_of(before)) as int
        },
    })
    &&& race_recorded(before, after)
    &&& after.spyder.results@ == (if before.game == GameMode::Spyder && all_struck(targets_of(before))
        && !before.spy_finished {
        before.spyder.results@.insert(
            before.event,
            SpyderEventRecord {
                event: before.event,
                time_remaining: spec_count_down(before.spy_timer),
            },
        )
    } else {
        before.spyder.results@
    })
    &&& player_moved(before, after, grid, sprites_before_player(before, sprites_before))
    &&& after.events@.dom() == before.events@.dom()
    &&& forall|other: usize|
        other != before.event && before.events@.contains_key(other) ==> after.events@[other]
            == before.events@[other]
    &&& after.events@[before.event]@ == (SceneMapView {
        both_complete: before.events@[before.event]@.both_complete || clock_of(after).both_done(),
        ..before.events@[before.event]@
    })
    &&& after.last_event_success == (if scene_ends(before, after, grid) {
        event_won(after, grid)
    } else {
        before.last_event_success
    })
    &&& after.current_scene == (if scene_ends(before, after, grid) {
        MEDAL_CEREMONY
    } else {
        before.current_scene
    })
    &&& after.game == (if before.inputs@.contains(InputCode::Swap) {
        before.game_after_swap()
    } else {
        before.game
    })
    &&& after.world.gravity == before.world.gravity
    &&& after.world.collision_set.spec_tile_set_id() == before.world.collision_set.spec_tile_set_id()
    &&& after.world.collision_set@ == (if before.inputs@.contains(InputCode::Swap) {
        spec_tile_attrs(before.world.collision_set@, after.game, false)
    } else {
        before.world.collision_set@
    })
    &&& after.swap_cooldown == spec_next_count(
        if swaps(before) {
            0
        } else {
            before.swap_cooldown
        },
    )
    &&& after.scene_frames == spec_next_count(before.scene_frames)
    &&& after.input_cooldown == before.input_cooldown
    &&& after.current_shot == before.current_shot
    &&& after.event == before.event
    &&& after.menu == before.menu
    &&& after.inputs == before.inputs
}

/// The three parts of a frame of the level, one after the other, make one
/// frame of the level.
pub proof fn lemma_level_stepped(
    before: GameState,
    timed: GameState,
    moved: GameState,
    after: GameState,
    grid: GridView,
    sprites_before: Seq<Sprite>,
    ends: bool,
)
    requires
        event_ready(before),
        clocks_ran(before, timed),
        ends == (clock_of(timed).timed_out(before.game) || clock_of(timed).both_done()),
        player_moved(timed, moved, grid, sprites_before_player(before, sprites_before)),
        moved.spyder.results == timed.spyder.results,
        moved == (GameState {
            player: moved.player,
            spyder: moved.spyder,
            sfx_queue: moved.sfx_queue,
            ..timed
        }),
        frame_ended(moved, after, ends, fell_out(moved.player, grid)),
    ensures
        level_stepped(before, after, grid, sprites_before),
        swap_bindings(moved) == swap_bindings(before),
        sprites_after_player(timed, moved, grid, sprites_before_player(before, sprites_before))
            == sprites_after_player(before, after, grid, sprites_before_player(before, sprites_before)),
        scene_ends(before, after, grid) == (ends || fell_out(moved.player, grid)),
        after.last_event_success == (if scene_ends(before, after, grid) {
            event_won(after, grid)
        } else {
            before.last_event_success
        }),
        spec_report_clock(before, timed) == spec_report_clock(before, after),
{
    assert(targets_of(timed) == targets_of(before));
    assert(finish_line_of(timed) == finish_line_of(before));
    assert(timed.player == before.player);
    assert(timed.inputs == before.inputs);
    assert(timed.world == before.world);
    assert(timed.game == before.game);
    assert(timed.sfx_queue == before.sfx_queue);
    assert(player_moved(before, moved, grid, sprites_before_player(before, sprites_before)));
    assert(after.player == moved.player);
    assert(after.spyder == moved.spyder);
    assert(after.sfx_queue == moved.sfx_queue);
    assert(player_moved(before, after, grid, sprites_before_player(before, sprites_before)));
    assert(clock_of(after) == clock_of(timed));
    assert(moved.bindings(moved.game.other()) == before.bindings(before.game.other()));
    assert(moved.game_after_swap() == before.game_after_swap());
}

/// Takes the level through one frame: the clock of the active ruleset runs
/// and its accomplishment is recorded, the actor moves, the scene ends if
/// the event is over, and a swap of the ruleset is handled.
pub fn update(state: &mut GameState, grid: &TileGrid, render: &mut RenderState) -> (report: FrameReport)
    requires
        old(state).wf(),
        event_ready(*old(state)),
    ensures
        final(state).wf(),
        event_ready(*final(state)),
        level_stepped(*old(state), *final(state), grid@, old(render).sprites@),
        report == (FrameReport {
            exit: if scene_ends(*old(state), *final(state), grid@) {
                Some(
                    SceneExit {
                        scene: old(state).current_scene,
                        success: event_won(*final(state), grid@),
                        next_scene: MEDAL_CEREMONY,
                    },
                )
            } else {
                None
            },
            camera_x: (old(state).player.transform.scene_x - CAMERA_LEAD) as i64,
            camera_y: (old(state).player.transform.scene_y - CAMERA_LEAD) as i64,
            clock: spec_report_clock(*old(state), *final(state)),
        }),
        final(render).tile_maps@ == (match swap_bindings(*old(state)) {
            Some(b) => b.bind_tile_maps(old(render).tile_maps@),
            None => old(render).tile_maps@,
        }),
        final(render).sprites@ == (match swap_bindings(*old(state)) {
            Some(b) => b.bind_sprites(
                sprites_after_player(
                    *old(state),
                    *final(state),
                    grid@,
                    sprites_before_player(*old(state), old(render).sprites@),
                ),
            ),
            None => sprites_after_player(
                *old(state),
                *final(state),
                grid@,
                sprites_before_player(*old(state), old(render).sprites@),
            ),
        }),
{
    let scene = state.current_scene;
    let camera_x: i64 = state.player.transform.scene_x - CAMERA_LEAD;
    let camera_y: i64 = state.player.transform.scene_y - CAMERA_LEAD;
    let (ends, clock) = run_clocks(state, render);
    let ghost timed = *state;
    run_player(state, grid, render);
    let ghost moved = *state;
    let over = end_frame(state, grid, render, ends);
    proof {
        lemma_level_stepped(*old(state), timed, moved, *state, grid@, old(render).sprites@, ends);
    }
    FrameReport {
        exit: if over {
            Some(SceneExit { scene, success: state.last_event_success, next_scene: MEDAL_CEREMONY })
        } else {
            None
        },
        camera_x,
        camera_y,
        clock,
    }
}

/// One parameter of a placement record.
pub struct PlacementParam {
    pub param_name: String,
    /// The value, in sub-pixel units where it is a coordinate.
    pub param_value: i64,
}

/// A record of the level data that places an entity in the level.
pub struct PlacementRecord {
    /// What kind of entity is placed.
    pub data_entity_type: String,
    pub data_components: Vec<PlacementParam>,
}

/// The value that the first `n` parameters give to a name: that of the last
/// parameter of that name, or zero if there is none.
pub open spec fn spec_param(params: Seq<PlacementParam>, name: Seq<char>, n: nat) -> i64
    decreases n,
{
    if n == 0 {
        0
    } else if params[n - 1].param_name@ == name {
        params[n - 1].param_value
    } else {
        spec_param(params, name, (n - 1) as nat)
    }
}

/// A record places a target.
pub open spec fn places_target(record: PlacementRecord) -> bool {
    record.data_entity_type@ == "target"@
}

/// The target that a record places.
pub open spec fn spec_placed_target(record: PlacementRecord) -> Target {
    let params = record.data_components@;
    Target {
        entity_id: 0,
        hit: false,
        transform: Transform::at(
            0,
            spec_param(params, "scene_x"@, params.len()) as int,
            spec_param(params, "scene_y"@, params.len()) as int,
        ),
        collider: spec_target_box(),
        sprite_id: 0,
    }
}

/// The targets that the first `n` records place, in the order of the
/// records.
pub open spec fn spec_placed_targets(records: Seq<PlacementRecord>, n: nat) -> Seq<Target>
    decreases n,
{
    if n == 0 {
        Seq::empty()
    } else if places_target(records[n - 1]) {
        spec_placed_targets(records, (n - 1) as nat).push(spec_placed_target(records[n - 1]))
    } else {
        spec_placed_targets(records, (n - 1) as nat)
    }
}

/// The value that the parameters of a record give to a name.
fn param_of(params: &Vec<PlacementParam>, name: &String) -> (value: i64)
    ensures
        value == spec_param(params@, name@, params@.len()),
{
    let mut value: i64 = 0;
    let mut i: usize = 0;
    while i < params.len()
        invariant
            i <= params@.len(),
            value == spec_param(params@, name@, i as nat),
        decreases params@.len() - i,
    {
        if params[i].param_name == *name {
            value = params[i].param_value;
        }
        i = i + 1;
    }
    value
}

/// Adds the targets that the placement records of a level place to the
/// mission of the current event.
pub fn data_entity_handler(data_entities: &Vec<PlacementRecord>, state: &mut GameState)
    requires
        old(state).spyder.events@.contains_key(old(state).event),
    ensures
        targets_of(*final(state)) == targets_of(*old(state)) + spec_placed_targets(
            data_entities@,
            data_entities@.len(),
        ),
        final(state).spyder.events@.dom() == old(state).spyder.events@.dom(),
        final(state).spyder.events@[old(state).event].start_line == old(state).spyder.events@[old(
            state,
        ).event].start_line,
        final(state).spyder.events@[old(state).event].time_limit == old(state).spyder.events@[old(
            state,
        ).event].time_limit,
        forall|other: usize|
            other != old(state).event && old(state).spyder.events@.contains_key(other)
                ==> final(state).spyder.events@[other] == old(state).spyder.events@[other],
        final(state).spyder.results == old(state).spyder.results,
        *final(state) == (GameState { spyder: final(state).spyder, ..*old(state) }),
{
    broadcast use group_hash_axioms;

    let kind = "target".to_owned();
    let key_x = "scene_x".to_owned();
    let key_y = "scene_y".to_owned();
    match state.spyder.events.remove(&state.event) {
        Some(mission) => {
            let mut mission = mission;
            let ghost placed_before = mission.targets@;
            let mut i: usize = 0;
            while i < data_entities.len()
                invariant
                    i <= data_entities@.len(),
                    kind@ == "target"@,
                    key_x@ == "scene_x"@,
                    key_y@ == "scene_y"@,
                    mission.start_line == old(state).spyder.events@[old(state).event].start_line,
                    mission.time_limit == old(state).spyder.events@[old(state).event].time_limit,
                    mission.targets@ == placed_before + spec_placed_targets(data_entities@, i as nat),
                decreases data_entities@.len() - i,
            {
                let record = &data_entities[i];
                if record.data_entity_type == kind {
                    let scene_x = param_of(&record.data_components, &key_x);
                    let scene_y = param_of(&record.data_components, &key_y);
                    mission.targets.push(Target::new(scene_x, scene_y));
                }
                i = i + 1;
                assert(mission.targets@ =~= placed_before + spec_placed_targets(data_entities@, i as nat));
            }
            state.spyder.events.insert(state.event, mission);
            assert(state.spyder.events@.dom() =~= old(state).spyder.events@.dom());
        },
        None => {},
    }
}

/// The missions of the later state are those of the earlier, but for the
/// targets of the current event.
pub open spec fn missions_kept(before: GameState, after: GameState) -> bool {
    &&& after.spyder.results == before.spyder.results
    &&& after.spyder.events@.dom() == before.spyder.events@.dom()
    &&& after.spyder.events@[before.event].start_line == before.spyder.events@[before.event].start_line
    &&& after.spyder.events@[before.event].time_limit == before.spyder.events@[before.event].time_limit
    &&& forall|other: usize|
        other != before.event && before.spyder.events@.contains_key(other) ==> after.spyder.events@[other]
            == before.spyder.events@[other]
    &&& after == (GameState { spyder: after.spyder, ..before })
}

/// The targets with sprite slots of their own, the first at `base`.
pub open spec fn spec_targets_shown(targets: Seq<Target>, base: nat) -> Seq<Target> {
    Seq::new(targets.len(), |i: int| Target { sprite_id: (base + i) as usize, ..targets[i] })
}

/// The sprites that show the targets.
pub open spec fn spec_target_sprites(targets: Seq<Target>) -> Seq<Sprite> {
    Seq::new(targets.len(), |i: int| spec_target_sprite(targets[i].transform))
}

/// Puts the targets of a level in place: the mission of the current event
/// gets the targets that the placement records place, and no others, each
/// with a sprite of its own.
pub fn place_targets(data_entities: &Vec<PlacementRecord>, state: &mut GameState, render: &mut RenderState)
    requires
        old(state).spyder.events@.contains_key(old(state).event),
    ensures
        missions_kept(*old(state), *final(state)),
        targets_of(*final(state)) == spec_targets_shown(
            spec_placed_targets(data_entities@, data_entities@.len()),
            old(render).sprites@.len(),
        ),
        final(render).tile_maps@ == old(render).tile_maps@,
        final(render).sprites@ == old(render).sprites@ + spec_target_sprites(
            spec_placed_targets(data_entities@, data_entities@.len()),
        ),
{
    broadcast use group_hash_axioms;

    match state.spyder.events.remove(&state.event) {
        Some(mission) => {
            let mut mission = mission;
            mission.targets = Vec::new();
            state.spyder.events.insert(state.event, mission);
        },
        None => {},
    }
    assert(targets_of(*state) =~= Seq::<Target>::empty());
    assert(state.spyder.events@.dom() =~= old(state).spyder.events@.dom());
    data_entity_handler(data_entities, state);
    let ghost placed = spec_placed_targets(data_entities@, data_entities@.len());
    assert(targets_of(*state) =~= placed);
    match state.spyder.events.remove(&state.event) {
        Some(mission) => {
            let mut mission = mission;
            let mut i: usize = 0;
            while i < mission.targets.len()
                invariant
                    i <= mission.targets@.len(),
                    mission.targets@.len() == placed.len(),
                    mission.start_line == old(state).spyder.events@[old(state).event].start_line,
                    mission.time_limit == old(state).spyder.events@[old(state).event].time_limit,
                    forall|j: int|
                        0 <= j < i ==> mission.targets@[j] == spec_targets_shown(
                            placed,
                            old(render).sprites@.len(),
                        )[j],
                    forall|j: int| i <= j < placed.len() ==> mission.targets@[j] == placed[j],
                    render.tile_maps@ == old(render).tile_maps@,
                    render.sprites@ == old(render).sprites@ + spec_target_sprites(placed).subrange(
                        0,
                        i as int,
                    ),
                decreases mission.targets@.len() - i,
            {
                let mut target = mission.targets[i];
                target.init(render);
                mission.targets.set(i, target);
                i = i + 1;
                assert(render.sprites@ =~= old(render).sprites@ + spec_target_sprites(placed).subrange(
                    0,
                    i as int,
                ));
            }
            assert(mission.targets@ =~= spec_targets_shown(placed, old(render).sprites@.len()));
            assert(spec_target_sprites(placed).subrange(0, i as int) =~= spec_target_sprites(placed));
            state.spyder.events.insert(state.event, mission);
            assert(state.spyder.events@.dom() =~= old(state).spyder.events@.dom());
        },
        None => {},
    }
}

/// The time that a mission starts with, as far as the clock can count.
pub open spec fn spec_mission_time(time_limit: u32) -> i32 {
    if time_limit > i32::MAX {
        i32::MAX
    } else {
        time_limit as i32
    }
}

/// The later state is the earlier made ready for a level: the clocks are
/// set, nothing is accomplished yet, the actor stands at the start of the
/// race with a sprite of its own, the targets are in place, and the tiles of
/// the level, and no others, are collidable.
pub open spec fn level_ready(
    before: GameState,
    after: GameState,
    records: Seq<PlacementRecord>,
    sprites_before: Seq<Sprite>,
) -> bool {
    let start = before.buglympics.events@[before.event].start_line;
    let placed = spec_placed_targets(records, records.len());
    &&& after.scene_frames == 0
    &&& after.bl_timer == 0
    &&& after.spy_timer == spec_mission_time(before.spyder.events@[before.event].time_limit)
    &&& !after.bl_finished
    &&& !after.spy_finished
    &&& after.hit_count == 0
    &&& !after.last_event_success
    &&& after.player@ == Actor::spawned(1, start[0] as int, start[1] as int).shown_by(
        sprites_before.len() as usize,
    )
    &&& after.player.launcher@ == spec_new_launcher()
    &&& targets_of(after) == spec_targets_shown(placed, sprites_before.len() + 1)
    &&& after.world.gravity == before.world.gravity
    &&& after.world.collision_set.spec_tile_set_id() == before.world.collision_set.spec_tile_set_id()
    &&& after.world.collision_set@ == spec_tile_attrs(Map::empty(), before.game, true)
    &&& missions_kept(
        GameState {
            scene_frames: after.scene_frames,
            bl_timer: after.bl_timer,
            spy_timer: after.spy_timer,
            bl_finished: after.bl_finished,
            spy_finished: after.spy_finished,
            hit_count: after.hit_count,
            last_event_success: after.last_event_success,
            player: after.player,
            world: after.world,
            ..before
        },
        after,
    )
}

/// The sprites of a level that is ready, before the bindings of the active
/// ruleset are applied: the actor's and the targets' come behind those that
/// were there.
pub open spec fn spec_level_sprites(before: GameState, records: Seq<PlacementRecord>, sprites: Seq<Sprite>) -> Seq<
    Sprite,
> {
    let start = before.buglympics.events@[before.event].start_line;
    sprites.push(Actor::spawned(1, start[0] as int, start[1] as int).sprite())
        + spec_target_sprites(spec_placed_targets(records, records.len()))
}

/// Makes the state ready for the level of the current event.
pub fn init(state: &mut GameState, data_entities: &Vec<PlacementRecord>, render: &mut RenderState)
    requires
        old(state).wf(),
        event_ready(*old(state)),
    ensures
        final(state).wf(),
        event_ready(*final(state)),
        level_ready(*old(state), *final(state), data_entities@, old(render).sprites@),
        final(render).tile_maps@ == old(state).bindings(old(state).game).unwrap().bind_tile_maps(
            old(render).tile_maps@,
        ),
        final(render).sprites@ == old(state).bindings(old(state).game).unwrap().bind_sprites(
            spec_level_sprites(*old(state), data_entities@, old(render).sprites@),
        ),
{
    broadcast use group_hash_axioms;

    state.scene_frames = 0;
    state.bl_timer = 0;
    let time_limit: u32 = match state.spyder.events.get(&state.event) {
        Some(mission) => mission.time_limit,
        None => 0,
    };
    state.spy_timer = if time_limit > 0x7fff_ffff {
        0x7fff_ffff
    } else {
        time_limit as i32
    };
    state.bl_finished = false;
    state.spy_finished = false;
    let start_line: [u16; 2] = match state.buglympics.events.get(&state.event) {
        Some(race) => race.start_line,
        None => [0, 0],
    };
    state.player = Player::new(1, start_line);
    state.player.init(render);
    place_targets(data_entities, state, render);
    state.hit_count = 0;
    state.world.collision_set = AttrSet::new(state.world.collision_set.tile_set_id());
    set_tile_attrs(state, true);
    state.check_game(render);
    state.last_event_success = false;
}

} // verus!
