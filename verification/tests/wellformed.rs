use buglympics::attr::AttrSet;
use buglympics::scenes::biathlon::{
    end_frame, mark_both_complete, place_targets, run_clocks, run_mission_clock, run_player,
    run_race_clock, set_tile_attrs, survey_targets, PlacementParam, PlacementRecord,
};
use buglympics::body::Transform;
use buglympics::grid::TileGrid;
use buglympics::input::{InputCode, Inputs};
use buglympics::launcher::{Launcher, Projectile, Target};
use buglympics::overlay::SceneMap;
use buglympics::player::{Player, PlayerState};
use buglympics::probe::{Direction, Ray};
use buglympics::render::{RenderState, Sprite, TileMapSlot};
use buglympics::sounds::Cue;
use buglympics::state::{init_game_state, GameState, CROSS_COUNTRY};
use buglympics::surface::category;
use buglympics::world::{GameMode, WorldState};

fn level_state(game: GameMode) -> GameState {
    let mut state = init_game_state();
    state.event = CROSS_COUNTRY;
    state.current_scene = CROSS_COUNTRY;
    state.game = game;
    state
}

fn floor() -> TileGrid {
    let mut data = vec![0u16; 400];
    for cell in 240..400 {
        data[cell] = 2;
    }
    TileGrid::new(20, 20, 16, 16, data).unwrap()
}

#[test]
fn fresh_values_are_well_formed() {
    assert!(Ray::new(1, 2, Direction::Left, 3, 4).well_formed());
    assert!(Transform::new(0, i64::MAX, 0).well_formed());
    assert!(Projectile::default().well_formed());
    assert!(Launcher::default().well_formed());
    assert!(Player::new(1, [65_535, 65_535]).well_formed());
    assert!(WorldState::new().well_formed());
    assert!(init_game_state().well_formed());
}

#[test]
fn values_out_of_range_are_not_well_formed() {
    let ray = Ray { origin_x: 4_000_000_000_001, origin_y: 0, direction: Direction::Up, distance: 1, steps: 1 };
    assert!(!ray.well_formed());
    let ray = Ray { origin_x: 0, origin_y: 0, direction: Direction::Up, distance: -1, steps: 1 };
    assert!(!ray.well_formed());
    let mut transform = Transform::new(0, 0, 0);
    transform.scene_y = -4_000_000_000_001;
    assert!(!transform.well_formed());
    let mut projectile = Projectile::default();
    projectile.distance_traveled = 300_001;
    assert!(!projectile.well_formed());
    projectile.expired = true;
    assert!(projectile.well_formed());
    projectile.speed = -1;
    assert!(!projectile.well_formed());
    let mut launcher = Launcher::default();
    launcher.projectiles.push(Projectile::default());
    assert!(launcher.well_formed());
    launcher.projectiles.push(projectile);
    assert!(!launcher.well_formed());
    let mut launcher = Launcher::default();
    launcher.projectile_speed = 1_000_001;
    assert!(!launcher.well_formed());
    let mut player = Player::new(1, [0, 0]);
    player.slope_accel = 900;
    assert!(!player.well_formed());
    let mut player = Player::new(1, [0, 0]);
    player.vel_x = 1_000_001;
    assert!(!player.well_formed());
    let mut player = Player::new(1, [0, 0]);
    player.accel_rate = 10_001;
    assert!(!player.well_formed());
    let mut player = Player::new(1, [0, 0]);
    player.slope = 33;
    assert!(!player.well_formed());
    let mut world = WorldState::new();
    world.gravity = -1;
    assert!(!world.well_formed());
    let mut state = init_game_state();
    state.menu.options.clear();
    assert!(!state.well_formed());
}

#[test]
fn defaults_are_those_of_the_game() {
    let target = Target::default();
    assert_eq!(target, Target::new(0, 0));
    assert!(!target.hit);
    let projectile = Projectile::default();
    assert_eq!((projectile.speed, projectile.max_distance), (8_000, 300_000));
    assert_eq!(projectile.direction, Direction::Right);
    let fast = Projectile::new(0, 0, Direction::Up, i64::MAX, 3);
    assert_eq!(fast.speed, 1_000_000);
    let backward = Projectile::new(0, 0, Direction::Up, -7, 3);
    assert_eq!(backward.speed, 0);
    let launcher = Launcher::default();
    assert_eq!((launcher.cooldown, launcher.max_projectiles, launcher.ammo), (0, 3, 255));
    assert_eq!((launcher.projectile_tile, launcher.projectile_speed), (0, 8_000));
    let scene = SceneMap::default();
    assert_eq!(scene.scene, 5);
    assert!(!scene.both_complete);
    assert_eq!(scene.bl_tm_pal.len(), 2);
    assert_eq!(scene.spy_tm_ts.get(&0), Some(&3));
    for angle in -4..=4i8 {
        assert_eq!(category(angle), angle.unsigned_abs());
    }
}

#[test]
fn scene_bindings_apply_to_the_render_state() {
    let scene = SceneMap::default();
    let mut render = RenderState::new();
    render.add_tile_map(TileMapSlot { tile_set_id: 7, palette_id: 7 });
    render.add_tile_map(TileMapSlot { tile_set_id: 7, palette_id: 7 });
    render.add_sprite(Sprite {
        tile_set_id: 7,
        palette_id: 7,
        frame: 1,
        width: 2,
        height: 3,
        scene_x: 4,
        scene_y: 5,
        reverse_x: true,
        hide: true,
    });
    scene.apply(GameMode::Buglympics, &mut render);
    assert_eq!(render.tile_maps[0], TileMapSlot { tile_set_id: 0, palette_id: 0 });
    assert_eq!(render.tile_maps[1], TileMapSlot { tile_set_id: 7, palette_id: 1 });
    assert_eq!((render.sprites[0].tile_set_id, render.sprites[0].palette_id), (2, 2));
    assert_eq!((render.sprites[0].frame, render.sprites[0].scene_x, render.sprites[0].hide), (1, 4, true));
    scene.apply(GameMode::Spyder, &mut render);
    assert_eq!(render.tile_maps[0], TileMapSlot { tile_set_id: 3, palette_id: 3 });
    assert_eq!(render.tile_maps[1], TileMapSlot { tile_set_id: 7, palette_id: 1 });
    assert_eq!((render.sprites[0].tile_set_id, render.sprites[0].palette_id), (4, 4));
}

#[test]
fn race_clock_stops_at_the_finish() {
    let mut state = level_state(GameMode::Buglympics);
    state.bl_timer = u32::MAX - 1;
    run_race_clock(&mut state);
    run_race_clock(&mut state);
    assert_eq!(state.bl_timer, u32::MAX);
    state.bl_timer = 100;
    state.player.finished = true;
    run_race_clock(&mut state);
    assert_eq!(state.bl_timer, 101);
    assert!(state.bl_finished);
    assert_eq!(state.buglympics.medals[&CROSS_COUNTRY].record(0).unwrap().time, 101);
    run_race_clock(&mut state);
    assert_eq!(state.bl_timer, 101);
    assert_eq!(state.buglympics.medals[&CROSS_COUNTRY].record(1).unwrap().time, 360);
}

#[test]
fn mission_clock_counts_the_hits() {
    let mut state = level_state(GameMode::Spyder);
    let mut render = RenderState::new();
    let records: Vec<PlacementRecord> = (0..300)
        .map(|i| PlacementRecord {
            data_entity_type: "target".to_string(),
            data_components: vec![PlacementParam { param_name: "scene_x".to_string(), param_value: i * 1_000 }],
        })
        .collect();
    place_targets(&records, &mut state, &mut render);
    assert_eq!(render.sprites.len(), 300);
    assert_eq!(render.sprites[299].scene_x, 299);
    state.spy_timer = i32::MIN + 1;
    run_mission_clock(&mut state, &mut render);
    run_mission_clock(&mut state, &mut render);
    assert_eq!(state.spy_timer, i32::MIN);
    assert_eq!(state.hit_count, 0);
    for target in state.spyder.events.get_mut(&CROSS_COUNTRY).unwrap().targets.iter_mut() {
        target.hit = true;
        target.transform.scene_x += 500_000;
    }
    assert!(!state.spy_finished);
    run_mission_clock(&mut state, &mut render);
    assert_eq!(state.hit_count, 255);
    assert!(state.spy_finished);
    assert_eq!(render.sprites[0].scene_x, 500);
    assert_eq!(state.spyder.results[&CROSS_COUNTRY].time_remaining, i32::MIN);
    let all = survey_targets(&state.spyder.events[&CROSS_COUNTRY].targets, &mut render);
    assert!(all);
    assert!(survey_targets(&Vec::new(), &mut render));
}

#[test]
fn clocks_tell_when_the_scene_ends() {
    let mut state = level_state(GameMode::Spyder);
    let mut render = RenderState::new();
    state.spy_timer = 5;
    let (ends, clock) = run_clocks(&mut state, &mut render);
    assert!(!ends);
    assert!(state.spy_finished, "a mission without targets is accomplished at once");
    assert!(!state.bl_finished);
    assert_eq!(state.spyder.results[&CROSS_COUNTRY].time_remaining, 4);
    assert_eq!(clock.hundredths, 6);
    let mut state = level_state(GameMode::Spyder);
    state.spyder.events.get_mut(&CROSS_COUNTRY).unwrap().targets.push(Target::new(0, 0));
    state.bl_finished = true;
    let (ends, _) = run_clocks(&mut state, &mut render);
    assert!(!ends);
    state.spyder.events.get_mut(&CROSS_COUNTRY).unwrap().targets[0].hit = true;
    let (ends, _) = run_clocks(&mut state, &mut render);
    assert!(ends);
    assert!(state.last_event_success);
    assert!(state.events[&CROSS_COUNTRY].both_complete);
}

#[test]
fn completion_mark_is_for_the_current_event() {
    let mut state = level_state(GameMode::Buglympics);
    mark_both_complete(&mut state);
    assert!(state.events[&CROSS_COUNTRY].both_complete);
    assert!(!state.events[&6].both_complete);
    assert_eq!(state.events.len(), 7);
    assert_eq!(state.events[&CROSS_COUNTRY].bl_tm_pal.len(), 2);
}

#[test]
fn player_of_the_level_strikes_the_targets_of_the_event() {
    let grid = floor();
    let mut state = level_state(GameMode::Spyder);
    set_tile_attrs(&mut state, true);
    let mut render = RenderState::new();
    state.player = Player::new(1, [20, 144]);
    state.player.init(&mut render);
    state.player.launcher.cooldown = 9;
    state.player.player_state = PlayerState::Standing;
    let mut target = Target::new(100_000, 140_000);
    target.init(&mut render);
    state.spyder.events.get_mut(&CROSS_COUNTRY).unwrap().targets.push(target);
    state.inputs.insert(InputCode::Fire);
    let mut frames = 0;
    while !state.spyder.events[&CROSS_COUNTRY].targets[0].hit {
        run_player(&mut state, &grid, &mut render);
        frames += 1;
        assert!(frames < 60);
    }
    assert_eq!(frames, 8);
    assert!(render.sprites[1].hide);
    assert_eq!(state.player.launcher.ammo, 254);
    assert_eq!(state.sfx_queue.len(), 1);
    assert!(state.player.launcher.projectiles[0].expired);
    assert_eq!(state.player.transform.scene_y, 144_000);
}

#[test]
fn frame_ends_with_the_swap_and_the_counters() {
    let grid = floor();
    let mut state = level_state(GameMode::Buglympics);
    let mut render = RenderState::new();
    render.add_tile_map(TileMapSlot { tile_set_id: 9, palette_id: 9 });
    state.swap_cooldown = 11;
    state.scene_frames = u32::MAX;
    state.inputs.insert(InputCode::Swap);
    assert!(!end_frame(&mut state, &grid, &mut render, false));
    assert_eq!(state.game, GameMode::Spyder);
    assert_eq!(state.swap_cooldown, 1);
    assert_eq!(state.scene_frames, u32::MAX);
    assert_eq!(state.current_scene, CROSS_COUNTRY);
    assert!(state.world.collision_set.contains(89));
    assert_eq!(render.tile_maps[0], TileMapSlot { tile_set_id: 3, palette_id: 3 });
    state.last_event_success = true;
    assert!(end_frame(&mut state, &grid, &mut render, true));
    assert!(state.last_event_success);
    assert_eq!(state.current_scene, 4);
    state.current_scene = CROSS_COUNTRY;
    state.player.transform.scene_y = 400_000;
    assert!(end_frame(&mut state, &grid, &mut render, false));
    assert!(!state.last_event_success);
    assert_eq!(state.current_scene, 4);
}

#[test]
fn phases_of_a_frame_can_be_taken_apart() {
    let grid = floor();
    let attrs = {
        let mut attrs = AttrSet::new(0);
        attrs.load_slope_tiles();
        attrs
    };
    let mut render = RenderState::new();
    let mut cues: Vec<Cue> = Vec::new();
    let mut player = Player::new(1, [20, 144]);
    player.init(&mut render);
    player.player_state = PlayerState::Standing;
    player.launcher.cooldown = 8;
    let mut keys = Inputs::new();
    keys.insert(InputCode::Fire);
    keys.insert(InputCode::Jump);
    player.fire_phase(&keys, GameMode::Spyder, &mut render, &mut cues);
    assert_eq!(player.launcher.projectiles.len(), 1);
    assert_eq!(player.launcher.cooldown, 0);
    assert_eq!(render.sprites.len(), 2);
    assert_eq!(cues.len(), 1);
    assert_eq!(player.vel_y, 0);
    player.move_phase(&keys, GameMode::Spyder, 500, &grid, &attrs, [0, 0], &mut cues);
    assert_eq!(player.vel_y, -10_000);
    assert_eq!(player.transform.scene_y, 134_000);
    assert!(!player.grounded);
    assert_eq!(cues.len(), 2);
    assert_eq!(player.launcher.projectiles.len(), 1);
}
