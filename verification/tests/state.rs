use buglympics::attr::TileAttr;
use buglympics::scenes::biathlon::set_tile_attrs;
use buglympics::grid::TileGrid;
use buglympics::overlay::{table_of, SceneMap};
use buglympics::probe::{Direction, Ray};
use buglympics::render::{RenderState, Sprite, TileMapSlot};
use buglympics::state::{init_game_state, GameState, SceneKind, CRAGGY, CROSS_COUNTRY, DOWNHILL};
use buglympics::world::GameMode;

fn sprite(tile_set_id: usize, palette_id: usize) -> Sprite {
    Sprite { tile_set_id, palette_id, frame: 7, width: 8, height: 9, scene_x: 11, scene_y: 12, reverse_x: true, hide: false }
}

fn level_state() -> GameState {
    let mut state = init_game_state();
    state.event = CROSS_COUNTRY;
    state.current_scene = CROSS_COUNTRY;
    state
}

fn render_with(tile_maps: usize, sprites: usize) -> RenderState {
    let mut render = RenderState::new();
    for _ in 0..tile_maps {
        render.add_tile_map(TileMapSlot { tile_set_id: 0, palette_id: 0 });
    }
    for _ in 0..sprites {
        render.add_sprite(sprite(0, 0));
    }
    render
}

#[test]
fn mode_switch_rebinds_slot_and_makes_hazard_solid() {
    let mut state = level_state();
    let mut scene = SceneMap::default();
    scene.bl_tm_ts = table_of(&vec![(0, 0)]);
    scene.spy_tm_ts = table_of(&vec![(0, 1)]);
    state.events.insert(CROSS_COUNTRY, scene);
    state.swap_cooldown = 11;
    let mut data = vec![0u16; 100];
    data[55] = 89;
    let grid = TileGrid::new(10, 10, 16, 16, data).unwrap();
    let mut render = render_with(2, 1);
    set_tile_attrs(&mut state, true);
    state.check_game(&mut render);
    assert_eq!(state.game, GameMode::Buglympics);
    assert_eq!(render.tile_maps[0].tile_set_id, 0);
    let probe = Ray::new(88_000, 76_000, Direction::Down, 8_000, 8);
    assert!(probe.cast(&grid, &state.world.collision_set).is_empty());
    state.swap_game(&mut render);
    set_tile_attrs(&mut state, false);
    assert_eq!(state.game, GameMode::Spyder);
    assert_eq!(state.swap_cooldown, 0);
    assert_eq!(render.tile_maps[0].tile_set_id, 1);
    assert_eq!(state.world.collision_set.get(89), Some(TileAttr::Angle(0)));
    let hit = probe.nearest_map_collision(&grid, &state.world.collision_set).unwrap();
    assert_eq!((hit.tile_id, hit.map_loc_id, hit.point_y), (89, 55, 80_000));
    state.swap_cooldown = 11;
    state.swap_game(&mut render);
    set_tile_attrs(&mut state, false);
    assert_eq!(state.game, GameMode::Buglympics);
    assert_eq!(render.tile_maps[0].tile_set_id, 0);
    assert!(probe.cast(&grid, &state.world.collision_set).is_empty());
    assert_eq!(state.world.collision_set.len(), 21);
}

#[test]
fn swap_waits_for_the_cooldown() {
    let mut state = level_state();
    let mut render = render_with(2, 1);
    for cooldown in [0u32, 5, 10] {
        state.swap_cooldown = cooldown;
        state.swap_game(&mut render);
        assert_eq!(state.game, GameMode::Buglympics);
        assert_eq!(state.swap_cooldown, cooldown);
        assert_eq!(render.tile_maps[0], TileMapSlot { tile_set_id: 0, palette_id: 0 });
    }
    state.swap_cooldown = 11;
    state.swap_game(&mut render);
    assert_eq!(state.game, GameMode::Spyder);
    assert_eq!(state.swap_cooldown, 0);
}

#[test]
fn bindings_change_bound_slots_only() {
    let mut state = level_state();
    let mut render = render_with(3, 2);
    render.tile_maps[2] = TileMapSlot { tile_set_id: 9, palette_id: 8 };
    state.set_spyder(&mut render);
    assert_eq!(state.game, GameMode::Spyder);
    assert_eq!(render.tile_maps[0], TileMapSlot { tile_set_id: 3, palette_id: 3 });
    assert_eq!(render.tile_maps[1], TileMapSlot { tile_set_id: 0, palette_id: 0 });
    assert_eq!(render.tile_maps[2], TileMapSlot { tile_set_id: 9, palette_id: 8 });
    assert_eq!(render.sprites[0], sprite(4, 4));
    assert_eq!(render.sprites[1], sprite(0, 0));
    state.set_buglympics(&mut render);
    assert_eq!(state.game, GameMode::Buglympics);
    assert_eq!(render.tile_maps[0], TileMapSlot { tile_set_id: 0, palette_id: 0 });
    assert_eq!(render.tile_maps[1], TileMapSlot { tile_set_id: 0, palette_id: 1 });
    assert_eq!(render.tile_maps[2], TileMapSlot { tile_set_id: 9, palette_id: 8 });
    assert_eq!(render.sprites[0], sprite(2, 2));
}

#[test]
fn bindings_for_missing_slots_are_passed_over() {
    let mut state = level_state();
    let mut render = RenderState::new();
    state.set_spyder(&mut render);
    assert_eq!(state.game, GameMode::Spyder);
    assert!(render.tile_maps.is_empty());
    assert!(render.sprites.is_empty());
}

#[test]
fn event_without_bindings_keeps_the_ruleset() {
    let mut state = init_game_state();
    state.event = 1;
    state.swap_cooldown = 11;
    let mut render = render_with(2, 1);
    state.set_spyder(&mut render);
    assert_eq!(state.game, GameMode::Buglympics);
    state.swap_game(&mut render);
    assert_eq!(state.game, GameMode::Buglympics);
    assert_eq!(state.swap_cooldown, 0);
    assert_eq!(render.tile_maps[0], TileMapSlot { tile_set_id: 0, palette_id: 0 });
}

#[test]
fn later_binding_for_a_slot_counts() {
    let table = table_of(&vec![(0, 1), (3, 4), (0, 2)]);
    assert_eq!(table.len(), 2);
    assert_eq!(table.get(&0), Some(&2));
    assert_eq!(table.get(&3), Some(&4));
}

#[test]
fn game_starts_on_the_title_screen_in_the_race() {
    let state = init_game_state();
    assert_eq!(state.game, GameMode::Buglympics);
    assert_eq!((state.current_scene, state.event, state.current_shot), (0, 0, 0));
    assert_eq!((state.scene_frames, state.swap_cooldown, state.input_cooldown), (0, 0, 0));
    assert_eq!((state.bl_timer, state.spy_timer, state.hit_count), (0, 7200, 0));
    assert!(!state.bl_finished && !state.spy_finished && !state.last_event_success);
    let mut scenes: Vec<usize> = state.events.keys().copied().collect();
    scenes.sort();
    assert_eq!(scenes, vec![0, 2, 3, 4, 5, 6, 7]);
    for (scene, map) in state.events.iter() {
        assert_eq!(map.scene, *scene);
        assert!(!map.both_complete);
    }
    let title = &state.events[&0];
    assert_eq!(title.bl_tm_pal.get(&1), Some(&2));
    assert_eq!(title.spy_tm_ts.get(&0), Some(&1));
    assert!(title.bl_sp_ts.is_empty() && title.spy_sp_pal.is_empty());
    let select = &state.events[&3];
    assert_eq!(select.bl_tm_pal.len(), 5);
    assert_eq!(select.spy_tm_pal.get(&4), Some(&1));
    assert_eq!(select.bl_sp_pal.get(&0), Some(&2));
    let ceremony = &state.events[&4];
    assert_eq!(ceremony.bl_tm_pal.len(), 1);
    assert!(ceremony.spy_sp_ts.is_empty());
    let level = &state.events[&6];
    assert_eq!(level.bl_tm_pal.get(&1), Some(&1));
    assert_eq!(level.spy_sp_ts.get(&0), Some(&4));
    assert_eq!(state.world.gravity, 500);
    assert_eq!(state.world.collision_set.len(), 0);
    assert_eq!(state.buglympics.nation, "");
    assert_eq!(state.menu.options, vec!["PRESS ENTER".to_string()]);
    assert_eq!(state.menu.option_positions, vec![[112, 176]]);
    assert_eq!(state.menu.input_threshold, 30);
    assert!(state.sfx_queue.is_empty());
    assert_eq!(state.player.entity_id, 1);
    assert_eq!((state.player.transform.scene_x, state.player.transform.scene_y), (0, 0));
}

#[test]
fn every_event_starts_with_a_race_a_leaderboard_and_a_mission() {
    let state = init_game_state();
    let expected = [
        (CROSS_COUNTRY, "CROSS-COUNTRY BIATHLON", [3024u16, 416], [360u32, 600, 960]),
        (DOWNHILL, "DOWNHILL BIATHLON", [1440, 3200], [600, 840, 1440]),
        (CRAGGY, "CRAGGY BIATHLON", [2256, 384], [720, 960, 1500]),
    ];
    assert_eq!(state.buglympics.events.len(), 3);
    assert_eq!(state.buglympics.medals.len(), 3);
    assert_eq!(state.spyder.events.len(), 3);
    assert!(state.spyder.results.is_empty());
    for (event, name, finish_line, times) in expected {
        let race = &state.buglympics.events[&event];
        assert_eq!(race.start_line, [100, 100]);
        assert_eq!(race.finish_line, finish_line);
        let standing = &state.buglympics.medals[&event];
        assert_eq!(standing.event(), name);
        assert_eq!(standing.len(), 3);
        for place in 0..3 {
            let record = standing.record(place).unwrap();
            assert_eq!(record.time, times[place]);
            assert_eq!(record.nation, "Beehama");
            assert_eq!(record.event, "biathlon");
        }
        let mission = &state.spyder.events[&event];
        assert_eq!(mission.start_line, [100, 100]);
        assert_eq!(mission.time_limit, 1800);
        assert!(mission.targets.is_empty());
    }
}

#[test]
fn scene_numbers_from_five_on_are_levels() {
    assert_eq!(SceneKind::of(0), SceneKind::TitleScreen);
    assert_eq!(SceneKind::of(1), SceneKind::AttractMode);
    assert_eq!(SceneKind::of(2), SceneKind::NationSelect);
    assert_eq!(SceneKind::of(3), SceneKind::EventSelect);
    assert_eq!(SceneKind::of(4), SceneKind::MedalCeremony);
    assert_eq!(SceneKind::of(5), SceneKind::Biathlon);
    assert_eq!(SceneKind::of(7), SceneKind::Biathlon);
    assert_eq!(SceneKind::of(8), SceneKind::Victory);
    assert_eq!(SceneKind::of(9), SceneKind::Biathlon);
}

#[test]
fn tile_attributes_follow_the_ruleset() {
    let mut state = level_state();
    state.world.collision_set.insert(200, TileAttr::Angle(3));
    state.game = GameMode::Spyder;
    set_tile_attrs(&mut state, false);
    assert_eq!(state.world.collision_set.len(), 2);
    assert!(state.world.collision_set.contains(89));
    set_tile_attrs(&mut state, true);
    assert_eq!(state.world.collision_set.len(), 23);
    assert_eq!(state.world.collision_set.get(68), Some(TileAttr::Angle(1)));
    assert_eq!(state.world.collision_set.get(200), Some(TileAttr::Angle(3)));
    state.game = GameMode::Buglympics;
    set_tile_attrs(&mut state, false);
    assert_eq!(state.world.collision_set.len(), 22);
    assert!(!state.world.collision_set.contains(89));
}

#[test]
fn finish_is_entered_for_the_players_nation() {
    let mut state = init_game_state();
    state.buglympics.nation = "ANTARTICA".to_string();
    state.buglympics.record_finish(DOWNHILL, 700);
    let standing = &state.buglympics.medals[&DOWNHILL];
    let times: Vec<u32> = (0..3).map(|place| standing.record(place).unwrap().time).collect();
    assert_eq!(times, vec![600, 700, 840]);
    let record = standing.record(1).unwrap();
    assert_eq!(record.nation, "ANTARTICA");
    assert_eq!(record.event, "DOWNHILL BIATHLON");
    assert_eq!(state.buglympics.medals[&CRAGGY].record(0).unwrap().time, 720);
}
