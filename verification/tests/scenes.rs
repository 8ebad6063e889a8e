use buglympics::input::InputCode;
use buglympics::render::{RenderState, Sprite, TileMapSlot};
use buglympics::scenes::{
    attract_mode, event_select, game_won, main_menu, medal_cere, nation_select, scene_to_load,
    selection_menu, title_screen, victory, CutsceneReport, SceneExit,
};
use buglympics::state::{init_game_state, GameState, CRAGGY, CROSS_COUNTRY, DOWNHILL};
use buglympics::world::GameMode;

fn render_with_slots() -> RenderState {
    let mut render = RenderState::new();
    render.add_tile_map(TileMapSlot { tile_set_id: 0, palette_id: 0 });
    render.add_tile_map(TileMapSlot { tile_set_id: 0, palette_id: 0 });
    render
}

fn nation_scene() -> (GameState, RenderState) {
    let mut state = init_game_state();
    state.current_scene = 2;
    state.event = 2;
    let mut render = render_with_slots();
    nation_select::init(&mut state, 5, &mut render);
    (state, render)
}

fn event_scene() -> (GameState, RenderState) {
    let mut state = init_game_state();
    state.current_scene = 3;
    state.event = 3;
    let mut render = render_with_slots();
    event_select::init(&mut state, 5, &mut render);
    (state, render)
}

#[test]
fn title_screen_waits_for_confirmation() {
    let mut state = init_game_state();
    let mut render = render_with_slots();
    assert_eq!(title_screen::update(&mut state, &mut render), None);
    assert_eq!(state.swap_cooldown, 1);
    assert!(!state.menu.confirmed);
    state.inputs.insert(InputCode::Confirm);
    let exit = title_screen::update(&mut state, &mut render);
    assert_eq!(exit, Some(SceneExit { scene: 0, success: true, next_scene: 1 }));
    assert_eq!(state.current_scene, 1);
    assert!(state.menu.confirmed);
    assert_eq!(state.swap_cooldown, 2);
}

#[test]
fn title_screen_swaps_the_ruleset_after_the_cooldown() {
    let mut state = init_game_state();
    let mut render = render_with_slots();
    state.inputs.insert(InputCode::Swap);
    for _ in 0..11 {
        title_screen::update(&mut state, &mut render);
        assert_eq!(state.game, GameMode::Buglympics);
    }
    title_screen::update(&mut state, &mut render);
    assert_eq!(state.game, GameMode::Spyder);
    assert_eq!(state.swap_cooldown, 1);
    assert_eq!(render.tile_maps[0], TileMapSlot { tile_set_id: 1, palette_id: 1 });
    assert_eq!(render.tile_maps[1], TileMapSlot { tile_set_id: 0, palette_id: 1 });
}

#[test]
fn main_menu_has_one_option() {
    let menu = main_menu();
    assert!(menu.well_formed());
    assert_eq!(menu.options, vec!["PRESS ENTER".to_string()]);
    assert_eq!(menu.option_positions, vec![[112, 176]]);
    assert_eq!(menu.cursor_offset, [-16, 0]);
    assert_eq!((menu.cursor_tile_set_id, menu.cursor_tile_id, menu.input_threshold), (1, 10, 30));
}

#[test]
fn attract_mode_goes_through_its_shots() {
    let mut state = init_game_state();
    state.current_scene = 1;
    state.current_shot = 2;
    let mut render = render_with_slots();
    attract_mode::init(&mut state);
    assert_eq!((state.current_shot, state.input_cooldown), (0, 15));
    state.inputs.insert(InputCode::Confirm);
    let mut shown = Vec::new();
    let mut exit = None;
    let mut frames = 0;
    while exit.is_none() {
        let report = attract_mode::update(&mut state, 3, &mut render);
        frames += 1;
        if let Some(shot) = report.show_shot {
            shown.push((frames, shot));
        }
        exit = report.exit;
    }
    assert_eq!(shown, vec![(16, 1), (31, 2)]);
    assert_eq!(frames, 46);
    assert_eq!(exit, Some(SceneExit { scene: 1, success: true, next_scene: 2 }));
    assert_eq!(state.current_scene, 2);
    assert_eq!(state.swap_cooldown, 46);
}

#[test]
fn attract_mode_shows_the_shot_anew_after_a_swap() {
    let mut state = init_game_state();
    state.event = 0;
    state.current_scene = 1;
    state.current_shot = 1;
    state.swap_cooldown = 20;
    state.input_cooldown = 1;
    state.inputs.insert(InputCode::Swap);
    let mut render = render_with_slots();
    assert_eq!(attract_mode::update(&mut state, 3, &mut render), CutsceneReport { exit: None, show_shot: None });
    assert_eq!(state.game, GameMode::Buglympics);
    assert_eq!(attract_mode::update(&mut state, 3, &mut render), CutsceneReport { exit: None, show_shot: Some(1) });
    assert_eq!(state.game, GameMode::Spyder);
    assert_eq!(state.swap_cooldown, 1);
    assert_eq!(attract_mode::update(&mut state, 3, &mut render), CutsceneReport { exit: None, show_shot: Some(1) });
    assert_eq!(state.game, GameMode::Spyder);
    state.input_cooldown = 0;
    state.inputs.insert(InputCode::Confirm);
    assert_eq!(attract_mode::update(&mut state, 3, &mut render), CutsceneReport { exit: None, show_shot: Some(2) });
    assert_eq!(state.input_cooldown, 14);
}

#[test]
fn victory_scene_never_ends() {
    let mut state = init_game_state();
    state.current_scene = 8;
    state.event = 0;
    state.swap_cooldown = 11;
    let mut render = render_with_slots();
    victory::init(&mut state);
    state.inputs.insert(InputCode::Swap);
    state.inputs.insert(InputCode::Confirm);
    for frame in 0..15 {
        let report = victory::update(&mut state, &mut render);
        assert_eq!(report, CutsceneReport { exit: None, show_shot: None });
        assert_eq!(state.input_cooldown, 14 - frame);
    }
    let report = victory::update(&mut state, &mut render);
    assert_eq!(report, CutsceneReport { exit: None, show_shot: Some(0) });
    assert_eq!(state.game, GameMode::Spyder);
    assert_eq!(state.current_scene, 8);
}

#[test]
fn nation_is_selected_after_the_wait() {
    let (mut state, mut render) = nation_scene();
    assert_eq!(state.input_cooldown, 15);
    assert_eq!(state.menu.input_threshold, 3);
    assert_eq!(state.menu.cursor_sprite_id, 0);
    assert_eq!((render.sprites[0].scene_x, render.sprites[0].scene_y), (4, 64));
    state.inputs.insert(InputCode::Down);
    for _ in 0..4 {
        assert_eq!(nation_select::update(&mut state, &mut render), (None, false));
    }
    assert_eq!(state.menu.current_selection, 1);
    assert_eq!((render.sprites[0].scene_x, render.sprites[0].scene_y), (4, 128));
    state.inputs = buglympics::input::Inputs::new();
    state.inputs.insert(InputCode::Confirm);
    for _ in 0..11 {
        assert_eq!(nation_select::update(&mut state, &mut render), (None, false));
        assert!(!state.menu.confirmed);
    }
    assert_eq!(state.input_cooldown, 0);
    assert_eq!(state.buglympics.nation, "");
    let (exit, retext) = nation_select::update(&mut state, &mut render);
    assert_eq!(exit, Some(SceneExit { scene: 2, success: true, next_scene: 3 }));
    assert!(!retext);
    assert_eq!(state.buglympics.nation, "EAST ARACHNYLVANIA");
    assert_eq!(state.current_scene, 3);
    assert_eq!(state.sfx_queue.len(), 13);
}

#[test]
fn selection_scene_swaps_after_its_own_cooldown() {
    let (mut state, mut render) = nation_scene();
    state.inputs.insert(InputCode::Swap);
    let mut retexts = Vec::new();
    let mut games = Vec::new();
    for _ in 0..12 {
        let (_, retext) = nation_select::update(&mut state, &mut render);
        retexts.push(retext);
        games.push(state.game);
    }
    assert_eq!(retexts.iter().position(|r| *r), Some(9));
    assert_eq!(games.iter().position(|g| *g == GameMode::Spyder), Some(11));
    assert_eq!(render.tile_maps[0], TileMapSlot { tile_set_id: 1, palette_id: 1 });
    assert_eq!(render.sprites[0].palette_id, 2);
}

#[test]
fn event_is_selected_by_its_place_in_the_menu() {
    let (mut state, mut render) = event_scene();
    assert!(event_select::are_events_listed(&state));
    state.input_cooldown = 0;
    state.menu.current_selection = 2;
    state.inputs.insert(InputCode::Fire);
    let exit = event_select::update(&mut state, &mut render);
    assert_eq!(exit, Some(SceneExit { scene: 3, success: true, next_scene: 7 }));
    assert_eq!(state.event, CRAGGY);
    assert_eq!(state.current_scene, 7);
    assert!(state.menu.confirmed);
}

#[test]
fn events_must_be_listed_for_the_selection() {
    let (mut state, _) = event_scene();
    state.events.remove(&DOWNHILL);
    assert!(!event_select::are_events_listed(&state));
    state.menu.options.pop();
    state.menu.option_positions.pop();
    state.menu.options.pop();
    state.menu.option_positions.pop();
    assert!(event_select::are_events_listed(&state));
}

#[test]
fn game_is_won_when_every_level_is_completed() {
    let mut state = init_game_state();
    state.current_scene = 4;
    assert!(!game_won(&state));
    assert_eq!(scene_to_load(&mut state), 4);
    for event in [CROSS_COUNTRY, DOWNHILL] {
        state.events.get_mut(&event).unwrap().both_complete = true;
    }
    assert!(!game_won(&state));
    state.events.get_mut(&CRAGGY).unwrap().both_complete = true;
    assert!(game_won(&state));
    assert_eq!(scene_to_load(&mut state), 8);
    assert_eq!(state.current_scene, 8);
    state.events.remove(&CRAGGY);
    state.events.remove(&DOWNHILL);
    state.events.remove(&CROSS_COUNTRY);
    assert!(game_won(&state));
}

#[test]
fn medal_ceremony_shows_the_leaderboard_and_the_hits() {
    let mut state = init_game_state();
    state.event = DOWNHILL;
    state.current_scene = 4;
    state.last_event_success = true;
    assert!(medal_cere::is_ceremony_ready(&state));
    {
        let mission = state.spyder.events.get_mut(&DOWNHILL).unwrap();
        for i in 0..3 {
            let mut target = buglympics::launcher::Target::new(i * 1_000, 0);
            target.hit = i != 1;
            mission.targets.push(target);
        }
    }
    let board = medal_cere::init(&mut state);
    assert!(board.success);
    assert_eq!((board.gold, board.silver, board.bronze), (600, 840, 1440));
    assert_eq!((board.struck, board.targets), (2, 3));
    assert_eq!(state.event, 4);
    assert!(!medal_cere::is_ceremony_ready(&state));
}

#[test]
fn medal_ceremony_lasts_a_second_and_a_half() {
    let mut state = init_game_state();
    state.event = 4;
    state.current_scene = 4;
    let mut render = render_with_slots();
    let mut listing = selection_menu("MedalCeremony", "GOLD", "SILVER", "BRONZE", 16);
    listing.load(5, &mut render);
    state.inputs.insert(InputCode::Confirm);
    for shown in 0..=90 {
        assert_eq!(medal_cere::update(&mut state, &mut listing, shown, &mut render), None);
        assert!(!listing.confirmed);
        assert_eq!(state.current_scene, 4);
    }
    let exit = medal_cere::update(&mut state, &mut listing, 91, &mut render);
    assert_eq!(exit, Some(SceneExit { scene: 4, success: true, next_scene: 3 }));
    assert_eq!(state.current_scene, 3);
    assert_eq!(state.swap_cooldown, 92);
    assert_eq!(state.sfx_queue.len(), 92);
}

#[test]
fn title_screen_begins_with_the_main_menu() {
    let mut state = init_game_state();
    state.menu = selection_menu("x", "a", "b", "c", 0);
    let mut render = render_with_slots();
    title_screen::init(&mut state, 3, &mut render);
    assert_eq!(state.menu.options, vec!["PRESS ENTER".to_string()]);
    assert_eq!(state.menu.input_threshold, 3);
    assert_eq!(state.menu.cursor_sprite_id, 0);
    assert_eq!(
        render.sprites,
        vec![Sprite {
            tile_set_id: 1,
            palette_id: 3,
            frame: 10,
            width: 8,
            height: 8,
            scene_x: 96,
            scene_y: 176,
            reverse_x: false,
            hide: false
        }]
    );
}

#[test]
fn selection_scenes_begin_with_their_menus() {
    let (state, render) = nation_scene();
    assert_eq!(state.menu.name, "NationSelect");
    assert_eq!(state.menu.options, vec!["ANTARTICA", "EAST ARACHNYLVANIA", "REP. OF WORMSTRALIA"]);
    assert_eq!(state.menu.option_positions, vec![[16, 64], [16, 128], [16, 192]]);
    assert_eq!((render.sprites[0].frame, render.sprites[0].palette_id), (9, 5));
    let (state, render) = event_scene();
    assert_eq!(state.menu.name, "Event Select");
    assert_eq!(state.menu.options, vec!["CROSS-COUNTRY BIATHLON", "DOWNHILL BIATHLON", "CRAGGY BIATHLON"]);
    assert_eq!(state.menu.option_positions, vec![[48, 64], [48, 128], [48, 192]]);
    assert_eq!((render.sprites[0].scene_x, render.sprites[0].scene_y), (36, 64));
    assert_eq!(state.input_cooldown, 15);
}
