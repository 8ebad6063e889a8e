//! The scenes of the game, and what they share.
//!
//! Each scene decides from the state and the input of a frame what the state
//! becomes, whether the scene ends and which scene follows. Texts and pictures
//! are the caller's: a scene only says which shot of a cutscene is to be
//! shown.

pub mod attract_mode;
pub mod biathlon;
pub mod event_select;
pub mod medal_cere;
pub mod nation_select;
pub mod title_screen;
pub mod victory;

use vstd::prelude::*;
use vstd::std_specs::hash::*;
use crate::input::InputCode;
use crate::menu::{spec_confirms, Cursor, Menu, LOADED_THRESHOLD};
use crate::overlay::Bindings;
use crate::render::{RenderState, Sprite};
use crate::state::{next_count, spec_next_count, GameState, CROSS_COUNTRY, MEDAL_CEREMONY, VICTORY};

verus! {

/// How a scene ended.
#[derive(Clone, Copy, Debug, PartialEq, Eq, Structural)]
pub struct SceneExit {
    /// The scene that ended.
    pub scene: usize,
    /// The event was accomplished.
    pub success: bool,
    /// The scene to go to.
    pub next_scene: usize,
}

/// A swap of the ruleset is asked for and the cooldown has passed.
pub open spec fn swaps(state: GameState) -> bool {
    state.inputs@.contains(InputCode::Swap) && state.can_swap()
}

/// The bindings that a swap applies, if it applies any.
pub open spec fn swap_bindings(state: GameState) -> Option<Bindings> {
    if swaps(state) {
        state.bindings(state.game.other())
    } else {
        None
    }
}

/// For how many frames a scene that has just begun takes no input.
pub const INPUT_COOLDOWN: u32 = 15;

/// The cooldown that a swap must have passed in a selection scene.
pub const SELECT_SWAP_COOLDOWN: u32 = 8;

/// One frame less of waiting, down to none.
pub open spec fn spec_cool(cooldown: u32) -> u32 {
    if cooldown > 0 {
        (cooldown - 1) as u32
    } else {
        0
    }
}

/// Every level that has bindings was completed under both rulesets.
pub open spec fn spec_game_won(state: GameState) -> bool {
    forall|scene: usize|
        MEDAL_CEREMONY < scene < VICTORY && state.events@.contains_key(scene) ==> (
        #[trigger] state.events@[scene]).both_complete
}

/// Whether every level that has bindings was completed under both rulesets.
pub fn game_won(state: &GameState) -> (won: bool)
    ensures
        won == spec_game_won(*state),
{
    broadcast use group_hash_axioms;

    let mut scene: usize = CROSS_COUNTRY;
    while scene < VICTORY
        invariant
            CROSS_COUNTRY <= scene <= VICTORY,
            forall|k: usize|
                MEDAL_CEREMONY < k < scene && state.events@.contains_key(k) ==> (#[trigger] state.events@[k]).both_complete,
        decreases VICTORY - scene,
    {
        match state.events.get(&scene) {
            Some(mapping) => {
                if !mapping.both_complete {
                    return false;
                }
            },
            None => {},
        }
        scene = scene + 1;
    }
    true
}

/// Picks the scene to load when the current scene has ended: the victory
/// scene once the game is won, the current scene otherwise.
pub fn scene_to_load(state: &mut GameState) -> (scene: usize)
    ensures
        scene == (if spec_game_won(*old(state)) {
            VICTORY
        } else {
            old(state).current_scene
        }),
        *final(state) == (GameState { current_scene: scene, ..*old(state) }),
{
    if game_won(state) {
        state.current_scene = VICTORY;
    }
    state.current_scene
}

/// The main menu of the title screen.
pub fn main_menu() -> (menu: Menu)
    ensures
        menu.wf(),
        menu.options@.len() == 1,
        menu.options@[0]@ == "PRESS ENTER"@,
        menu.option_positions@[0]@ == seq![112u16, 176u16],
        menu.current_selection == 0,
        !menu.confirmed,
        menu.cursor_tile_set_id == 1 && menu.cursor_tile_id == 10,
        menu.font_size == 8,
        menu.cursor_offset@ == seq![(-16) as i16, 0i16],
        menu.input_time == 0 && menu.input_threshold == 30,
{
    Menu {
        name: "MainMenu".to_owned(),
        screen_x: 0,
        screen_y: 0,
        options: vec!["PRESS ENTER".to_owned()],
        option_positions: vec![[112, 176]],
        current_selection: 0,
        confirmed: false,
        text_tile_set_name: "start_font_small".to_owned(),
        palette_name: "start_font_small".to_owned(),
        font_size: 8,
        cursor_tile_set_id: 1,
        cursor_tile_id: 10,
        cursor_sprite_id: 0,
        cursor_offset: [-16, 0],
        input_time: 0,
        input_threshold: 30,
    }
}

/// A menu of three options, one below the other, as the selection scenes
/// have it.
pub fn selection_menu(name: &str, first: &str, second: &str, third: &str, left: u16) -> (menu: Menu)
    ensures
        menu.wf(),
        menu.name@ == name@,
        menu.options@.len() == 3,
        menu.options@[0]@ == first@ && menu.options@[1]@ == second@ && menu.options@[2]@ == third@,
        menu.option_positions@[0]@ == seq![left, 64u16],
        menu.option_positions@[1]@ == seq![left, 128u16],
        menu.option_positions@[2]@ == seq![left, 192u16],
        menu.current_selection == 0,
        !menu.confirmed,
        menu.cursor_tile_set_id == 1 && menu.cursor_tile_id == 9,
        menu.font_size == 8,
        menu.cursor_offset@ == seq![(-12) as i16, 0i16],
        menu.input_time == 0 && menu.input_threshold == 5,
{
    Menu {
        name: name.to_owned(),
        screen_x: 0,
        screen_y: 0,
        options: vec![first.to_owned(), second.to_owned(), third.to_owned()],
        option_positions: vec![[left, 64], [left, 128], [left, 192]],
        current_selection: 0,
        confirmed: false,
        text_tile_set_name: "start_font_small".to_owned(),
        palette_name: "start_font_small".to_owned(),
        font_size: 8,
        cursor_tile_set_id: 1,
        cursor_tile_id: 9,
        cursor_sprite_id: 0,
        cursor_offset: [-12, 0],
        input_time: 0,
        input_threshold: 5,
    }
}

/// What a frame of a cutscene tells the caller.
#[derive(Clone, Copy, Debug, PartialEq, Eq, Structural)]
pub struct CutsceneReport {
    /// How the scene ended, if it ended in this frame.
    pub exit: Option<SceneExit>,
    /// The shot that is to be shown from now on, if the picture changes.
    pub show_shot: Option<usize>,
}

/// Begins a cutscene: the first shot is the current one, and input has to
/// wait.
pub fn cutscene_init(state: &mut GameState)
    ensures
        *final(state) == (GameState { current_shot: 0, input_cooldown: INPUT_COOLDOWN, ..*old(state) }),
{
    state.current_shot = 0;
    state.input_cooldown = INPUT_COOLDOWN;
}

/// The next shot is asked for and input is taken.
pub open spec fn advances(state: GameState) -> bool {
    state.inputs@.contains(InputCode::Confirm) && state.input_cooldown == 0
}

/// A swap is asked for and input is taken, and the shot does not advance.
pub open spec fn reshoots(state: GameState) -> bool {
    state.inputs@.contains(InputCode::Swap) && state.input_cooldown == 0 && !advances(state)
}

/// A swap is asked for in a selection scene and its cooldown has passed.
pub open spec fn select_swaps(state: GameState) -> bool {
    state.inputs@.contains(InputCode::Swap) && state.swap_cooldown > SELECT_SWAP_COOLDOWN
}

/// The bindings that a swap in a selection scene applies, if it applies
/// any.
pub open spec fn select_swap_bindings(state: GameState) -> Option<Bindings> {
    if select_swaps(state) && state.can_swap() {
        state.bindings(state.game.other())
    } else {
        None
    }
}

/// The selection is confirmed in this frame and input is taken.
pub open spec fn selects(state: GameState) -> bool {
    state.input_cooldown == 0 && (state.menu.confirmed || spec_confirms(state.inputs@))
}

/// The later state is the earlier after the part of a frame that every
/// selection scene has: a swap of the ruleset is handled, the cursor of the
/// menu moves, and the cooldowns are counted.
pub open spec fn selection_stepped(before: GameState, after: GameState) -> bool {
    &&& after.menu.wf()
    &&& after.menu.cursor() == (Cursor {
        confirmed: selects(before),
        ..before.menu.cursor().after_input(
            before.inputs@,
            before.menu.options@.len() as int,
            before.menu.input_threshold,
        )
    })
    &&& after.menu == (Menu {
        current_selection: after.menu.current_selection,
        input_time: after.menu.input_time,
        confirmed: after.menu.confirmed,
        ..before.menu
    })
    &&& after.sfx_queue@ == before.sfx_queue@ + before.menu.cursor().cues(
        before.inputs@,
        before.menu.options@.len() as int,
        before.menu.input_threshold,
    )
    &&& after.game == (if select_swaps(before) {
        before.game_after_swap()
    } else {
        before.game
    })
    &&& after.swap_cooldown == spec_next_count(
        if select_swaps(before) && before.can_swap() {
            0
        } else {
            before.swap_cooldown
        },
    )
    &&& after.input_cooldown == spec_cool(before.input_cooldown)
}

/// The sprites of the later render state are those of the earlier after a
/// frame of a selection scene: the bindings of a swap are applied, and the
/// cursor stands beside the selected option.
pub open spec fn selection_shown(
    before: GameState,
    after: GameState,
    sprites_before: Seq<Sprite>,
    sprites_after: Seq<Sprite>,
) -> bool {
    let bound = match select_swap_bindings(before) {
        Some(b) => b.bind_sprites(sprites_before),
        None => sprites_before,
    };
    sprites_after == (if after.menu.cursor_sprite_id < bound.len() {
        bound.update(
            after.menu.cursor_sprite_id as int,
            after.menu.cursor_sprite(bound[after.menu.cursor_sprite_id as int]),
        )
    } else {
        bound
    })
}

/// Takes a selection scene through the part of a frame that every selection
/// scene has. Says whether the selection is confirmed.
pub fn selection_step(state: &mut GameState, render: &mut RenderState) -> (selected: bool)
    requires
        old(state).menu.wf(),
    ensures
        selected == selects(*old(state)),
        selection_stepped(*old(state), *final(state)),
        selection_shown(*old(state), *final(state), old(render).sprites@, final(render).sprites@),
        final(render).tile_maps@ == (match select_swap_bindings(*old(state)) {
            Some(b) => b.bind_tile_maps(old(render).tile_maps@),
            None => old(render).tile_maps@,
        }),
        *final(state) == (GameState {
            menu: final(state).menu,
            sfx_queue: final(state).sfx_queue,
            game: final(state).game,
            swap_cooldown: final(state).swap_cooldown,
            input_cooldown: final(state).input_cooldown,
            ..*old(state)
        }),
{
    if state.inputs.contains(InputCode::Swap) && state.swap_cooldown > SELECT_SWAP_COOLDOWN {
        state.swap_game(render);
    }
    state.menu.update_cursor(&state.inputs, render, &mut state.sfx_queue);
    let selected = state.input_cooldown == 0 && state.menu.confirmed;
    if !selected {
        state.menu.confirmed = false;
    }
    if state.input_cooldown > 0 {
        state.input_cooldown = state.input_cooldown - 1;
    }
    state.swap_cooldown = next_count(state.swap_cooldown);
    selected
}

/// Begins a selection scene with its menu: input has to wait, and the
/// cursor of the menu gets a sprite of its own.
pub fn selection_init(state: &mut GameState, menu: Menu, palette_id: usize, render: &mut RenderState)
    requires
        menu.wf(),
    ensures
        final(state).menu.wf(),
        final(state).menu.cursor_sprite_id == old(render).sprites@.len(),
        *final(state) == (GameState {
            menu: Menu {
                input_time: 0,
                input_threshold: LOADED_THRESHOLD,
                cursor_sprite_id: final(state).menu.cursor_sprite_id,
                ..menu
            },
            input_cooldown: INPUT_COOLDOWN,
            ..*old(state)
        }),
        final(render).tile_maps@ == old(render).tile_maps@,
        final(render).sprites@ == old(render).sprites@.push(
            menu.cursor_sprite(
                Sprite {
                    tile_set_id: menu.cursor_tile_set_id,
                    palette_id,
                    frame: menu.cursor_tile_id,
                    width: menu.font_size,
                    height: menu.font_size,
                    scene_x: 0,
                    scene_y: 0,
                    reverse_x: false,
                    hide: false,
                },
            ),
        ),
{
    state.input_cooldown = INPUT_COOLDOWN;
    state.menu = menu;
    state.menu.load(palette_id, render);
}

} // verus!
