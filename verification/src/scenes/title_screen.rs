//! The title screen.

use vstd::prelude::*;
use crate::input::InputCode;
use crate::menu::{Menu, LOADED_THRESHOLD};
use crate::render::{RenderState, Sprite};
use crate::scenes::{main_menu, swap_bindings, swaps, SceneExit};
use crate::state::{next_count, spec_next_count, GameState, ATTRACT_MODE};

verus! {

/// Begins the title screen: the main menu is the menu of the state, and its
/// cursor gets a sprite of its own.
pub fn init(state: &mut GameState, palette_id: usize, render: &mut RenderState)
    ensures
        final(state).menu.wf(),
        final(state).menu.options@.len() == 1,
        final(state).menu.options@[0]@ == "PRESS ENTER"@,
        final(state).menu.current_selection == 0,
        !final(state).menu.confirmed,
        final(state).menu.input_time == 0,
        final(state).menu.input_threshold == LOADED_THRESHOLD,
        final(state).menu.cursor_sprite_id == old(render).sprites@.len(),
        *final(state) == (GameState { menu: final(state).menu, ..*old(state) }),
        final(render).tile_maps@ == old(render).tile_maps@,
        final(render).sprites@ == old(render).sprites@.push(
            Sprite {
                tile_set_id: 1,
                palette_id,
                frame: 10,
                width: 8,
                height: 8,
                scene_x: 96,
                scene_y: 176,
                reverse_x: false,
                hide: false,
            },
        ),
{
    let menu = main_menu();
    state.menu = menu;
    state.menu.load(palette_id, render);
}

/// One frame of the title screen: a swap of the ruleset is handled, and a
/// confirmation ends the scene for the attract mode.
pub fn update(state: &mut GameState, render: &mut RenderState) -> (exit: Option<SceneExit>)
    ensures
        exit == (if old(state).inputs@.contains(InputCode::Confirm) {
            Some(SceneExit { scene: old(state).current_scene, success: true, next_scene: ATTRACT_MODE })
        } else {
            None
        }),
        final(state).game == (if old(state).inputs@.contains(InputCode::Swap) {
            old(state).game_after_swap()
        } else {
            old(state).game
        }),
        final(state).swap_cooldown == spec_next_count(
            if swaps(*old(state)) {
                0
            } else {
                old(state).swap_cooldown
            },
        ),
        final(state).current_scene == (if old(state).inputs@.contains(InputCode::Confirm) {
            ATTRACT_MODE
        } else {
            old(state).current_scene
        }),
        final(state).menu.confirmed == (old(state).menu.confirmed || old(state).inputs@.contains(
            InputCode::Confirm,
        )),
        *final(state) == (GameState {
            game: final(state).game,
            swap_cooldown: final(state).swap_cooldown,
            current_scene: final(state).current_scene,
            menu: Menu { confirmed: final(state).menu.confirmed, ..old(state).menu },
            ..*old(state)
        }),
        final(render).tile_maps@ == (match swap_bindings(*old(state)) {
            Some(b) => b.bind_tile_maps(old(render).tile_maps@),
            None => old(render).tile_maps@,
        }),
        final(render).sprites@ == (match swap_bindings(*old(state)) {
            Some(b) => b.bind_sprites(old(render).sprites@),
            None => old(render).sprites@,
        }),
{
    let scene = state.current_scene;
    if state.inputs.contains(InputCode::Swap) {
        state.swap_game(render);
    }
    let mut exit: Option<SceneExit> = None;
    if state.inputs.contains(InputCode::Confirm) {
        state.menu.confirmed = true;
        state.current_scene = ATTRACT_MODE;
        exit = Some(SceneExit { scene, success: true, next_scene: ATTRACT_MODE });
    }
    state.swap_cooldown = next_count(state.swap_cooldown);
    exit
}

} // verus!
