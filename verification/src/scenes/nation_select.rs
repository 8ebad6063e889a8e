//! The selection of the nation that the player races for.

use vstd::prelude::*;
use crate::input::InputCode;
use crate::menu::{Menu, LOADED_THRESHOLD};
use crate::render::{RenderState, Sprite};
use crate::scenes::{
    select_swap_bindings, select_swaps, selection_init, selection_menu, selection_shown,
    selection_step, selection_stepped, selects, SceneExit, INPUT_COOLDOWN, SELECT_SWAP_COOLDOWN,
};
use crate::state::{GameState, EVENT_SELECT};

verus! {

/// Begins the selection of the nation: the menu of the state lists the three
/// nations, its cursor gets a sprite of its own, and input has to wait.
pub fn init(state: &mut GameState, palette_id: usize, render: &mut RenderState)
    ensures
        final(state).menu.wf(),
        final(state).menu.options@.len() == 3,
        final(state).menu.options@[0]@ == "ANTARTICA"@,
        final(state).menu.options@[1]@ == "EAST ARACHNYLVANIA"@,
        final(state).menu.options@[2]@ == "REP. OF WORMSTRALIA"@,
        final(state).menu.current_selection == 0,
        !final(state).menu.confirmed,
        final(state).menu.input_time == 0,
        final(state).menu.input_threshold == LOADED_THRESHOLD,
        final(state).menu.cursor_sprite_id == old(render).sprites@.len(),
        final(state).input_cooldown == INPUT_COOLDOWN,
        *final(state) == (GameState {
            menu: final(state).menu,
            input_cooldown: final(state).input_cooldown,
            ..*old(state)
        }),
        final(render).tile_maps@ == old(render).tile_maps@,
        final(render).sprites@ == old(render).sprites@.push(
            Sprite {
                tile_set_id: 1,
                palette_id,
                frame: 9,
                width: 8,
                height: 8,
                scene_x: 4,
                scene_y: 64,
                reverse_x: false,
                hide: false,
            },
        ),
{
    let menu = selection_menu("NationSelect", "ANTARTICA", "EAST ARACHNYLVANIA", "REP. OF WORMSTRALIA", 16);
    selection_init(state, menu, palette_id, render);
}

/// One frame of the selection of the nation: a confirmed selection makes
/// the selected option the player's nation and ends the scene for the
/// selection of the event. Says also whether a swap was asked for, so that
/// the caller can change the texts.
pub fn update(state: &mut GameState, render: &mut RenderState) -> (out: (Option<SceneExit>, bool))
    requires
        old(state).menu.wf(),
    ensures
        out.1 == select_swaps(*old(state)),
        out.0 == (if selects(*old(state)) {
            Some(SceneExit { scene: old(state).current_scene, success: true, next_scene: EVENT_SELECT })
        } else {
            None
        }),
        selection_stepped(*old(state), *final(state)),
        selection_shown(*old(state), *final(state), old(render).sprites@, final(render).sprites@),
        final(render).tile_maps@ == (match select_swap_bindings(*old(state)) {
            Some(b) => b.bind_tile_maps(old(render).tile_maps@),
            None => old(render).tile_maps@,
        }),
        final(state).current_scene == (if selects(*old(state)) {
            EVENT_SELECT
        } else {
            old(state).current_scene
        }),
        final(state).buglympics.nation@ == (if selects(*old(state)) {
            final(state).menu.options@[final(state).menu.current_selection as int]@
        } else {
            old(state).buglympics.nation@
        }),
        final(state).buglympics.events == old(state).buglympics.events,
        final(state).buglympics.medals == old(state).buglympics.medals,
        *final(state) == (GameState {
            menu: final(state).menu,
            sfx_queue: final(state).sfx_queue,
            game: final(state).game,
            swap_cooldown: final(state).swap_cooldown,
            input_cooldown: final(state).input_cooldown,
            current_scene: final(state).current_scene,
            buglympics: final(state).buglympics,
            ..*old(state)
        }),
{
    let scene = state.current_scene;
    let retext = state.inputs.contains(InputCode::Swap) && state.swap_cooldown > SELECT_SWAP_COOLDOWN;
    if selection_step(state, render) {
        state.buglympics.nation = state.menu.options[state.menu.current_selection].clone();
        state.current_scene = EVENT_SELECT;
        (Some(SceneExit { scene, success: true, next_scene: EVENT_SELECT }), retext)
    } else {
        (None, retext)
    }
}

} // verus!
