//! The selection of the event that is played.

use vstd::prelude::*;
use vstd::std_specs::hash::*;
use crate::menu::{Menu, LOADED_THRESHOLD};
use crate::render::{RenderState, Sprite};
use crate::scenes::{
    select_swap_bindings, selection_init, selection_menu, selection_shown, selection_step,
    selection_stepped, selects, SceneExit, INPUT_COOLDOWN,
};
use crate::state::{GameState, CROSS_COUNTRY};

verus! {

/// Every option of the menu stands for an event that has bindings: the
/// first option for the first event, and so on.
pub open spec fn events_listed(state: GameState) -> bool {
    &&& CROSS_COUNTRY + state.menu.options@.len() <= usize::MAX
    &&& forall|event: usize|
        CROSS_COUNTRY <= event < CROSS_COUNTRY + state.menu.options@.len() ==> state.events@.contains_key(
            event,
        )
}

/// Whether every option of the menu stands for an event that has bindings.
pub fn are_events_listed(state: &GameState) -> (b: bool)
    ensures
        b == events_listed(*state),
{
    broadcast use group_hash_axioms;

    if state.menu.options.len() > usize::MAX - CROSS_COUNTRY {
        return false;
    }
    let end: usize = CROSS_COUNTRY + state.menu.options.len();
    let mut event: usize = CROSS_COUNTRY;
    while event < end
        invariant
            CROSS_COUNTRY <= event <= end,
            end == CROSS_COUNTRY + state.menu.options@.len(),
            forall|k: usize| CROSS_COUNTRY <= k < event ==> state.events@.contains_key(k),
        decreases end - event,
    {
        if !state.events.contains_key(&event) {
            return false;
        }
        event = event + 1;
    }
    true
}

/// Begins the selection of the event: the menu of the state lists the three
/// events, its cursor gets a sprite of its own, and input has to wait.
pub fn init(state: &mut GameState, palette_id: usize, render: &mut RenderState)
    ensures
        final(state).menu.wf(),
        final(state).menu.options@.len() == 3,
        final(state).menu.options@[0]@ == "CROSS-COUNTRY BIATHLON"@,
        final(state).menu.options@[1]@ == "DOWNHILL BIATHLON"@,
        final(state).menu.options@[2]@ == "CRAGGY BIATHLON"@,
        final(state).menu.current_selection == 0,
        !final(state).menu.confirmed,
        final(state).menu.input_time == 0,
        final(state).menu.input_threshold == LOADED_THRESHOLD,
        final(state).menu.cursor_sprite_id == old(render).sprites@.len(),
        final(state).input_cooldown == INPUT_COOLDOWN,
        *final(state) == (GameState {
            menu: final(state).menu,
            input_cooldown: final(state).input_cooldown,
            ..*old(state)
        }),
        final(render).tile_maps@ == old(render).tile_maps@,
        final(render).sprites@ == old(render).sprites@.push(
            Sprite {
                tile_set_id: 1,
                palette_id,
                frame: 9,
                width: 8,
                height: 8,
                scene_x: 36,
                scene_y: 64,
                reverse_x: false,
                hide: false,
            },
        ),
{
    let menu = selection_menu(
        "Event Select",
        "CROSS-COUNTRY BIATHLON",
        "DOWNHILL BIATHLON",
        "CRAGGY BIATHLON",
        48,
    );
    selection_init(state, menu, palette_id, render);
}

/// One frame of the selection of the event: a confirmed selection makes
/// the event of the selected option the current event and ends the scene for
/// the scene of that event.
pub fn update(state: &mut GameState, render: &mut RenderState) -> (exit: Option<SceneExit>)
    requires
        old(state).menu.wf(),
        events_listed(*old(state)),
    ensures
        exit == (if selects(*old(state)) {
            Some(
                SceneExit {
                    scene: old(state).current_scene,
                    success: true,
                    next_scene: final(state).current_scene,
                },
            )
        } else {
            None
        }),
        selection_stepped(*old(state), *final(state)),
        selection_shown(*old(state), *final(state), old(render).sprites@, final(render).sprites@),
        final(render).tile_maps@ == (match select_swap_bindings(*old(state)) {
            Some(b) => b.bind_tile_maps(old(render).tile_maps@),
            None => old(render).tile_maps@,
        }),
        final(state).event == (if selects(*old(state)) {
            (CROSS_COUNTRY + final(state).menu.current_selection) as usize
        } else {
            old(state).event
        }),
        final(state).current_scene == (if selects(*old(state)) {
            old(state).events@[final(state).event].scene
        } else {
            old(state).current_scene
        }),
        *final(state) == (GameState {
            menu: final(state).menu,
            sfx_queue: final(state).sfx_queue,
            game: final(state).game,
            swap_cooldown: final(state).swap_cooldown,
            input_cooldown: final(state).input_cooldown,
            current_scene: final(state).current_scene,
            event: final(state).event,
            ..*old(state)
        }),
{
    broadcast use group_hash_axioms;

    let scene = state.current_scene;
    if selection_step(state, render) {
        let event = CROSS_COUNTRY + state.menu.current_selection;
        state.event = event;
        match state.events.get(&event) {
            Some(mapping) => {
                state.current_scene = mapping.scene;
            },
            None => {},
        }
        Some(SceneExit { scene, success: true, next_scene: state.current_scene })
    } else {
        None
    }
}

} // verus!
