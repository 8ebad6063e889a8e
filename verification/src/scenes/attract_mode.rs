//! The attract mode: a cutscene of several shots.

use vstd::prelude::*;
use crate::input::InputCode;
use crate::render::RenderState;
use crate::scenes::{
    advances, cutscene_init, reshoots, spec_cool, swap_bindings, CutsceneReport, SceneExit,
    INPUT_COOLDOWN,
};
use crate::state::{next_count, spec_next_count, GameState, NATION_SELECT};

verus! {

/// Begins the attract mode: the first shot is the current one, and input has
/// to wait.
pub fn init(state: &mut GameState)
    ensures
        *final(state) == (GameState { current_shot: 0, input_cooldown: INPUT_COOLDOWN, ..*old(state) }),
{
    cutscene_init(state);
}

/// One frame of the attract mode, a cutscene of `shots` shots: a
/// confirmation shows the next shot, or ends the scene for the selection of
/// the nation behind the last; a swap of the ruleset shows the current shot
/// anew.
pub fn update(state: &mut GameState, shots: usize, render: &mut RenderState) -> (report:
    CutsceneReport)
    requires
        shots >= 1,
        old(state).current_shot < shots,
    ensures
        report.exit == (if advances(*old(state)) && old(state).current_shot + 1 == shots {
            Some(SceneExit { scene: old(state).current_scene, success: true, next_scene: NATION_SELECT })
        } else {
            None
        }),
        report.show_shot == (if advances(*old(state)) && old(state).current_shot + 1 < shots {
            Some((old(state).current_shot + 1) as usize)
        } else if reshoots(*old(state)) {
            Some(old(state).current_shot)
        } else {
            None
        }),
        final(state).current_shot == (if advances(*old(state)) {
            old(state).current_shot + 1
        } else {
            old(state).current_shot as int
        }),
        final(state).input_cooldown == (if advances(*old(state)) {
            (INPUT_COOLDOWN - 1) as u32
        } else {
            spec_cool(old(state).input_cooldown)
        }),
        final(state).current_scene == (if report.exit is Some {
            NATION_SELECT
        } else {
            old(state).current_scene
        }),
        final(state).game == (if reshoots(*old(state)) {
            old(state).game_after_swap()
        } else {
            old(state).game
        }),
        final(state).swap_cooldown == spec_next_count(
            if reshoots(*old(state)) && old(state).can_swap() {
                0
            } else {
                old(state).swap_cooldown
            },
        ),
        *final(state) == (GameState {
            current_shot: final(state).current_shot,
            input_cooldown: final(state).input_cooldown,
            current_scene: final(state).current_scene,
            game: final(state).game,
            swap_cooldown: final(state).swap_cooldown,
            ..*old(state)
        }),
        final(render).tile_maps@ == (if reshoots(*old(state)) {
            match swap_bindings(*old(state)) {
                Some(b) => b.bind_tile_maps(old(render).tile_maps@),
                None => old(render).tile_maps@,
            }
        } else {
            old(render).tile_maps@
        }),
        final(render).sprites@ == (if reshoots(*old(state)) {
            match swap_bindings(*old(state)) {
                Some(b) => b.bind_sprites(old(render).sprites@),
                None => old(render).sprites@,
            }
        } else {
            old(render).sprites@
        }),
{
    let scene = state.current_scene;
    let mut report = CutsceneReport { exit: None, show_shot: None };
    if state.inputs.contains(InputCode::Confirm) && state.input_cooldown == 0 {
        state.current_shot = state.current_shot + 1;
        state.input_cooldown = INPUT_COOLDOWN;
        if state.current_shot > shots - 1 {
            state.current_scene = NATION_SELECT;
            report.exit = Some(SceneExit { scene, success: true, next_scene: NATION_SELECT });
        } else {
            report.show_shot = Some(state.current_shot);
        }
    }
    if state.inputs.contains(InputCode::Swap) && state.input_cooldown == 0 {
        state.swap_game(render);
        report.show_shot = Some(state.current_shot);
    }
    if state.input_cooldown > 0 {
        state.input_cooldown = state.input_cooldown - 1;
    }
    state.swap_cooldown = next_count(state.swap_cooldown);
    report
}

} // verus!
