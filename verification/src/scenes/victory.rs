//! The victory scene: one shot for each ruleset.

use vstd::prelude::*;
use crate::input::InputCode;
use crate::render::RenderState;
use crate::scenes::{cutscene_init, spec_cool, swap_bindings, CutsceneReport, INPUT_COOLDOWN};
use crate::state::{next_count, spec_next_count, GameState};

verus! {

/// Begins the victory scene: the first shot is the current one, and input
/// has to wait.
pub fn init(state: &mut GameState)
    ensures
        *final(state) == (GameState { current_shot: 0, input_cooldown: INPUT_COOLDOWN, ..*old(state) }),
{
    cutscene_init(state);
}

/// One frame of the victory scene: a swap of the ruleset shows the shot of
/// the other ruleset.
pub fn update(state: &mut GameState, render: &mut RenderState) -> (report: CutsceneReport)
    ensures
        report.exit is None,
        report.show_shot == (if old(state).inputs@.contains(InputCode::Swap) && old(state).input_cooldown
            == 0 {
            Some(old(state).current_shot)
        } else {
            None
        }),
        final(state).input_cooldown == spec_cool(old(state).input_cooldown),
        final(state).game == (if report.show_shot is Some {
            old(state).game_after_swap()
        } else {
            old(state).game
        }),
        final(state).swap_cooldown == spec_next_count(
            if report.show_shot is Some && old(state).can_swap() {
                0
            } else {
                old(state).swap_cooldown
            },
        ),
        *final(state) == (GameState {
            input_cooldown: final(state).input_cooldown,
            game: final(state).game,
            swap_cooldown: final(state).swap_cooldown,
            ..*old(state)
        }),
        final(render).tile_maps@ == (if report.show_shot is Some {
            match swap_bindings(*old(state)) {
                Some(b) => b.bind_tile_maps(old(render).tile_maps@),
                None => old(render).tile_maps@,
            }
        } else {
            old(render).tile_maps@
        }),
        final(render).sprites@ == (if report.show_shot is Some {
            match swap_bindings(*old(state)) {
                Some(b) => b.bind_sprites(old(render).sprites@),
                None => old(render).sprites@,
            }
        } else {
            old(render).sprites@
        }),
{
    let mut report = CutsceneReport { exit: None, show_shot: None };
    if state.inputs.contains(InputCode::Swap) && state.input_cooldown == 0 {
        state.swap_game(render);
        report.show_shot = Some(state.current_shot);
    }
    state.swap_cooldown = next_count(state.swap_cooldown);
    if state.input_cooldown > 0 {
        state.input_cooldown = state.input_cooldown - 1;
    }
    report
}

} // verus!
