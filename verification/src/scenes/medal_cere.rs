//! The medal ceremony that follows an event.

use vstd::prelude::*;
use vstd::std_specs::hash::*;
use crate::input::InputCode;
use crate::launcher::{count_hits, spec_hit_count};
use crate::menu::{spec_confirms, Cursor, Menu};
use crate::render::RenderState;
use crate::scenes::biathlon::targets_of;
use crate::scenes::{select_swap_bindings, select_swaps, SceneExit, SELECT_SWAP_COOLDOWN};
use crate::state::{next_count, spec_next_count, GameState, EVENT_SELECT, MEDAL_CEREMONY};

verus! {

/// For how many frames the medal ceremony lasts at least.
pub const CEREMONY_FRAMES: u32 = 90;

/// What the medal ceremony of an event shows.
pub struct CeremonyBoard {
    /// The event was accomplished.
    pub success: bool,
    /// The times of the three fastest finishes, in frames.
    pub gold: u32,
    pub silver: u32,
    pub bronze: u32,
    /// How many targets of the mission were struck, and how many there are.
    pub struck: u8,
    pub targets: usize,
}

/// The event of the state has a full leaderboard and a mission.
pub open spec fn ceremony_ready(state: GameState) -> bool {
    &&& state.buglympics.medals@.contains_key(state.event)
    &&& state.buglympics.medals@[state.event]@.len() == 3
    &&& state.spyder.events@.contains_key(state.event)
}

/// Whether the event of the state has a full leaderboard and a mission.
pub fn is_ceremony_ready(state: &GameState) -> (b: bool)
    ensures
        b == ceremony_ready(*state),
{
    broadcast use group_hash_axioms;

    match state.buglympics.medals.get(&state.event) {
        Some(standing) => standing.len() == 3 && state.spyder.events.contains_key(&state.event),
        None => false,
    }
}

/// Begins the medal ceremony of the event that was played: says what the
/// ceremony shows, and makes the ceremony the current event.
pub fn init(state: &mut GameState) -> (board: CeremonyBoard)
    requires
        ceremony_ready(*old(state)),
    ensures
        board.success == old(state).last_event_success,
        board.gold == old(state).buglympics.medals@[old(state).event]@[0].time,
        board.silver == old(state).buglympics.medals@[old(state).event]@[1].time,
        board.bronze == old(state).buglympics.medals@[old(state).event]@[2].time,
        board.struck == (if spec_hit_count(targets_of(*old(state))) > 255 {
            255
        } else {
            spec_hit_count(targets_of(*old(state))) as int
        }),
        board.targets == targets_of(*old(state)).len(),
        *final(state) == (GameState { event: MEDAL_CEREMONY, ..*old(state) }),
{
    broadcast use group_hash_axioms;

    let (gold, silver, bronze): (u32, u32, u32) = match state.buglympics.medals.get(&state.event) {
        Some(standing) => {
            let first = match standing.record(0) {
                Some(r) => r.time,
                None => 0,
            };
            let second = match standing.record(1) {
                Some(r) => r.time,
                None => 0,
            };
            let third = match standing.record(2) {
                Some(r) => r.time,
                None => 0,
            };
            (first, second, third)
        },
        None => (0, 0, 0),
    };
    let (struck, targets): (u8, usize) = match state.spyder.events.get(&state.event) {
        Some(mission) => (count_hits(&mission.targets), mission.targets.len()),
        None => (0, 0),
    };
    let board = CeremonyBoard { success: state.last_event_success, gold, silver, bronze, struck, targets };
    state.event = MEDAL_CEREMONY;
    board
}

/// One frame of the medal ceremony, which has lasted `shown` frames: a swap
/// of the ruleset is handled, the cursor of the listing moves, and a
/// confirmation ends the scene for the selection of the event once the
/// ceremony has lasted long enough.
pub fn update(
    state: &mut GameState,
    listing: &mut Menu,
    shown: u32,
    render: &mut RenderState,
) -> (exit: Option<SceneExit>)
    requires
        old(listing).wf(),
    ensures
        final(listing).wf(),
        final(listing).cursor() == (Cursor {
            confirmed: exit is Some,
            ..old(listing).cursor().after_input(
                old(state).inputs@,
                old(listing).options@.len() as int,
                old(listing).input_threshold,
            )
        }),
        *final(listing) == (Menu {
            current_selection: final(listing).current_selection,
            input_time: final(listing).input_time,
            confirmed: final(listing).confirmed,
            ..*old(listing)
        }),
        exit == (if shown > CEREMONY_FRAMES && (old(listing).confirmed || spec_confirms(
            old(state).inputs@,
        )) {
            Some(SceneExit { scene: old(state).current_scene, success: true, next_scene: EVENT_SELECT })
        } else {
            None
        }),
        final(state).current_scene == (if exit is Some {
            EVENT_SELECT
        } else {
            old(state).current_scene
        }),
        final(state).game == (if select_swaps(*old(state)) {
            old(state).game_after_swap()
        } else {
            old(state).game
        }),
        final(state).swap_cooldown == spec_next_count(
            if select_swaps(*old(state)) && old(state).can_swap() {
                0
            } else {
                old(state).swap_cooldown
            },
        ),
        final(state).sfx_queue@ == old(state).sfx_queue@ + old(listing).cursor().cues(
            old(state).inputs@,
            old(listing).options@.len() as int,
            old(listing).input_threshold,
        ),
        *final(state) == (GameState {
            sfx_queue: final(state).sfx_queue,
            game: final(state).game,
            swap_cooldown: final(state).swap_cooldown,
            current_scene: final(state).current_scene,
            ..*old(state)
        }),
        final(render).tile_maps@ == (match select_swap_bindings(*old(state)) {
            Some(b) => b.bind_tile_maps(old(render).tile_maps@),
            None => old(render).tile_maps@,
        }),
        final(render).sprites@ == ({
            let bound = match select_swap_bindings(*old(state)) {
                Some(b) => b.bind_sprites(old(render).sprites@),
                None => old(render).sprites@,
            };
            if final(listing).cursor_sprite_id < bound.len() {
                bound.update(
                    final(listing).cursor_sprite_id as int,
                    final(listing).cursor_sprite(bound[final(listing).cursor_sprite_id as int]),
                )
            } else {
                bound
            }
        }),
{
    let scene = state.current_scene;
    if state.inputs.contains(InputCode::Swap) && state.swap_cooldown > SELECT_SWAP_COOLDOWN {
        state.swap_game(render);
    }
    state.swap_cooldown = next_count(state.swap_cooldown);
    listing.update_cursor(&state.inputs, render, &mut state.sfx_queue);
    if shown > CEREMONY_FRAMES && listing.confirmed {
        state.current_scene = EVENT_SELECT;
        Some(SceneExit { scene, success: true, next_scene: EVENT_SELECT })
    } else {
        listing.confirmed = false;
        None
    }
}

} // verus!
