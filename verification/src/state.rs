//! The state of the game: the active ruleset, the events and their records,
//! the world and the actor in it.
//!
//! Events and scenes are known by their scene number. Times are counted in
//! frames, sixty to the second.

use std::collections::HashMap;
use vstd::prelude::*;
use vstd::std_specs::hash::*;
use crate::input::Inputs;
use crate::launcher::Target;
use crate::menu::Menu;
use crate::overlay::{Bindings, SceneMap, SceneMapView};
use crate::player::Player;
use crate::records::{BuglympicsEventRecord, MedalStanding};
use crate::render::RenderState;
use crate::sounds::Cue;
use crate::world::{GameMode, WorldState};

verus! {

/// The scene number of the title screen.
pub const TITLE_SCREEN: usize = 0;

/// The scene number of the attract mode.
pub const ATTRACT_MODE: usize = 1;

/// The scene number of the selection of the nation.
pub const NATION_SELECT: usize = 2;

/// The scene number of the selection of the event.
pub const EVENT_SELECT: usize = 3;

/// The scene number of the medal ceremony.
pub const MEDAL_CEREMONY: usize = 4;

/// The scene number of the cross-country event.
pub const CROSS_COUNTRY: usize = 5;

/// The scene number of the downhill event.
pub const DOWNHILL: usize = 6;

/// The scene number of the craggy event.
pub const CRAGGY: usize = 7;

/// The scene number of the victory scene.
pub const VICTORY: usize = 8;

/// After how many frames the ruleset can be swapped again.
pub const SWAP_COOLDOWN: u32 = 10;

/// What kind of scene a scene number stands for.
#[derive(Clone, Copy, Debug, PartialEq, Eq, Structural)]
pub enum SceneKind {
    TitleScreen,
    AttractMode,
    NationSelect,
    EventSelect,
    MedalCeremony,
    Biathlon,
    Victory,
}

impl SceneKind {
    /// The kind of the scene with the given number: every number from five
    /// on, but for that of the victory scene, is a level.
    pub open spec fn spec_of(scene: usize) -> SceneKind {
        if scene == TITLE_SCREEN {
            SceneKind::TitleScreen
        } else if scene == ATTRACT_MODE {
            SceneKind::AttractMode
        } else if scene == NATION_SELECT {
            SceneKind::NationSelect
        } else if scene == EVENT_SELECT {
            SceneKind::EventSelect
        } else if scene == MEDAL_CEREMONY {
            SceneKind::MedalCeremony
        } else if scene == VICTORY {
            SceneKind::Victory
        } else {
            SceneKind::Biathlon
        }
    }

    /// The kind of the scene with the given number.
    pub fn of(scene: usize) -> (kind: SceneKind)
        ensures
            kind == Self::spec_of(scene),
    {
        if scene == TITLE_SCREEN {
            SceneKind::TitleScreen
        } else if scene == ATTRACT_MODE {
            SceneKind::AttractMode
        } else if scene == NATION_SELECT {
            SceneKind::NationSelect
        } else if scene == EVENT_SELECT {
            SceneKind::EventSelect
        } else if scene == MEDAL_CEREMONY {
            SceneKind::MedalCeremony
        } else if scene == VICTORY {
            SceneKind::Victory
        } else {
            SceneKind::Biathlon
        }
    }
}

/// A mission of the infiltration ruleset.
pub struct SpyderEvent {
    /// Where the actor starts, in pixels.
    pub start_line: [u16; 2],
    pub targets: Vec<Target>,
    /// How many frames the mission may take.
    pub time_limit: u32,
}

/// The result of a mission that was accomplished.
#[derive(Clone, Copy, Debug, PartialEq, Eq, Structural)]
pub struct SpyderEventRecord {
    pub event: usize,
    /// How many frames were left.
    pub time_remaining: i32,
}

/// The infiltration ruleset: its missions and their results.
pub struct SpyderState {
    pub events: HashMap<usize, SpyderEvent>,
    pub results: HashMap<usize, SpyderEventRecord>,
}

/// A race of the race ruleset.
#[derive(Clone, Copy, Debug)]
pub struct BuglympicsEvent {
    /// Where the actor starts, in pixels.
    pub start_line: [u16; 2],
    /// Where the race ends, in pixels.
    pub finish_line: [u16; 2],
}

/// The race ruleset: the nation that the player races for, the races and
/// their leaderboards.
pub struct BuglympicsState {
    pub nation: String,
    pub events: HashMap<usize, BuglympicsEvent>,
    pub medals: HashMap<usize, MedalStanding>,
}

/// The state of the game.
pub struct GameState {
    pub game: GameMode,
    pub scene_frames: u32,
    pub swap_cooldown: u32,
    pub input_cooldown: u32,
    pub current_scene: usize,
    pub current_shot: usize,
    /// The scene number of the event that is played or was played last.
    pub event: usize,
    pub last_event_success: bool,
    pub events: HashMap<usize, SceneMap>,
    pub world: WorldState,
    pub buglympics: BuglympicsState,
    pub bl_timer: u32,
    pub bl_finished: bool,
    pub spyder: SpyderState,
    pub spy_timer: i32,
    pub spy_finished: bool,
    pub hit_count: u8,
    pub player: Player,
    pub menu: Menu,
    pub sfx_queue: Vec<Cue>,
    pub inputs: Inputs,
}

/// One frame later, as far as frames are counted.
pub open spec fn spec_next_count(count: u32) -> u32 {
    if count < u32::MAX {
        (count + 1) as u32
    } else {
        count
    }
}

/// One frame later, as far as frames are counted.
pub fn next_count(count: u32) -> (next: u32)
    ensures
        next == spec_next_count(count),
{
    if count < u32::MAX {
        count + 1
    } else {
        count
    }
}

impl BuglympicsState {
    /// The record of a finish of the player's nation in an event.
    pub open spec fn finish_record(&self, event: usize, time: u32) -> BuglympicsEventRecord {
        BuglympicsEventRecord { nation: self.nation, event: self.medals@[event].spec_event(), time }
    }

    /// Enters a finish of the player's nation into the leaderboard of an
    /// event.
    pub fn record_finish(&mut self, event: usize, time: u32)
        requires
            old(self).medals@.contains_key(event),
        ensures
            final(self).nation == old(self).nation,
            final(self).events == old(self).events,
            final(self).medals@.dom() == old(self).medals@.dom(),
            forall|other: usize|
                other != event && old(self).medals@.contains_key(other) ==> final(self).medals@[other] == old(
                    self,
                ).medals@[other],
            final(self).medals@[event]@ == crate::records::spec_check_result(
                old(self).medals@[event]@,
                old(self).finish_record(event, time),
            ),
            final(self).medals@[event].spec_event() == old(self).medals@[event].spec_event(),
    {
        broadcast use group_hash_axioms;

        match self.medals.remove(&event) {
            Some(standing) => {
                let mut standing = standing;
                let record = BuglympicsEventRecord {
                    nation: self.nation.clone(),
                    event: standing.event().clone(),
                    time,
                };
                standing.check_result(record);
                self.medals.insert(event, standing);
                assert(self.medals@.dom() =~= old(self).medals@.dom());
            },
            None => {},
        }
    }
}

impl SpyderState {
    /// Enters the result of an accomplished mission.
    pub fn record_result(&mut self, event: usize, time_remaining: i32)
        ensures
            final(self).events == old(self).events,
            final(self).results@ == old(self).results@.insert(event, SpyderEventRecord { event, time_remaining }),
    {
        broadcast use group_hash_axioms;

        self.results.insert(event, SpyderEventRecord { event, time_remaining });
    }
}

impl GameState {
    /// The world, the actor and the menu are well-formed.
    pub open spec fn wf(&self) -> bool {
        &&& self.world.wf()
        &&& self.player.wf()
        &&& self.menu.wf()
    }

    /// Whether the world, the actor and the menu are well-formed.
    pub fn well_formed(&self) -> (b: bool)
        ensures
            b == self.wf(),
    {
        self.world.well_formed() && self.player.well_formed() && self.menu.well_formed()
    }

    /// The bindings of the current event for a ruleset, if the event has any.
    pub open spec fn bindings(&self, game: GameMode) -> Option<Bindings> {
        if self.events@.contains_key(self.event) {
            Some(self.events@[self.event]@.bindings(game))
        } else {
            None
        }
    }

    /// Makes a ruleset the active one and applies its bindings of the current
    /// event to the render state. Nothing happens if the current event has no
    /// bindings.
    pub fn set_game(&mut self, game: GameMode, render: &mut RenderState)
        ensures
            final(self).game == (if old(self).bindings(game) is Some {
                game
            } else {
                old(self).game
            }),
            final(render).tile_maps@ == (match old(self).bindings(game) {
                Some(b) => b.bind_tile_maps(old(render).tile_maps@),
                None => old(render).tile_maps@,
            }),
            final(render).sprites@ == (match old(self).bindings(game) {
                Some(b) => b.bind_sprites(old(render).sprites@),
                None => old(render).sprites@,
            }),
            same_but_game(*old(self), *final(self)),
    {
        broadcast use group_hash_axioms;

        match self.events.get(&self.event) {
            Some(mapping) => {
                mapping.apply(game, render);
                self.game = game;
            },
            None => {},
        }
    }

    /// Makes the race the active ruleset.
    pub fn set_buglympics(&mut self, render: &mut RenderState)
        ensures
            final(self).game == (if old(self).bindings(GameMode::Buglympics) is Some {
                GameMode::Buglympics
            } else {
                old(self).game
            }),
            final(render).tile_maps@ == (match old(self).bindings(GameMode::Buglympics) {
                Some(b) => b.bind_tile_maps(old(render).tile_maps@),
                None => old(render).tile_maps@,
            }),
            final(render).sprites@ == (match old(self).bindings(GameMode::Buglympics) {
                Some(b) => b.bind_sprites(old(render).sprites@),
                None => old(render).sprites@,
            }),
            same_but_game(*old(self), *final(self)),
    {
        self.set_game(GameMode::Buglympics, render);
    }

    /// Makes the infiltration mission the active ruleset.
    pub fn set_spyder(&mut self, render: &mut RenderState)
        ensures
            final(self).game == (if old(self).bindings(GameMode::Spyder) is Some {
                GameMode::Spyder
            } else {
                old(self).game
            }),
            final(render).tile_maps@ == (match old(self).bindings(GameMode::Spyder) {
                Some(b) => b.bind_tile_maps(old(render).tile_maps@),
                None => old(render).tile_maps@,
            }),
            final(render).sprites@ == (match old(self).bindings(GameMode::Spyder) {
                Some(b) => b.bind_sprites(old(render).sprites@),
                None => old(render).sprites@,
            }),
            same_but_game(*old(self), *final(self)),
    {
        self.set_game(GameMode::Spyder, render);
    }

    /// Applies the bindings of the active ruleset once more.
    pub fn check_game(&mut self, render: &mut RenderState)
        ensures
            *final(self) == *old(self),
            final(render).tile_maps@ == (match old(self).bindings(old(self).game) {
                Some(b) => b.bind_tile_maps(old(render).tile_maps@),
                None => old(render).tile_maps@,
            }),
            final(render).sprites@ == (match old(self).bindings(old(self).game) {
                Some(b) => b.bind_sprites(old(render).sprites@),
                None => old(render).sprites@,
            }),
    {
        let game = self.game;
        self.set_game(game, render);
    }

    /// The ruleset can be swapped: the cooldown has passed.
    pub open spec fn can_swap(&self) -> bool {
        self.swap_cooldown > SWAP_COOLDOWN
    }

    /// The ruleset that is active after a request to swap.
    pub open spec fn game_after_swap(&self) -> GameMode {
        if self.can_swap() && self.bindings(self.game.other()) is Some {
            self.game.other()
        } else {
            self.game
        }
    }

    /// Handles a request to swap the ruleset. The request counts only if the
    /// cooldown has passed: then the cooldown starts again, the other ruleset
    /// becomes the active one and its bindings of the current event are
    /// applied.
    pub fn swap_game(&mut self, render: &mut RenderState)
        ensures
            final(self).game == old(self).game_after_swap(),
            final(self).swap_cooldown == (if old(self).can_swap() {
                0
            } else {
                old(self).swap_cooldown
            }),
            final(render).tile_maps@ == (if old(self).can_swap() {
                match old(self).bindings(old(self).game.other()) {
                    Some(b) => b.bind_tile_maps(old(render).tile_maps@),
                    None => old(render).tile_maps@,
                }
            } else {
                old(render).tile_maps@
            }),
            final(render).sprites@ == (if old(self).can_swap() {
                match old(self).bindings(old(self).game.other()) {
                    Some(b) => b.bind_sprites(old(render).sprites@),
                    None => old(render).sprites@,
                }
            } else {
                old(render).sprites@
            }),
            same_but_game_and_cooldown(*old(self), *final(self)),
    {
        if self.swap_cooldown > SWAP_COOLDOWN {
            self.swap_cooldown = 0;
            match self.game {
                GameMode::Buglympics => self.set_spyder(render),
                GameMode::Spyder => self.set_buglympics(render),
            }
        }
    }
}

/// Two states differ in nothing but the active ruleset.
pub open spec fn same_but_game(a: GameState, b: GameState) -> bool {
    b == (GameState { game: b.game, ..a })
}

/// Two states differ in nothing but the active ruleset and the cooldown of
/// the swap.
pub open spec fn same_but_game_and_cooldown(a: GameState, b: GameState) -> bool {
    b == (GameState { game: b.game, swap_cooldown: b.swap_cooldown, ..a })
}

/// How many frames a mission may take at the start of the game.
pub const MISSION_TIME: u32 = 1800;

/// The time that the mission clock shows before any mission has begun.
pub const IDLE_MISSION_TIME: i32 = 7200;

/// The bindings that the scenes of the game have at its start; a scene without
/// bindings has those of a scene without slots.
pub open spec fn spec_initial_scene_map(scene: usize) -> SceneMapView {
    if scene == TITLE_SCREEN {
        SceneMapView {
            scene,
            both_complete: false,
            buglympics: Bindings {
                tm_ts: map![0usize => 0usize],
                tm_pal: map![0usize => 0usize, 1usize => 2usize],
                sp_ts: Map::empty(),
                sp_pal: Map::empty(),
            },
            spyder: Bindings {
                tm_ts: map![0usize => 1usize],
                tm_pal: map![0usize => 1usize, 1usize => 1usize],
                sp_ts: Map::empty(),
                sp_pal: Map::empty(),
            },
        }
    } else if scene == NATION_SELECT || scene == EVENT_SELECT {
        SceneMapView {
            scene,
            both_complete: false,
            buglympics: Bindings {
                tm_ts: map![0usize => 0usize],
                tm_pal: map![0usize => 0usize, 1usize => 2usize, 2usize => 2usize, 3usize => 2usize, 4usize => 2usize],
                sp_ts: map![0usize => 2usize],
                sp_pal: map![0usize => 2usize],
            },
            spyder: Bindings {
                tm_ts: map![0usize => 1usize],
                tm_pal: map![0usize => 1usize, 1usize => 1usize, 2usize => 1usize, 3usize => 1usize, 4usize => 1usize],
                sp_ts: map![0usize => 2usize],
                sp_pal: map![0usize => 2usize],
            },
        }
    } else if scene == MEDAL_CEREMONY {
        SceneMapView {
            scene,
            both_complete: false,
            buglympics: Bindings {
                tm_ts: map![0usize => 0usize],
                tm_pal: map![0usize => 0usize],
                sp_ts: Map::empty(),
                sp_pal: Map::empty(),
            },
            spyder: Bindings {
                tm_ts: map![0usize => 1usize],
                tm_pal: map![0usize => 1usize],
                sp_ts: Map::empty(),
                sp_pal: Map::empty(),
            },
        }
    } else {
        SceneMapView { scene, ..crate::overlay::spec_default_scene_map() }
    }
}

/// The scenes that have bindings at the start of the game.
pub open spec fn spec_bound_scenes() -> Set<usize> {
    set![TITLE_SCREEN, NATION_SELECT, EVENT_SELECT, MEDAL_CEREMONY, CROSS_COUNTRY, DOWNHILL, CRAGGY]
}

/// The events of the game.
pub open spec fn spec_events() -> Set<usize> {
    set![CROSS_COUNTRY, DOWNHILL, CRAGGY]
}

/// Where the race of an event ends, in pixels.
pub open spec fn spec_finish_line(event: usize) -> (int, int) {
    if event == CROSS_COUNTRY {
        (3024, 416)
    } else if event == DOWNHILL {
        (1440, 3200)
    } else {
        (2256, 384)
    }
}

/// The times on the leaderboard of an event at the start of the game, in
/// frames.
pub open spec fn spec_initial_times(event: usize) -> Seq<u32> {
    if event == CROSS_COUNTRY {
        seq![360u32, 600u32, 960u32]
    } else if event == DOWNHILL {
        seq![600u32, 840u32, 1440u32]
    } else {
        seq![720u32, 960u32, 1500u32]
    }
}

/// A table of one binding.
fn table1(slot: usize, id: usize) -> (table: HashMap<usize, usize>)
    ensures
        table@ == map![slot => id],
{
    broadcast use group_hash_axioms;

    let mut table: HashMap<usize, usize> = HashMap::new();
    table.insert(slot, id);
    table
}

/// A table that binds the first slot to one id and the four slots behind it
/// to another.
fn table5(first: usize, others: usize) -> (table: HashMap<usize, usize>)
    ensures
        table@ == map![0usize => first, 1usize => others, 2usize => others, 3usize => others, 4usize => others],
{
    broadcast use group_hash_axioms;

    let mut table: HashMap<usize, usize> = HashMap::new();
    table.insert(0, first);
    table.insert(1, others);
    table.insert(2, others);
    table.insert(3, others);
    table.insert(4, others);
    table
}

/// A table of two bindings, for the first two slots.
fn table2(first: usize, second: usize) -> (table: HashMap<usize, usize>)
    ensures
        table@ == map![0usize => first, 1usize => second],
{
    broadcast use group_hash_axioms;

    let mut table: HashMap<usize, usize> = HashMap::new();
    table.insert(0, first);
    table.insert(1, second);
    table
}

/// A table without bindings.
fn table0() -> (table: HashMap<usize, usize>)
    ensures
        table@ == Map::<usize, usize>::empty(),
{
    broadcast use group_hash_axioms;

    HashMap::new()
}

/// The bindings that a scene has at the start of the game.
fn initial_scene_map(scene: usize) -> (m: SceneMap)
    ensures
        m@ == spec_initial_scene_map(scene),
{
    if scene == TITLE_SCREEN {
        SceneMap {
            scene,
            both_complete: false,
            bl_tm_ts: table1(0, 0),
            bl_tm_pal: table2(0, 2),
            bl_sp_ts: table0(),
            bl_sp_pal: table0(),
            spy_tm_ts: table1(0, 1),
            spy_tm_pal: table2(1, 1),
            spy_sp_ts: table0(),
            spy_sp_pal: table0(),
        }
    } else if scene == NATION_SELECT || scene == EVENT_SELECT {
        SceneMap {
            scene,
            both_complete: false,
            bl_tm_ts: table1(0, 0),
            bl_tm_pal: table5(0, 2),
            bl_sp_ts: table1(0, 2),
            bl_sp_pal: table1(0, 2),
            spy_tm_ts: table1(0, 1),
            spy_tm_pal: table5(1, 1),
            spy_sp_ts: table1(0, 2),
            spy_sp_pal: table1(0, 2),
        }
    } else if scene == MEDAL_CEREMONY {
        SceneMap {
            scene,
            both_complete: false,
            bl_tm_ts: table1(0, 0),
            bl_tm_pal: table1(0, 0),
            bl_sp_ts: table0(),
            bl_sp_pal: table0(),
            spy_tm_ts: table1(0, 1),
            spy_tm_pal: table1(0, 1),
            spy_sp_ts: table0(),
            spy_sp_pal: table0(),
        }
    } else {
        let mut m = SceneMap::default();
        m.scene = scene;
        m
    }
}

/// The leaderboard of an event at the start of the game: three finishes of
/// one nation, in the given times.
fn initial_standing(name: &str, first: u32, second: u32, third: u32) -> (s: MedalStanding)
    requires
        first <= second <= third,
    ensures
        s.spec_event()@ == name@,
        s@.len() == 3,
        s@[0].time == first && s@[1].time == second && s@[2].time == third,
        forall|i: int| 0 <= i < 3 ==> (#[trigger] s@[i]).nation@ == "Beehama"@ && s@[i].event@ == "biathlon"@,
{
    let mut s = MedalStanding::new(name.to_owned());
    let r1 = BuglympicsEventRecord { nation: "Beehama".to_owned(), event: "biathlon".to_owned(), time: first };
    let r2 = BuglympicsEventRecord { nation: "Beehama".to_owned(), event: "biathlon".to_owned(), time: second };
    let r3 = BuglympicsEventRecord { nation: "Beehama".to_owned(), event: "biathlon".to_owned(), time: third };
    proof {
        crate::records::lemma_place(s@, first);
    }
    s.check_result(r1);
    assert(s@ =~= seq![r1]);
    proof {
        crate::records::lemma_place(s@, second);
    }
    s.check_result(r2);
    assert(s@ =~= seq![r1, r2]);
    proof {
        crate::records::lemma_place(s@, third);
    }
    s.check_result(r3);
    assert(s@ =~= seq![r1, r2, r3]);
    s
}

/// The state at the start of the game: the race is the active ruleset, the
/// title screen is the current scene, every event has its race, its
/// leaderboard and its mission, and nothing has begun.
pub fn init_game_state() -> (s: GameState)
    ensures
        s.wf(),
        s.game == GameMode::Buglympics,
        s.scene_frames == 0 && s.swap_cooldown == 0 && s.input_cooldown == 0,
        s.current_scene == TITLE_SCREEN && s.current_shot == 0 && s.event == TITLE_SCREEN,
        !s.last_event_success && !s.bl_finished && !s.spy_finished,
        s.bl_timer == 0 && s.spy_timer == IDLE_MISSION_TIME && s.hit_count == 0,
        s.events@.dom() == spec_bound_scenes(),
        forall|scene: usize|
            spec_bound_scenes().contains(scene) ==> (#[trigger] s.events@[scene])@ == spec_initial_scene_map(
                scene,
            ),
        s.world.gravity == crate::world::GRAVITY,
        s.world.collision_set@ == Map::<usize, crate::attr::TileAttr>::empty(),
        s.world.collision_set.spec_tile_set_id() == 0,
        s.buglympics.nation@ == Seq::<char>::empty(),
        s.buglympics.events@.dom() == spec_events(),
        s.buglympics.medals@.dom() == spec_events(),
        s.spyder.events@.dom() == spec_events(),
        s.spyder.results@ == Map::<usize, SpyderEventRecord>::empty(),
        forall|event: usize|
            spec_events().contains(event) ==> {
                &&& (#[trigger] s.buglympics.events@[event]).start_line@ == seq![100u16, 100u16]
                &&& s.buglympics.events@[event].finish_line[0] == spec_finish_line(event).0
                &&& s.buglympics.events@[event].finish_line[1] == spec_finish_line(event).1
                &&& s.buglympics.medals@[event]@.len() == 3
                &&& forall|i: int|
                    0 <= i < 3 ==> (#[trigger] s.buglympics.medals@[event]@[i]).time == spec_initial_times(
                        event,
                    )[i]
                &&& s.spyder.events@[event].start_line@ == seq![100u16, 100u16]
                &&& s.spyder.events@[event].targets@.len() == 0
                &&& s.spyder.events@[event].time_limit == MISSION_TIME
            },
        s.player@ == crate::player::Actor::spawned(1, 0, 0),
        s.player.launcher@ == crate::launcher::spec_new_launcher(),
        s.menu.options@.len() == 1,
        s.menu.options@[0]@ == "PRESS ENTER"@,
        s.menu.option_positions@[0]@ == seq![112u16, 176u16],
        s.menu.current_selection == 0 && !s.menu.confirmed,
        s.menu.input_time == 0 && s.menu.input_threshold == 30,
        s.sfx_queue@.len() == 0,
        s.inputs@ == Set::<crate::input::InputCode>::empty(),
{
    broadcast use group_hash_axioms;

    let mut races: HashMap<usize, BuglympicsEvent> = HashMap::new();
    races.insert(CROSS_COUNTRY, BuglympicsEvent { start_line: [100, 100], finish_line: [3024, 416] });
    races.insert(DOWNHILL, BuglympicsEvent { start_line: [100, 100], finish_line: [1440, 3200] });
    races.insert(CRAGGY, BuglympicsEvent { start_line: [100, 100], finish_line: [2256, 384] });
    let mut medals: HashMap<usize, MedalStanding> = HashMap::new();
    medals.insert(CROSS_COUNTRY, initial_standing("CROSS-COUNTRY BIATHLON", 360, 600, 960));
    medals.insert(DOWNHILL, initial_standing("DOWNHILL BIATHLON", 600, 840, 1440));
    medals.insert(CRAGGY, initial_standing("CRAGGY BIATHLON", 720, 960, 1500));
    let mut missions: HashMap<usize, SpyderEvent> = HashMap::new();
    missions.insert(CROSS_COUNTRY, SpyderEvent { start_line: [100, 100], targets: Vec::new(), time_limit: MISSION_TIME });
    missions.insert(DOWNHILL, SpyderEvent { start_line: [100, 100], targets: Vec::new(), time_limit: MISSION_TIME });
    missions.insert(CRAGGY, SpyderEvent { start_line: [100, 100], targets: Vec::new(), time_limit: MISSION_TIME });
    let mut events: HashMap<usize, SceneMap> = HashMap::new();
    events.insert(TITLE_SCREEN, initial_scene_map(TITLE_SCREEN));
    events.insert(NATION_SELECT, initial_scene_map(NATION_SELECT));
    events.insert(EVENT_SELECT, initial_scene_map(EVENT_SELECT));
    events.insert(MEDAL_CEREMONY, initial_scene_map(MEDAL_CEREMONY));
    events.insert(CROSS_COUNTRY, initial_scene_map(CROSS_COUNTRY));
    events.insert(DOWNHILL, initial_scene_map(DOWNHILL));
    events.insert(CRAGGY, initial_scene_map(CRAGGY));
    assert(events@.dom() =~= spec_bound_scenes());
    assert(races@.dom() =~= spec_events());
    assert(medals@.dom() =~= spec_events());
    assert(missions@.dom() =~= spec_events());
    GameState {
        game: GameMode::Buglympics,
        scene_frames: 0,
        swap_cooldown: 0,
        input_cooldown: 0,
        current_scene: TITLE_SCREEN,
        current_shot: 0,
        event: TITLE_SCREEN,
        last_event_success: false,
        events,
        world: WorldState::new(),
        buglympics: BuglympicsState { nation: String::new(), events: races, medals },
        bl_timer: 0,
        bl_finished: false,
        spyder: SpyderState { events: missions, results: HashMap::new() },
        spy_timer: IDLE_MISSION_TIME,
        spy_finished: false,
        hit_count: 0,
        player: Player::new(1, [0, 0]),
        menu: crate::scenes::main_menu(),
        sfx_queue: Vec::new(),
        inputs: Inputs::new(),
    }
}

} // verus!
