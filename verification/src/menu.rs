//! A menu: a list of options and a cursor that the direction keys move.
//!
//! A held direction key moves the cursor only after it has been held for more
//! frames than the menu's threshold, so that one press moves it by one option.

use vstd::prelude::*;
use crate::input::{InputCode, Inputs};
use crate::render::{RenderState, Sprite};
use crate::sounds::{play_effect, spec_cue, Cue, SFX};

verus! {

/// For how many samples the effects of a menu sound.
pub const MENU_SAMPLES: usize = 800;

/// The threshold that a menu has once it is loaded.
pub const LOADED_THRESHOLD: u16 = 3;

/// A menu.
pub struct Menu {
    pub name: String,
    pub screen_x: u16,
    pub screen_y: u16,
    pub options: Vec<String>,
    /// Where each option stands on the screen, in pixels.
    pub option_positions: Vec<[u16; 2]>,
    pub current_selection: usize,
    pub confirmed: bool,
    pub text_tile_set_name: String,
    pub palette_name: String,
    pub font_size: u16,
    pub cursor_tile_set_id: usize,
    pub cursor_tile_id: usize,
    pub cursor_sprite_id: usize,
    /// Where the cursor stands relative to the selected option, in pixels.
    pub cursor_offset: [i16; 2],
    /// For how many frames a key has been held.
    pub input_time: u16,
    pub input_threshold: u16,
}

/// The part of a menu that input changes.
pub struct Cursor {
    pub selection: usize,
    pub input_time: u16,
    pub confirmed: bool,
}

/// One more frame of holding a key, as far as frames are counted.
pub open spec fn spec_held_longer(input_time: u16) -> u16 {
    if input_time < u16::MAX {
        (input_time + 1) as u16
    } else {
        input_time
    }
}

/// A key for moving the cursor forward is held.
pub open spec fn spec_forward(keys: Set<InputCode>) -> bool {
    keys.contains(InputCode::Down) || keys.contains(InputCode::Right)
}

/// A key for moving the cursor backward is held.
pub open spec fn spec_backward(keys: Set<InputCode>) -> bool {
    keys.contains(InputCode::Up) || keys.contains(InputCode::Left)
}

/// A key for confirming the selection is held.
pub open spec fn spec_confirms(keys: Set<InputCode>) -> bool {
    keys.contains(InputCode::Fire) || keys.contains(InputCode::Confirm)
}

/// A coordinate of the cursor: the option's coordinate moved by the offset,
/// held within what the renderer can address.
pub open spec fn spec_cursor_coord(position: u16, offset: i16) -> u16 {
    if position + offset < 0 {
        0
    } else if position + offset > u16::MAX {
        u16::MAX
    } else {
        (position + offset) as u16
    }
}

impl Cursor {
    /// A held key moves the cursor in this frame: it has been held for longer
    /// than the threshold and there is more than one option.
    pub open spec fn moves(self, options: int, threshold: u16) -> bool {
        spec_held_longer(self.input_time) > threshold && options > 1
    }

    /// The cursor after the keys for moving forward are handled; it may
    /// stand behind the last option for the moment.
    pub open spec fn after_forward(self, keys: Set<InputCode>, options: int, threshold: u16) -> Cursor {
        if !spec_forward(keys) {
            self
        } else if self.moves(options, threshold) {
            Cursor { selection: (self.selection + 1) as usize, input_time: 0, ..self }
        } else {
            Cursor { input_time: spec_held_longer(self.input_time), ..self }
        }
    }

    /// The cursor after the keys for moving backward are handled: before the
    /// first option comes the last.
    pub open spec fn after_backward(self, keys: Set<InputCode>, options: int, threshold: u16) -> Cursor {
        if !spec_backward(keys) {
            self
        } else if self.moves(options, threshold) {
            Cursor {
                selection: if self.selection == 0 {
                    (options - 1) as usize
                } else {
                    (self.selection - 1) as usize
                },
                input_time: 0,
                ..self
            }
        } else {
            Cursor { input_time: spec_held_longer(self.input_time), ..self }
        }
    }

    /// The cursor after one frame of input: forward, backward, confirm; a
    /// cursor behind the last option goes to the first, and without any input
    /// no key has been held.
    pub open spec fn after_input(self, keys: Set<InputCode>, options: int, threshold: u16) -> Cursor {
        let moved = self.after_forward(keys, options, threshold).after_backward(keys, options, threshold);
        Cursor {
            selection: if moved.selection >= options {
                0
            } else {
                moved.selection
            },
            input_time: if spec_forward(keys) || spec_backward(keys) || spec_confirms(keys) {
                moved.input_time
            } else {
                0
            },
            confirmed: self.confirmed || spec_confirms(keys),
        }
    }

    /// The effects of one frame of input, in their order.
    pub open spec fn cues(self, keys: Set<InputCode>, options: int, threshold: u16) -> Seq<Cue> {
        let forward = if spec_forward(keys) && self.moves(options, threshold) {
            seq![spec_cue(SFX::Switch, MENU_SAMPLES)]
        } else {
            Seq::empty()
        };
        let backward = if spec_backward(keys) && self.after_forward(keys, options, threshold).moves(
            options,
            threshold,
        ) {
            seq![spec_cue(SFX::Switch, MENU_SAMPLES)]
        } else {
            Seq::empty()
        };
        let confirm = if spec_confirms(keys) {
            seq![spec_cue(SFX::Select, MENU_SAMPLES)]
        } else {
            Seq::empty()
        };
        forward + backward + confirm
    }
}

impl Menu {
    /// The menu has an option, a position for every option, and a selected
    /// option.
    pub open spec fn wf(&self) -> bool {
        &&& self.options@.len() >= 1
        &&& self.option_positions@.len() == self.options@.len()
        &&& self.current_selection < self.options@.len()
    }

    /// The part of the menu that input changes.
    pub open spec fn cursor(&self) -> Cursor {
        Cursor {
            selection: self.current_selection,
            input_time: self.input_time,
            confirmed: self.confirmed,
        }
    }

    /// The sprite of the cursor beside the selected option.
    pub open spec fn cursor_sprite(&self, shown: Sprite) -> Sprite
        recommends
            self.wf(),
    {
        Sprite {
            scene_x: spec_cursor_coord(
                self.option_positions@[self.current_selection as int][0],
                self.cursor_offset[0],
            ),
            scene_y: spec_cursor_coord(
                self.option_positions@[self.current_selection as int][1],
                self.cursor_offset[1],
            ),
            ..shown
        }
    }

    /// Whether the menu has an option, a position for every option, and a
    /// selected option.
    pub fn well_formed(&self) -> (b: bool)
        ensures
            b == self.wf(),
    {
        self.options.len() >= 1 && self.option_positions.len() == self.options.len()
            && self.current_selection < self.options.len()
    }

    /// Where the cursor stands: beside the selected option.
    fn cursor_position(&self) -> (at: (u16, u16))
        requires
            self.wf(),
        ensures
            at.0 == spec_cursor_coord(
                self.option_positions@[self.current_selection as int][0],
                self.cursor_offset[0],
            ),
            at.1 == spec_cursor_coord(
                self.option_positions@[self.current_selection as int][1],
                self.cursor_offset[1],
            ),
    {
        let position = self.option_positions[self.current_selection];
        (cursor_coord(position[0], self.cursor_offset[0]), cursor_coord(position[1], self.cursor_offset[1]))
    }

    /// Readies the menu for input: no key has been held, the threshold is that
    /// of a loaded menu, and the cursor gets a sprite of its own beside the
    /// selected option.
    pub fn load(&mut self, palette_id: usize, render: &mut RenderState)
        requires
            old(self).wf(),
        ensures
            final(self).wf(),
            final(self).cursor_sprite_id == old(render).sprites@.len(),
            *final(self) == (Menu {
                input_time: 0,
                input_threshold: LOADED_THRESHOLD,
                cursor_sprite_id: final(self).cursor_sprite_id,
                ..*old(self)
            }),
            final(render).tile_maps@ == old(render).tile_maps@,
            final(render).sprites@ == old(render).sprites@.push(
                old(self).cursor_sprite(
                    Sprite {
                        tile_set_id: old(self).cursor_tile_set_id,
                        palette_id,
                        frame: old(self).cursor_tile_id,
                        width: old(self).font_size,
                        height: old(self).font_size,
                        scene_x: 0,
                        scene_y: 0,
                        reverse_x: false,
                        hide: false,
                    },
                ),
            ),
    {
        self.input_time = 0;
        self.input_threshold = LOADED_THRESHOLD;
        let (x, y) = self.cursor_position();
        let sprite = Sprite {
            tile_set_id: self.cursor_tile_set_id,
            palette_id,
            frame: self.cursor_tile_id,
            width: self.font_size,
            height: self.font_size,
            scene_x: x,
            scene_y: y,
            reverse_x: false,
            hide: false,
        };
        self.cursor_sprite_id = render.add_sprite(sprite);
    }

    /// Handles one frame of input: moves the cursor, confirms the selection,
    /// asks for the effects, and puts the cursor's sprite beside the selected
    /// option.
    pub fn update_cursor(&mut self, keys: &Inputs, render: &mut RenderState, cues: &mut Vec<Cue>)
        requires
            old(self).wf(),
        ensures
            final(self).wf(),
            final(self).cursor() == old(self).cursor().after_input(
                keys@,
                old(self).options@.len() as int,
                old(self).input_threshold,
            ),
            *final(self) == (Menu {
                current_selection: final(self).current_selection,
                input_time: final(self).input_time,
                confirmed: final(self).confirmed,
                ..*old(self)
            }),
            final(cues)@ == old(cues)@ + old(self).cursor().cues(
                keys@,
                old(self).options@.len() as int,
                old(self).input_threshold,
            ),
            final(render).tile_maps@ == old(render).tile_maps@,
            final(render).sprites@ == (if final(self).cursor_sprite_id < old(render).sprites@.len() {
                old(render).sprites@.update(
                    final(self).cursor_sprite_id as int,
                    final(self).cursor_sprite(old(render).sprites@[final(self).cursor_sprite_id as int]),
                )
            } else {
                old(render).sprites@
            }),
    {
        let forward: bool = keys.contains(InputCode::Down) || keys.contains(InputCode::Right);
        let backward: bool = keys.contains(InputCode::Up) || keys.contains(InputCode::Left);
        let confirms: bool = keys.contains(InputCode::Fire) || keys.contains(InputCode::Confirm);
        let several: bool = self.options.len() > 1;
        if forward {
            self.input_time = held_longer(self.input_time);
            if self.input_time > self.input_threshold && several {
                self.current_selection = self.current_selection + 1;
                play_effect(cues, SFX::Switch, MENU_SAMPLES);
                self.input_time = 0;
            }
        }
        if backward {
            self.input_time = held_longer(self.input_time);
            if self.input_time > self.input_threshold && several {
                if self.current_selection == 0 {
                    self.current_selection = self.options.len() - 1;
                } else {
                    self.current_selection = self.current_selection - 1;
                }
                play_effect(cues, SFX::Switch, MENU_SAMPLES);
                self.input_time = 0;
            }
        }
        if confirms {
            self.confirmed = true;
            play_effect(cues, SFX::Select, MENU_SAMPLES);
        }
        if self.current_selection >= self.options.len() {
            self.current_selection = 0;
        }
        if !(forward || backward || confirms) {
            self.input_time = 0;
        }
        assert(cues@ =~= old(cues)@ + old(self).cursor().cues(
            keys@,
            old(self).options@.len() as int,
            old(self).input_threshold,
        ));
        let (x, y) = self.cursor_position();
        if self.cursor_sprite_id < render.sprites.len() {
            let mut sprite = render.sprites[self.cursor_sprite_id];
            sprite.scene_x = x;
            sprite.scene_y = y;
            render.sprites.set(self.cursor_sprite_id, sprite);
        }
    }
}

/// One more frame of holding a key, as far as frames are counted.
fn held_longer(input_time: u16) -> (t: u16)
    ensures
        t == spec_held_longer(input_time),
{
    if input_time < u16::MAX {
        input_time + 1
    } else {
        input_time
    }
}

/// A coordinate of the cursor.
fn cursor_coord(position: u16, offset: i16) -> (c: u16)
    ensures
        c == spec_cursor_coord(position, offset),
{
    let sum: i32 = (position as i32) + (offset as i32);
    if sum < 0 {
        0
    } else if sum > 65535 {
        65535
    } else {
        sum as u16
    }
}

/// Builds the main menu of the game, with its two options, and checks that it
/// is a menu that can take input.
pub fn _test_menu()
{
    let title_screen = Menu {
        name: "MainMenu".to_owned(),
        screen_x: 0,
        screen_y: 0,
        options: vec!["Start".to_owned(), "Options".to_owned()],
        option_positions: vec![[128, 128], [128, 160]],
        current_selection: 0,
        confirmed: false,
        text_tile_set_name: "tileset_name".to_owned(),
        palette_name: "palette_name".to_owned(),
        font_size: 16,
        cursor_tile_set_id: 0,
        cursor_tile_id: 16,
        cursor_sprite_id: 0,
        cursor_offset: [-16, 0],
        input_time: 0,
        input_threshold: 30,
    };
    assert(title_screen.wf());
}

} // verus!
