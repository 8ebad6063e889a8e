//! The abstract input codes that the simulation consumes each frame.

use vstd::prelude::*;

verus! {

/// What a player can ask for.
#[derive(Clone, Copy, Debug, PartialEq, Eq, Hash, Structural)]
pub enum InputCode {
    Up,
    Down,
    Left,
    Right,
    Jump,
    Fire,
    Confirm,
    Swap,
}

/// How far each button of a game pad is pressed; 0 is released.
#[derive(Clone, Copy, Debug, PartialEq, Eq, Structural)]
pub struct PadControl {
    pub up: u8,
    pub down: u8,
    pub left: u8,
    pub right: u8,
    pub a: u8,
    pub b: u8,
    pub x: u8,
    pub start: u8,
}

impl PadControl {
    /// How far the button behind an input code is pressed.
    pub open spec fn level(self, code: InputCode) -> u8 {
        match code {
            InputCode::Up => self.up,
            InputCode::Down => self.down,
            InputCode::Left => self.left,
            InputCode::Right => self.right,
            InputCode::Jump => self.a,
            InputCode::Fire => self.x,
            InputCode::Confirm => self.start,
            InputCode::Swap => self.b,
        }
    }
}

/// The set of input codes that are active in one frame.
#[derive(Clone, Copy, Debug)]
pub struct Inputs {
    up: bool,
    down: bool,
    left: bool,
    right: bool,
    jump: bool,
    fire: bool,
    confirm: bool,
    swap: bool,
}

impl View for Inputs {
    type V = Set<InputCode>;

    closed spec fn view(&self) -> Set<InputCode> {
        Set::new(
            |code: InputCode|
                match code {
                    InputCode::Up => self.up,
                    InputCode::Down => self.down,
                    InputCode::Left => self.left,
                    InputCode::Right => self.right,
                    InputCode::Jump => self.jump,
                    InputCode::Fire => self.fire,
                    InputCode::Confirm => self.confirm,
                    InputCode::Swap => self.swap,
                },
        )
    }
}

impl Inputs {
    /// No input at all.
    pub fn new() -> (inputs: Inputs)
        ensures
            inputs@ == Set::<InputCode>::empty(),
    {
        let inputs = Inputs {
            up: false,
            down: false,
            left: false,
            right: false,
            jump: false,
            fire: false,
            confirm: false,
            swap: false,
        };
        assert(inputs@ =~= Set::<InputCode>::empty());
        inputs
    }

    /// Makes an input code active.
    pub fn insert(&mut self, code: InputCode)
        ensures
            final(self)@ == old(self)@.insert(code),
    {
        match code {
            InputCode::Up => self.up = true,
            InputCode::Down => self.down = true,
            InputCode::Left => self.left = true,
            InputCode::Right => self.right = true,
            InputCode::Jump => self.jump = true,
            InputCode::Fire => self.fire = true,
            InputCode::Confirm => self.confirm = true,
            InputCode::Swap => self.swap = true,
        }
        assert(self@ =~= old(self)@.insert(code));
    }

    /// Whether an input code is active.
    pub fn contains(&self, code: InputCode) -> (b: bool)
        ensures
            b == self@.contains(code),
    {
        match code {
            InputCode::Up => self.up,
            InputCode::Down => self.down,
            InputCode::Left => self.left,
            InputCode::Right => self.right,
            InputCode::Jump => self.jump,
            InputCode::Fire => self.fire,
            InputCode::Confirm => self.confirm,
            InputCode::Swap => self.swap,
        }
    }
}

/// The input codes of a game pad: a code is active exactly when its button is
/// pressed at all.
pub fn map_input(controller: PadControl) -> (inputs: Inputs)
    ensures
        forall|code: InputCode| inputs@.contains(code) <==> controller.level(code) > 0,
{
    let inputs = Inputs {
        up: controller.up > 0,
        down: controller.down > 0,
        left: controller.left > 0,
        right: controller.right > 0,
        jump: controller.a > 0,
        fire: controller.x > 0,
        confirm: controller.start > 0,
        swap: controller.b > 0,
    };
    inputs
}

} // verus!
