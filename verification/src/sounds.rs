//! The sound effects the simulation asks for.
//!
//! The simulation synthesises nothing: it appends requests to a queue that the
//! audio side drains.

use vstd::prelude::*;

verus! {

/// The effects of the game.
#[derive(Clone, Copy, Debug, PartialEq, Eq, Structural)]
pub enum SFX {
    JumpA,
    JumpB,
    Fire,
    Ski,
    Select,
    Switch,
}

/// One request to play an effect.
#[derive(Clone, Copy, Debug, PartialEq, Eq, Structural)]
pub struct Cue {
    pub effect: SFX,
    /// The pitch, in hertz.
    pub pitch: u32,
    /// Which of the prepared instruments plays it.
    pub instrument: usize,
    /// For how many samples it sounds.
    pub num_samples: usize,
}

/// The request that plays an effect for a number of samples.
pub open spec fn spec_cue(effect: SFX, num_samples: usize) -> Cue {
    match effect {
        SFX::JumpA => Cue { effect, pitch: 200, instrument: 2, num_samples },
        SFX::JumpB => Cue { effect, pitch: 110, instrument: 1, num_samples },
        SFX::Ski => Cue { effect, pitch: 20, instrument: 0, num_samples },
        SFX::Fire => Cue { effect, pitch: 10, instrument: 1, num_samples },
        SFX::Select => Cue { effect, pitch: 300, instrument: 2, num_samples },
        SFX::Switch => Cue { effect, pitch: 500, instrument: 2, num_samples },
    }
}

/// Appends the request for an effect to the outgoing queue.
pub fn play_effect(queue: &mut Vec<Cue>, effect: SFX, num_samples: usize)
    ensures
        final(queue)@ == old(queue)@.push(spec_cue(effect, num_samples)),
{
    let cue = match effect {
        SFX::JumpA => Cue { effect, pitch: 200, instrument: 2, num_samples },
        SFX::JumpB => Cue { effect, pitch: 110, instrument: 1, num_samples },
        SFX::Ski => Cue { effect, pitch: 20, instrument: 0, num_samples },
        SFX::Fire => Cue { effect, pitch: 10, instrument: 1, num_samples },
        SFX::Select => Cue { effect, pitch: 300, instrument: 2, num_samples },
        SFX::Switch => Cue { effect, pitch: 500, instrument: 2, num_samples },
    };
    queue.push(cue);
}

} // verus!
