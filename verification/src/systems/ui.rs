//! The score readout.

use vstd::prelude::*;
use crate::components::Score;
use crate::resources::GameState;
use crate::world::{World, WorldView};

verus! {

/// The world with the score readout, if there is one, showing `score`.
pub open spec fn after_score_update(w: WorldView, score: u32) -> WorldView {
    WorldView {
        score_text: match w.score_text {
            Some(readout) => Some(Score { value: score, ..readout }),
            None => None,
        },
        ..w
    }
}

/// Brings the score readout, if there is one, up to date. The answer says
/// whether the number that it shows has changed, so that it is drawn anew
/// only then.
pub fn update_score_display(world: &mut World, state: &GameState) -> (redraw: bool)
    ensures
        final(world)@ == after_score_update(old(world)@, state.score),
        redraw == match old(world)@.score_text {
            Some(readout) => readout.value != state.score,
            None => false,
        },
{
    if let Some(readout) = world.score_text {
        if readout.value != state.score {
            world.score_text = Some(Score { value: state.score, style: readout.style });
            return true;
        }
    }
    false
}

} // verus!
