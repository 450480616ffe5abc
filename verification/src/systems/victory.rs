//! The game is won when no invader is left.

use vstd::prelude::*;
use crate::components::Enemy;
use crate::resources::{GamePhase, GameState, NextState};
use crate::world::World;

verus! {

/// The state after the count of the invaders: the game is won if none is
/// left.
pub open spec fn judged(state: GameState, enemies: Seq<Enemy>) -> GameState {
    GameState { victory: state.victory || enemies.len() == 0, ..state }
}

/// What a victory asks for: the game-over phase.
pub open spec fn victory_request(enemies: Seq<Enemy>, next_state: NextState) -> NextState {
    if enemies.len() == 0 {
        NextState::Pending(GamePhase::GameOver)
    } else {
        next_state
    }
}

/// Declares the victory and asks for the game-over phase, if no invader is
/// left.
pub fn check_all_enemies_destroyed(
    world: &World,
    next_state: &mut NextState,
    state: &mut GameState,
)
    ensures
        *final(state) == judged(*old(state), world@.enemies),
        *final(next_state) == victory_request(world@.enemies, *old(next_state)),
{
    if world.enemies.len() == 0 {
        state.victory = true;
        next_state.set(GamePhase::GameOver);
    }
}

} // verus!
