//! The numbers of the game, as fixed-point values: lengths in screen units,
//! durations in seconds, speeds in units per second.

use vstd::prelude::*;
use crate::fixed::Fixed;

verus! {

// Window and display
pub const WINDOW_WIDTH: Fixed = 800_000_000;
pub const WINDOW_HEIGHT: Fixed = 600_000_000;
/// How far past the edge of the window an object may drift before it is removed.
pub const OFFSCREEN_MARGIN: Fixed = 10_000_000;
/// Height above the lower edge of the window at which the player flies and
/// which no invader may pass.
pub const BOTTOM_LINE: Fixed = 50_000_000;

// Player
pub const PLAYER_SIZE: Fixed = 40_000_000;
pub const PLAYER_SPEED: Fixed = 300_000_000;

// Bullets
pub const BULLET_SIZE: Fixed = 5_000_000;
pub const BULLET_SPEED: Fixed = 400_000_000;

// Invaders
pub const ENEMY_SIZE: Fixed = 30_000_000;
pub const ENEMY_SPEED: Fixed = 50_000_000;
pub const ENEMY_ROWS: usize = 5;
pub const ENEMY_COLS: usize = 11;
pub const ENEMY_SPACING: Fixed = 60_000_000;
pub const ENEMY_SHOOT_INTERVAL: Fixed = 2_000_000;
/// Distance of the top row of the formation from the upper edge of the window.
pub const FORMATION_TOP: Fixed = 100_000_000;
/// How far an invader may stray from its anchor before the formation turns.
pub const FORMATION_REACH: Fixed = 100_000_000;
/// How far the formation drops when it turns.
pub const FORMATION_DROP: Fixed = 20_000_000;
/// Points for one invader.
pub const ENEMY_REWARD: u32 = 10;

// Starfield
pub const STAR_SPAWN_INTERVAL: Fixed = 50_000;
pub const STAR_BASE_SPEED: Fixed = 150_000_000;
pub const STAR_MIN_SIZE: Fixed = 1_000_000;
pub const STAR_MAX_SIZE: Fixed = 4_000_000;
pub const STAR_MIN_BRIGHTNESS: Fixed = 300_000;
pub const STAR_MAX_BRIGHTNESS: Fixed = 1_000_000;
/// Distance from the centre of the default window to its corner.
pub const STAR_MAX_DISTANCE: Fixed = 721_110_000;
/// A new star appears at most this far from the centre.
pub const STAR_SPAWN_RADIUS: Fixed = 10_000_000;

// Explosions
pub const EXPLOSION_PARTICLES: usize = 20;
pub const EXPLOSION_LIFETIME: Fixed = 800_000;
pub const EXPLOSION_PARTICLE_SPEED: Fixed = 200_000_000;
pub const EXPLOSION_PARTICLE_SIZE: Fixed = 3_000_000;

// Game over
/// Time on the game-over screen before a restart is accepted.
pub const RESTART_DELAY: Fixed = 1_500_000;
/// Number of entries that the high-score ledger keeps.
pub const LEDGER_SIZE: usize = 5;

} // verus!
