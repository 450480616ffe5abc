//! What a game starts with: the player, the score readout, the music, and
//! the formation of invaders.

use vstd::prelude::*;
use crate::components::{
    BackgroundMusic, Color, Enemy, EnemyKind, Player, Position, Score, TextStyle, Velocity,
};
use crate::constants::{
    BOTTOM_LINE, ENEMY_COLS, ENEMY_ROWS, ENEMY_SPACING, ENEMY_SPEED, FORMATION_TOP,
};
use crate::fixed::{
    fixed_add, fixed_half, fixed_neg, fixed_sub, half, sat_add, sat_neg, sat_sub, Fixed, ONE,
};
use crate::resources::WindowDimensions;
use crate::world::{World, WorldView};

verus! {

/// Takes over the size of the window, if there is a window to measure.
pub fn initialize_window_dimensions(
    window_dims: &mut WindowDimensions,
    measured: Option<WindowDimensions>,
)
    ensures
        *final(window_dims) == match measured {
            Some(window) => window,
            None => *old(window_dims),
        },
{
    if let Some(window) = measured {
        window_dims.width = window.width;
        window_dims.height = window.height;
    }
}

/// Where the player starts: in the middle, on the bottom line.
pub open spec fn player_start(window: WindowDimensions) -> Position {
    Position { x: 0, y: sat_add(sat_neg(half(window.height)), BOTTOM_LINE) }
}

/// The score readout as it is put up: zero points, in the upper left corner.
pub open spec fn score_readout() -> Score {
    Score {
        value: 0,
        style: TextStyle {
            font_size: 30_000_000,
            color: Color::opaque(ONE, ONE, ONE),
            top: 10_000_000,
            left: 10_000_000,
        },
    }
}

/// The world with a fresh ship, the score readout and the music.
pub open spec fn with_player(w: WorldView, window: WindowDimensions) -> WorldView {
    WorldView {
        player: Some(Player { position: player_start(window) }),
        score_text: Some(score_readout()),
        music: Some(BackgroundMusic),
        ..w
    }
}

/// Spawns the player on the bottom line, puts up the score readout and
/// starts the music.
pub fn spawn_player(world: &mut World, window: &WindowDimensions)
    ensures
        final(world)@ == with_player(old(world)@, *window),
{
    world.player = Some(
        Player {
            position: Position {
                x: 0,
                y: fixed_add(fixed_neg(fixed_half(window.height)), BOTTOM_LINE),
            },
        },
    );
    world.score_text = Some(
        Score {
            value: 0,
            style: TextStyle {
                font_size: 30_000_000,
                color: Color::srgb(ONE, ONE, ONE),
                top: 10_000_000,
                left: 10_000_000,
            },
        },
    );
    world.music = Some(BackgroundMusic);
}

/// The picture that the invaders of a row wear.
pub open spec fn kind_of_row(row: int) -> EnemyKind {
    if row == 0 {
        EnemyKind::Enemy3
    } else if row <= 2 {
        EnemyKind::Enemy2
    } else {
        EnemyKind::Enemy1
    }
}

/// The invader of the given row and column of a fresh formation: the columns
/// are centred, the top row stands `FORMATION_TOP` below the upper edge, rows
/// and columns are `ENEMY_SPACING` apart, and each invader is anchored where
/// it stands.
pub open spec fn enemy_at(row: int, col: int, window: WindowDimensions) -> Enemy {
    let x = (-(ENEMY_COLS - 1) * ENEMY_SPACING / 2 + col * ENEMY_SPACING) as i64;
    Enemy {
        position: Position {
            x,
            y: sat_sub(sat_sub(half(window.height), FORMATION_TOP), (row * ENEMY_SPACING) as i64),
        },
        velocity: Velocity { x: ENEMY_SPEED, y: 0 },
        original_x: x,
        kind: kind_of_row(row),
    }
}

/// A fresh formation, row by row from the top, each row from the left.
pub open spec fn formation(window: WindowDimensions) -> Seq<Enemy> {
    Seq::new(
        (ENEMY_ROWS * ENEMY_COLS) as nat,
        |k: int| enemy_at(k / ENEMY_COLS as int, k % ENEMY_COLS as int, window),
    )
}

/// The world with a fresh formation.
pub open spec fn with_formation(w: WorldView, window: WindowDimensions) -> WorldView {
    WorldView { enemies: w.enemies + formation(window), ..w }
}

/// Spawns a fresh formation of five rows of eleven invaders.
pub fn spawn_enemies(world: &mut World, window: &WindowDimensions)
    ensures
        final(world)@ == with_formation(old(world)@, *window),
{
    let start_x: Fixed = -300_000_000;
    let start_y: Fixed = fixed_sub(fixed_half(window.height), FORMATION_TOP);
    let ghost fresh = formation(*window);

    let mut row: usize = 0;
    while row < ENEMY_ROWS
        invariant
            row <= ENEMY_ROWS,
            start_x == -300_000_000,
            start_y == sat_sub(half(window.height), FORMATION_TOP),
            fresh == formation(*window),
            world@ == (WorldView {
                enemies: old(world)@.enemies + fresh.take(row * ENEMY_COLS),
                ..old(world)@
            }),
        decreases ENEMY_ROWS - row,
    {
        let mut col: usize = 0;
        while col < ENEMY_COLS
            invariant
                row < ENEMY_ROWS,
                col <= ENEMY_COLS,
                start_x == -300_000_000,
                start_y == sat_sub(half(window.height), FORMATION_TOP),
                fresh == formation(*window),
                world@ == (WorldView {
                    enemies: old(world)@.enemies + fresh.take(row * ENEMY_COLS + col),
                    ..old(world)@
                }),
            decreases ENEMY_COLS - col,
        {
            let x: Fixed = start_x + (col as i64) * ENEMY_SPACING;
            let y: Fixed = fixed_sub(start_y, (row as i64) * ENEMY_SPACING);
            let kind = if row == 0 {
                EnemyKind::Enemy3
            } else if row <= 2 {
                EnemyKind::Enemy2
            } else {
                EnemyKind::Enemy1
            };
            let ghost k = row * ENEMY_COLS + col;
            world.enemies.push(
                Enemy {
                    position: Position { x, y },
                    velocity: Velocity { x: ENEMY_SPEED, y: 0 },
                    original_x: x,
                    kind,
                },
            );
            assert(k / ENEMY_COLS as int == row && k % ENEMY_COLS as int == col);
            assert(fresh[k] == enemy_at(row as int, col as int, *window));
            assert(world@.enemies =~= old(world)@.enemies + fresh.take(k + 1));
            col = col + 1;
        }
        row = row + 1;
    }
    assert(fresh.take((ENEMY_ROWS * ENEMY_COLS) as int) =~= fresh);
}

} // verus!
