//! The invaders: they march as one formation, fire at a steady beat, and win
//! when one of them reaches the bottom line.

use vstd::prelude::*;
use crate::components::{Enemy, EnemyBullet, Position, Sound, Velocity};
use crate::constants::{
    BOTTOM_LINE, BULLET_SPEED, ENEMY_SHOOT_INTERVAL, ENEMY_SIZE, ENEMY_SPEED, FORMATION_DROP,
    FORMATION_REACH, WINDOW_HEIGHT,
};
use crate::fixed::{
    farther_than, fixed_add, fixed_half, fixed_mul, fixed_neg, fixed_sub, fixed_travel, gap, half,
    sat_add, sat_mul, sat_neg, sat_sub, travel, Fixed,
};
use crate::random::random_below;
use crate::resources::{GamePhase, GameState, NextState};
use crate::world::{World, WorldView};

verus! {

/// Whether an invader has strayed from its anchor by more than
/// `FORMATION_REACH`.
pub open spec fn strayed(enemy: Enemy) -> bool {
    gap(enemy.position.x, enemy.original_x) > FORMATION_REACH
}

/// Whether the formation turns: some invader has strayed too far.
pub open spec fn turns(enemies: Seq<Enemy>) -> bool {
    exists|i: int| 0 <= i < enemies.len() && strayed(#[trigger] enemies[i])
}

/// The heading of the formation after a frame: reversed if it turns.
pub open spec fn heading_after(enemies: Seq<Enemy>, direction: Fixed) -> Fixed {
    if turns(enemies) {
        sat_neg(direction)
    } else {
        direction
    }
}

/// An invader after `dt` seconds of marching with the given heading: it
/// moves sideways at the speed of the formation and, if the formation turns,
/// drops by `FORMATION_DROP`.
pub open spec fn marched(enemy: Enemy, direction: Fixed, drop: bool, dt: Fixed) -> Enemy {
    let speed = sat_mul(ENEMY_SPEED, direction);
    Enemy {
        position: Position {
            x: travel(enemy.position.x, speed, dt),
            y: if drop {
                sat_sub(enemy.position.y, FORMATION_DROP)
            } else {
                enemy.position.y
            },
        },
        velocity: Velocity { x: speed, y: enemy.velocity.y },
        original_x: enemy.original_x,
        kind: enemy.kind,
    }
}

/// The rule that marches every invader.
pub open spec fn marching(direction: Fixed, drop: bool, dt: Fixed) -> spec_fn(Enemy) -> Enemy {
    |enemy: Enemy| marched(enemy, direction, drop, dt)
}

/// The formation after `dt` seconds: if some invader has strayed too far
/// from its anchor the heading is reversed and every invader drops; then
/// every invader moves sideways with the heading.
pub open spec fn formation_after(enemies: Seq<Enemy>, direction: Fixed, dt: Fixed) -> Seq<Enemy> {
    enemies.map_values(marching(heading_after(enemies, direction), turns(enemies), dt))
}

/// The state after the formation marched: the heading is reversed if it
/// turned.
pub open spec fn headed(state: GameState, enemies: Seq<Enemy>) -> GameState {
    GameState { enemy_direction: heading_after(enemies, state.enemy_direction), ..state }
}

/// The world after the formation marched for `dt`.
pub open spec fn after_march(w: WorldView, direction: Fixed, dt: Fixed) -> WorldView {
    WorldView { enemies: formation_after(w.enemies, direction, dt), ..w }
}

/// Marches the formation by `dt`. The heading is reversed once, and every
/// invader drops by `FORMATION_DROP`, in a frame that begins with some
/// invader farther than `FORMATION_REACH` from its anchor.
pub fn move_enemies(world: &mut World, state: &mut GameState, dt: Fixed)
    ensures
        *final(state) == headed(*old(state), old(world)@.enemies),
        final(world)@ == after_march(old(world)@, old(state).enemy_direction, dt),
        final(world)@.enemies.len() == old(world)@.enemies.len(),
        turns(old(world)@.enemies) ==> final(state).enemy_direction == sat_neg(
            old(state).enemy_direction,
        ) && forall|i: int|
            0 <= i < old(world)@.enemies.len() ==> (#[trigger] final(world)@.enemies[i]).position.y
                == sat_sub(old(world)@.enemies[i].position.y, FORMATION_DROP),
        !turns(old(world)@.enemies) ==> final(state).enemy_direction == old(state).enemy_direction
            && forall|i: int|
            0 <= i < old(world)@.enemies.len() ==> (#[trigger] final(world)@.enemies[i]).position.y
                == old(world)@.enemies[i].position.y,
{
    let ghost before = world.enemies@;
    let n = world.enemies.len();
    let mut should_move_down = false;

    let mut i: usize = 0;
    while i < n
        invariant_except_break
            i <= n,
            !should_move_down,
            forall|j: int| 0 <= j < i ==> !strayed(#[trigger] before[j]),
        invariant
            n == before.len(),
            world@ == old(world)@,
            before == world@.enemies,
        ensures
            should_move_down == turns(before),
        decreases n - i,
    {
        let enemy = world.enemies[i];
        if farther_than(enemy.position.x, enemy.original_x, FORMATION_REACH) {
            should_move_down = true;
            assert(strayed(before[i as int]));
            break ;
        }
        i = i + 1;
    }

    if should_move_down {
        state.enemy_direction = fixed_neg(state.enemy_direction);
    }
    let direction = state.enemy_direction;
    let speed = fixed_mul(ENEMY_SPEED, direction);

    let mut k: usize = 0;
    while k < n
        invariant
            k <= n,
            n == before.len(),
            before == old(world)@.enemies,
            speed == sat_mul(ENEMY_SPEED, direction),
            world@ == (WorldView { enemies: world@.enemies, ..old(world)@ }),
            world@.enemies.len() == n,
            forall|j: int|
                0 <= j < k ==> world@.enemies[j] == marched(
                    before[j],
                    direction,
                    should_move_down,
                    dt,
                ),
            forall|j: int| k <= j < n ==> world@.enemies[j] == before[j],
        decreases n - k,
    {
        let enemy = world.enemies[k];
        let y = if should_move_down {
            fixed_sub(enemy.position.y, FORMATION_DROP)
        } else {
            enemy.position.y
        };
        world.enemies.set(
            k,
            Enemy {
                position: Position { x: fixed_travel(enemy.position.x, speed, dt), y },
                velocity: Velocity { x: speed, y: enemy.velocity.y },
                original_x: enemy.original_x,
                kind: enemy.kind,
            },
        );
        k = k + 1;
    }
    assert(world@.enemies =~= formation_after(before, old(state).enemy_direction, dt));
}

/// Whether the cooldown of the invaders, `dt` seconds on, has run out.
pub open spec fn shot_due(state: GameState, dt: Fixed) -> bool {
    sat_add(state.enemy_shoot_timer, dt) >= ENEMY_SHOOT_INTERVAL
}

/// The state after the cooldown of the invaders has run for `dt`: it starts
/// again from zero when it has run out.
pub open spec fn cooled(state: GameState, dt: Fixed) -> GameState {
    GameState {
        enemy_shoot_timer: if shot_due(state, dt) {
            0
        } else {
            sat_add(state.enemy_shoot_timer, dt)
        },
        ..state
    }
}

/// The bullet that an invader fires: from its underside, straight down.
pub open spec fn bomb_from(enemy: Enemy) -> EnemyBullet {
    EnemyBullet {
        position: Position {
            x: enemy.position.x,
            y: sat_sub(enemy.position.y, half(ENEMY_SIZE)),
        },
        velocity: Velocity { x: 0, y: sat_neg(BULLET_SPEED) },
    }
}

/// Whether an invader fires in this frame: the cooldown has run out and some
/// invader is left.
pub open spec fn fires(w: WorldView, state: GameState, dt: Fixed) -> bool {
    shot_due(state, dt) && w.enemies.len() > 0
}

/// The world after the invaders had their chance to fire, where `pick` is the
/// index of the invader that was chosen.
pub open spec fn after_enemy_fire(w: WorldView, state: GameState, dt: Fixed, pick: int)
    -> WorldView {
    if fires(w, state, dt) {
        WorldView {
            enemy_bullets: w.enemy_bullets.push(bomb_from(w.enemies[pick])),
            sounds: w.sounds.push(Sound::EnemyShoot),
            ..w
        }
    } else {
        w
    }
}

/// Runs the cooldown of the invaders by `dt`. When it has run out it starts
/// again from zero and, if an invader is left, the invader at index `pick`
/// fires.
pub fn enemy_shoot_with(world: &mut World, state: &mut GameState, dt: Fixed, pick: usize)
    requires
        fires(old(world)@, *old(state), dt) ==> pick < old(world)@.enemies.len(),
    ensures
        *final(state) == cooled(*old(state), dt),
        final(world)@ == after_enemy_fire(old(world)@, *old(state), dt, pick as int),
{
    state.enemy_shoot_timer = fixed_add(state.enemy_shoot_timer, dt);

    if state.enemy_shoot_timer >= ENEMY_SHOOT_INTERVAL {
        state.enemy_shoot_timer = 0;

        if world.enemies.len() > 0 {
            let enemy = world.enemies[pick];
            world.enemy_bullets.push(
                EnemyBullet {
                    position: Position {
                        x: enemy.position.x,
                        y: fixed_sub(enemy.position.y, fixed_half(ENEMY_SIZE)),
                    },
                    velocity: Velocity { x: 0, y: fixed_neg(BULLET_SPEED) },
                },
            );
            world.sounds.push(Sound::EnemyShoot);
        }
    }
}

/// Whether the invaders will fire after `dt` more seconds of cooldown.
pub fn enemy_fire_due(world: &World, state: &GameState, dt: Fixed) -> (due: bool)
    ensures
        due == fires(world@, *state, dt),
{
    fixed_add(state.enemy_shoot_timer, dt) >= ENEMY_SHOOT_INTERVAL && world.enemies.len() > 0
}

/// Runs the cooldown of the invaders by `dt`. When it has run out it starts
/// again from zero and an invader chosen at random fires, if one is left.
pub fn enemy_shoot(world: &mut World, state: &mut GameState, dt: Fixed)
    ensures
        *final(state) == cooled(*old(state), dt),
        !fires(old(world)@, *old(state), dt) ==> final(world)@ == old(world)@,
        fires(old(world)@, *old(state), dt) ==> exists|pick: int|
            0 <= pick < old(world)@.enemies.len() && final(world)@ == #[trigger] after_enemy_fire(
                old(world)@,
                *old(state),
                dt,
                pick,
            ),
{
    let pick = if enemy_fire_due(world, state, dt) {
        random_below(world.enemies.len())
    } else {
        0
    };
    enemy_shoot_with(world, state, dt, pick);
}

/// The height that no invader may pass: `BOTTOM_LINE` above the lower edge
/// of the standard window.
pub open spec fn bottom_line() -> Fixed {
    sat_add(sat_neg(half(WINDOW_HEIGHT)), BOTTOM_LINE)
}

/// Whether some invader has passed the bottom line.
pub open spec fn landed(enemies: Seq<Enemy>) -> bool {
    exists|i: int| 0 <= i < enemies.len() && (#[trigger] enemies[i]).position.y < bottom_line()
}

/// What the invaders ask for: the game-over phase, if one of them has passed
/// the bottom line.
pub open spec fn landing_request(enemies: Seq<Enemy>, next_state: NextState) -> NextState {
    if landed(enemies) {
        NextState::Pending(GamePhase::GameOver)
    } else {
        next_state
    }
}

/// Asks for the game-over phase if some invader has passed the bottom line.
pub fn check_enemy_reached_bottom(world: &World, next_state: &mut NextState)
    ensures
        *final(next_state) == landing_request(world@.enemies, *old(next_state)),
{
    let line = fixed_add(fixed_neg(fixed_half(WINDOW_HEIGHT)), BOTTOM_LINE);
    let n = world.enemies.len();
    let mut i: usize = 0;
    while i < n
        invariant_except_break
            i <= n,
            *next_state == *old(next_state),
            forall|j: int| 0 <= j < i ==> (#[trigger] world@.enemies[j]).position.y >= line,
        invariant
            n == world@.enemies.len(),
            line == bottom_line(),
        ensures
            *next_state == landing_request(world@.enemies, *old(next_state)),
        decreases n - i,
    {
        if world.enemies[i].position.y < line {
            next_state.set(GamePhase::GameOver);
            break ;
        }
        i = i + 1;
    }
}

} // verus!
