//! Bullets fly straight up or down and are removed once they have left the
//! window.

use vstd::prelude::*;
use crate::components::{Bullet, EnemyBullet, Position};
use crate::constants::OFFSCREEN_MARGIN;
use crate::fixed::{
    fixed_add, fixed_half, fixed_neg, fixed_sub, fixed_travel, half, sat_add, sat_neg, sat_sub,
    travel, Fixed,
};
use crate::resources::WindowDimensions;
use crate::world::{lemma_filter_next, World, WorldView};

verus! {

/// A bullet of the player `dt` seconds later: moved along the vertical by its
/// own speed.
pub open spec fn flown(bullet: Bullet, dt: Fixed) -> Bullet {
    Bullet {
        position: Position {
            x: bullet.position.x,
            y: travel(bullet.position.y, bullet.velocity.y, dt),
        },
        velocity: bullet.velocity,
    }
}

/// The rule that moves every bullet of the player by `dt`.
pub open spec fn flying(dt: Fixed) -> spec_fn(Bullet) -> Bullet {
    |bullet: Bullet| flown(bullet, dt)
}

/// The world after the bullets of the player flew for `dt`.
pub open spec fn after_bullet_flight(w: WorldView, dt: Fixed) -> WorldView {
    WorldView { bullets: w.bullets.map_values(flying(dt)), ..w }
}

/// Moves every bullet of the player by `dt`.
pub fn move_bullets(world: &mut World, dt: Fixed)
    ensures
        final(world)@ == after_bullet_flight(old(world)@, dt),
{
    let ghost before = world.bullets@;
    let n = world.bullets.len();
    let mut i: usize = 0;
    while i < n
        invariant
            i <= n,
            n == before.len(),
            before == old(world)@.bullets,
            world@ == (WorldView { bullets: world@.bullets, ..old(world)@ }),
            world@.bullets.len() == n,
            forall|j: int| 0 <= j < i ==> world@.bullets[j] == flown(before[j], dt),
            forall|j: int| i <= j < n ==> world@.bullets[j] == before[j],
        decreases n - i,
    {
        let bullet = world.bullets[i];
        world.bullets.set(
            i,
            Bullet {
                position: Position {
                    x: bullet.position.x,
                    y: fixed_travel(bullet.position.y, bullet.velocity.y, dt),
                },
                velocity: bullet.velocity,
            },
        );
        i = i + 1;
    }
    assert(world@.bullets =~= before.map_values(flying(dt)));
}

/// A bullet of an invader `dt` seconds later: moved along the vertical by its
/// own speed.
pub open spec fn fallen(bullet: EnemyBullet, dt: Fixed) -> EnemyBullet {
    EnemyBullet {
        position: Position {
            x: bullet.position.x,
            y: travel(bullet.position.y, bullet.velocity.y, dt),
        },
        velocity: bullet.velocity,
    }
}

/// The rule that moves every bullet of the invaders by `dt`.
pub open spec fn falling(dt: Fixed) -> spec_fn(EnemyBullet) -> EnemyBullet {
    |bullet: EnemyBullet| fallen(bullet, dt)
}

/// The world after the bullets of the invaders flew for `dt`.
pub open spec fn after_enemy_bullet_flight(w: WorldView, dt: Fixed) -> WorldView {
    WorldView { enemy_bullets: w.enemy_bullets.map_values(falling(dt)), ..w }
}

/// Moves every bullet of the invaders by `dt`.
pub fn move_enemy_bullets(world: &mut World, dt: Fixed)
    ensures
        final(world)@ == after_enemy_bullet_flight(old(world)@, dt),
{
    let ghost before = world.enemy_bullets@;
    let n = world.enemy_bullets.len();
    let mut i: usize = 0;
    while i < n
        invariant
            i <= n,
            n == before.len(),
            before == old(world)@.enemy_bullets,
            world@ == (WorldView { enemy_bullets: world@.enemy_bullets, ..old(world)@ }),
            world@.enemy_bullets.len() == n,
            forall|j: int| 0 <= j < i ==> world@.enemy_bullets[j] == fallen(before[j], dt),
            forall|j: int| i <= j < n ==> world@.enemy_bullets[j] == before[j],
        decreases n - i,
    {
        let bullet = world.enemy_bullets[i];
        world.enemy_bullets.set(
            i,
            EnemyBullet {
                position: Position {
                    x: bullet.position.x,
                    y: fixed_travel(bullet.position.y, bullet.velocity.y, dt),
                },
                velocity: bullet.velocity,
            },
        );
        i = i + 1;
    }
    assert(world@.enemy_bullets =~= before.map_values(falling(dt)));
}

/// The height above which a bullet of the player is lost: the upper edge of
/// the window and a margin.
pub open spec fn top_limit(window: WindowDimensions) -> Fixed {
    sat_add(half(window.height), OFFSCREEN_MARGIN)
}

/// The height below which a bullet of an invader is lost: the lower edge of
/// the window and a margin.
pub open spec fn bottom_limit(window: WindowDimensions) -> Fixed {
    sat_sub(sat_neg(half(window.height)), OFFSCREEN_MARGIN)
}

/// The bullets of the player that have not passed the top limit.
pub open spec fn below_top(window: WindowDimensions) -> spec_fn(Bullet) -> bool {
    |bullet: Bullet| bullet.position.y <= top_limit(window)
}

/// The bullets of the invaders that have not passed the bottom limit.
pub open spec fn above_bottom(window: WindowDimensions) -> spec_fn(EnemyBullet) -> bool {
    |bullet: EnemyBullet| bullet.position.y >= bottom_limit(window)
}

/// The world without the bullets that have left the window.
pub open spec fn after_cleanup(w: WorldView, window: WindowDimensions) -> WorldView {
    WorldView {
        bullets: w.bullets.filter(below_top(window)),
        enemy_bullets: w.enemy_bullets.filter(above_bottom(window)),
        ..w
    }
}

/// Removes the bullets that have left the window: those of the player above
/// the top limit, those of the invaders below the bottom limit.
pub fn cleanup_offscreen_bullets(world: &mut World, window: &WindowDimensions)
    ensures
        final(world)@ == after_cleanup(old(world)@, *window),
        forall|i: int|
            0 <= i < final(world)@.bullets.len() ==> (#[trigger] final(world)@.bullets[i]).position.y
                <= top_limit(*window),
        forall|i: int|
            0 <= i < final(world)@.enemy_bullets.len() ==> (
            #[trigger] final(world)@.enemy_bullets[i]).position.y >= bottom_limit(*window),
{
    let top = fixed_add(fixed_half(window.height), OFFSCREEN_MARGIN);
    let bottom = fixed_sub(fixed_neg(fixed_half(window.height)), OFFSCREEN_MARGIN);

    let ghost shots = world.bullets@;
    let n = world.bullets.len();
    let mut kept: Vec<Bullet> = Vec::new();
    let mut i: usize = 0;
    while i < n
        invariant
            i <= n,
            n == shots.len(),
            world@ == old(world)@,
            shots == old(world)@.bullets,
            top == top_limit(*window),
            kept@ == shots.take(i as int).filter(below_top(*window)),
        decreases n - i,
    {
        let bullet = world.bullets[i];
        proof {
            lemma_filter_next(shots, below_top(*window), i as int);
        }
        if !(bullet.position.y > top) {
            kept.push(bullet);
        }
        i = i + 1;
    }
    assert(shots.take(n as int) =~= shots);
    world.bullets = kept;

    let ghost bombs = world.enemy_bullets@;
    let m = world.enemy_bullets.len();
    let mut left: Vec<EnemyBullet> = Vec::new();
    let mut j: usize = 0;
    while j < m
        invariant
            j <= m,
            m == bombs.len(),
            world@ == (WorldView {
                bullets: shots.filter(below_top(*window)),
                ..old(world)@
            }),
            bombs == old(world)@.enemy_bullets,
            bottom == bottom_limit(*window),
            left@ == bombs.take(j as int).filter(above_bottom(*window)),
        decreases m - j,
    {
        let bullet = world.enemy_bullets[j];
        proof {
            lemma_filter_next(bombs, above_bottom(*window), j as int);
        }
        if !(bullet.position.y < bottom) {
            left.push(bullet);
        }
        j = j + 1;
    }
    assert(bombs.take(m as int) =~= bombs);
    world.enemy_bullets = left;
    assert forall|i: int| 0 <= i < world@.bullets.len() implies (#[trigger] world@.bullets[i]).position.y
        <= top_limit(*window) by {
        shots.lemma_filter_pred(below_top(*window), i);
    }
    assert forall|i: int| 0 <= i < world@.enemy_bullets.len() implies (
    #[trigger] world@.enemy_bullets[i]).position.y >= bottom_limit(*window) by {
        bombs.lemma_filter_pred(above_bottom(*window), i);
    }
}

} // verus!
