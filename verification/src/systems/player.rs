//! The player's ship: it moves along the bottom line and shoots upward.

use vstd::prelude::*;
use crate::components::{Bullet, Player, Position, Velocity};
use crate::constants::{BULLET_SPEED, PLAYER_SIZE, PLAYER_SPEED, WINDOW_WIDTH};
use crate::fixed::{
    confine, fixed_add, fixed_clamp, fixed_half, fixed_neg, fixed_sub, fixed_travel, half,
    sat_add, sat_neg, sat_sub, travel, Fixed,
};
use crate::resources::Keys;
use crate::world::{World, WorldView};

verus! {

/// The speed that the held keys ask for: to the left with the left arrow or
/// `A`, to the right with the right arrow or `D`, none with both or neither.
pub open spec fn steering(keys: Keys) -> Fixed {
    let left = keys.arrow_left || keys.key_a;
    let right = keys.arrow_right || keys.key_d;
    if left && !right {
        sat_neg(PLAYER_SPEED)
    } else if right && !left {
        PLAYER_SPEED
    } else {
        0
    }
}

/// The leftmost place of the ship: half a ship inside the left edge.
pub open spec fn left_bound() -> Fixed {
    sat_add(sat_neg(half(WINDOW_WIDTH)), half(PLAYER_SIZE))
}

/// The rightmost place of the ship: half a ship inside the right edge.
pub open spec fn right_bound() -> Fixed {
    sat_sub(half(WINDOW_WIDTH), half(PLAYER_SIZE))
}

/// The ship after `dt` seconds under the held keys: moved at the speed they
/// ask for, and kept between the bounds.
pub open spec fn steered(player: Player, keys: Keys, dt: Fixed) -> Player {
    Player {
        position: Position {
            x: confine(travel(player.position.x, steering(keys), dt), left_bound(), right_bound()),
            y: player.position.y,
        },
    }
}

/// The world after the ship, if there is one, moved for `dt` under the held
/// keys.
pub open spec fn after_steering(w: WorldView, keys: Keys, dt: Fixed) -> WorldView {
    WorldView {
        player: match w.player {
            Some(player) => Some(steered(player, keys, dt)),
            None => None,
        },
        ..w
    }
}

/// Moves the ship, if there is one, by the held keys, and keeps it inside the
/// window.
pub fn player_movement(world: &mut World, keys: &Keys, dt: Fixed)
    ensures
        final(world)@ == after_steering(old(world)@, *keys, dt),
        final(world)@.player matches Some(player) ==> -380_000_000 <= player.position.x
            <= 380_000_000,
{
    if let Some(player) = world.player {
        let mut speed: Fixed = 0;
        if keys.arrow_left || keys.key_a {
            speed = fixed_sub(speed, PLAYER_SPEED);
        }
        if keys.arrow_right || keys.key_d {
            speed = fixed_add(speed, PLAYER_SPEED);
        }
        let new_x = fixed_travel(player.position.x, speed, dt);
        let half_player = fixed_half(PLAYER_SIZE);
        let x = fixed_clamp(
            new_x,
            fixed_add(fixed_neg(fixed_half(WINDOW_WIDTH)), half_player),
            fixed_sub(fixed_half(WINDOW_WIDTH), half_player),
        );
        assert(left_bound() == -380_000_000 && right_bound() == 380_000_000);
        world.player = Some(Player { position: Position { x, y: player.position.y } });
    }
}

/// The bullet that a ship at `position` fires: from its nose, straight up.
pub open spec fn shot_from(position: Position) -> Bullet {
    Bullet {
        position: Position { x: position.x, y: sat_add(position.y, half(PLAYER_SIZE)) },
        velocity: Velocity { x: 0, y: BULLET_SPEED },
    }
}

/// The world after the ship had its chance to fire: with one more bullet if
/// the space bar went down and there is a ship.
pub open spec fn after_player_fire(w: WorldView, keys: Keys) -> WorldView {
    WorldView {
        bullets: match w.player {
            Some(player) if keys.space_just_pressed => w.bullets.push(shot_from(player.position)),
            _ => w.bullets,
        },
        ..w
    }
}

/// Fires one bullet when the space bar goes down and there is a ship.
pub fn player_shoot(world: &mut World, keys: &Keys)
    ensures
        final(world)@ == after_player_fire(old(world)@, *keys),
{
    if keys.space_just_pressed {
        if let Some(player) = world.player {
            world.bullets.push(
                Bullet {
                    position: Position {
                        x: player.position.x,
                        y: fixed_add(player.position.y, fixed_half(PLAYER_SIZE)),
                    },
                    velocity: Velocity { x: 0, y: BULLET_SPEED },
                },
            );
        }
    }
}

} // verus!
