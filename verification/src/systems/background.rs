//! The starfield: stars appear near the centre at a steady beat, fly
//! outward, and grow larger and brighter on their way.

use vstd::prelude::*;
use crate::components::{Position, Star, Velocity};
use crate::constants::{
    OFFSCREEN_MARGIN, STAR_BASE_SPEED, STAR_MAX_BRIGHTNESS, STAR_MAX_DISTANCE, STAR_MAX_SIZE,
    STAR_MIN_BRIGHTNESS, STAR_MIN_SIZE, STAR_SPAWN_INTERVAL, STAR_SPAWN_RADIUS, WINDOW_HEIGHT,
    WINDOW_WIDTH,
};
use crate::fixed::{
    farther_than, fixed_add, fixed_div, fixed_min, fixed_mul, fixed_neg, fixed_norm, fixed_sub,
    fixed_travel, gap, lesser, norm, sat_add, sat_div, sat_mul, sat_neg, sat_sub, travel, Fixed,
    ONE,
};
use crate::random::{spread, spread_draw, StarRoll};
use crate::resources::GameState;
use crate::world::{lemma_filter_next, World, WorldView};

verus! {

/// Whether the star cooldown, `dt` seconds on, has run out.
pub open spec fn star_due(state: GameState, dt: Fixed) -> bool {
    sat_add(state.star_spawn_timer, dt) >= STAR_SPAWN_INTERVAL
}

/// The speed of the star that `roll` makes: the base speed, half of it less
/// or more.
pub open spec fn star_speed(roll: StarRoll) -> Fixed {
    sat_mul(STAR_BASE_SPEED, spread(500_000, 1_500_000, roll.speed))
}

/// How far from the centre, along its direction, the star that `roll` makes
/// appears: up to `STAR_SPAWN_RADIUS` behind or ahead.
pub open spec fn star_offset(roll: StarRoll) -> Fixed {
    spread(sat_neg(STAR_SPAWN_RADIUS), STAR_SPAWN_RADIUS, roll.offset)
}

/// The star that `roll` makes: small and white, close to the centre, flying
/// in the drawn direction.
pub open spec fn star_from(roll: StarRoll) -> Star {
    Star {
        position: Position {
            x: sat_mul(star_offset(roll), roll.direction.cos),
            y: sat_mul(star_offset(roll), roll.direction.sin),
        },
        velocity: Velocity {
            x: sat_mul(star_speed(roll), roll.direction.cos),
            y: sat_mul(star_speed(roll), roll.direction.sin),
        },
        distance_from_center: 0,
        size: STAR_MIN_SIZE,
        brightness: ONE,
    }
}

/// The state after the star cooldown has run for `dt`: it starts again from
/// zero when it has run out.
pub open spec fn star_cooled(state: GameState, dt: Fixed) -> GameState {
    GameState {
        star_spawn_timer: if star_due(state, dt) {
            0
        } else {
            sat_add(state.star_spawn_timer, dt)
        },
        ..state
    }
}

/// The world after the star cooldown has run for `dt`: with the star that
/// `roll` makes, if the cooldown has run out.
pub open spec fn after_star_spawn(w: WorldView, state: GameState, dt: Fixed, roll: StarRoll)
    -> WorldView {
    WorldView {
        stars: if star_due(state, dt) {
            w.stars.push(star_from(roll))
        } else {
            w.stars
        },
        ..w
    }
}

/// Runs the star cooldown by `dt`. When it has run out it starts again from
/// zero, and the star that `roll` makes appears.
pub fn spawn_stars(world: &mut World, state: &mut GameState, dt: Fixed, roll: &StarRoll)
    ensures
        *final(state) == star_cooled(*old(state), dt),
        final(world)@ == after_star_spawn(old(world)@, *old(state), dt, *roll),
{
    state.star_spawn_timer = fixed_add(state.star_spawn_timer, dt);

    if state.star_spawn_timer >= STAR_SPAWN_INTERVAL {
        state.star_spawn_timer = 0;

        let speed = fixed_mul(STAR_BASE_SPEED, spread_draw(500_000, 1_500_000, roll.speed));
        let offset = spread_draw(fixed_neg(STAR_SPAWN_RADIUS), STAR_SPAWN_RADIUS, roll.offset);
        world.stars.push(
            Star {
                position: Position {
                    x: fixed_mul(offset, roll.direction.cos),
                    y: fixed_mul(offset, roll.direction.sin),
                },
                velocity: Velocity {
                    x: fixed_mul(speed, roll.direction.cos),
                    y: fixed_mul(speed, roll.direction.sin),
                },
                distance_from_center: 0,
                size: STAR_MIN_SIZE,
                brightness: ONE,
            },
        );
    }
}

/// How far a star at the given distance from the centre has come on its way
/// to `STAR_MAX_DISTANCE`: from zero to one.
pub open spec fn progress(distance: Fixed) -> Fixed {
    lesser(sat_div(distance, STAR_MAX_DISTANCE), ONE)
}

/// A star `dt` seconds later: further along, its distance from the centre
/// measured anew, its size and its brightness grown with that distance.
pub open spec fn drifted(star: Star, dt: Fixed) -> Star {
    let x = travel(star.position.x, star.velocity.x, dt);
    let y = travel(star.position.y, star.velocity.y, dt);
    let distance = norm(x, y);
    Star {
        position: Position { x, y },
        velocity: star.velocity,
        distance_from_center: distance,
        size: sat_add(
            STAR_MIN_SIZE,
            sat_mul(sat_sub(STAR_MAX_SIZE, STAR_MIN_SIZE), progress(distance)),
        ),
        brightness: sat_add(
            STAR_MIN_BRIGHTNESS,
            sat_mul(sat_sub(STAR_MAX_BRIGHTNESS, STAR_MIN_BRIGHTNESS), progress(distance)),
        ),
    }
}

/// The rule that moves every star by `dt`.
pub open spec fn drifting(dt: Fixed) -> spec_fn(Star) -> Star {
    |star: Star| drifted(star, dt)
}

/// Whether a point lies within the margin around the standard window.
pub open spec fn in_sight(position: Position) -> bool {
    &&& gap(position.x, 0) <= WINDOW_WIDTH / 2 + OFFSCREEN_MARGIN
    &&& gap(position.y, 0) <= WINDOW_HEIGHT / 2 + OFFSCREEN_MARGIN
}

/// The stars that are still in sight.
pub open spec fn visible() -> spec_fn(Star) -> bool {
    |star: Star| in_sight(star.position)
}

/// The stars `dt` seconds later: each has moved and grown, and those that
/// left the sight are gone.
pub open spec fn stars_after(stars: Seq<Star>, dt: Fixed) -> Seq<Star> {
    stars.map_values(drifting(dt)).filter(visible())
}

/// The world after its stars moved for `dt`.
pub open spec fn after_star_drift(w: WorldView, dt: Fixed) -> WorldView {
    WorldView { stars: stars_after(w.stars, dt), ..w }
}

/// Moves every star by `dt`, lets it grow, and removes those that are out of
/// sight.
pub fn move_stars(world: &mut World, dt: Fixed)
    ensures
        final(world)@ == after_star_drift(old(world)@, dt),
{
    let ghost before = world.stars@;
    let ghost moved = before.map_values(drifting(dt));
    let n = world.stars.len();
    let mut kept: Vec<Star> = Vec::new();
    let mut i: usize = 0;
    while i < n
        invariant
            i <= n,
            n == before.len(),
            world@ == old(world)@,
            before == old(world)@.stars,
            moved == before.map_values(drifting(dt)),
            kept@ == moved.take(i as int).filter(visible()),
        decreases n - i,
    {
        let star = world.stars[i];
        let x = fixed_travel(star.position.x, star.velocity.x, dt);
        let y = fixed_travel(star.position.y, star.velocity.y, dt);
        let distance = fixed_norm(x, y);
        let progress = fixed_min(fixed_div(distance, STAR_MAX_DISTANCE), ONE);
        let next = Star {
            position: Position { x, y },
            velocity: star.velocity,
            distance_from_center: distance,
            size: fixed_add(
                STAR_MIN_SIZE,
                fixed_mul(fixed_sub(STAR_MAX_SIZE, STAR_MIN_SIZE), progress),
            ),
            brightness: fixed_add(
                STAR_MIN_BRIGHTNESS,
                fixed_mul(fixed_sub(STAR_MAX_BRIGHTNESS, STAR_MIN_BRIGHTNESS), progress),
            ),
        };
        proof {
            assert(moved[i as int] == next);
            lemma_filter_next(moved, visible(), i as int);
        }
        let gone = farther_than(x, 0, WINDOW_WIDTH / 2 + OFFSCREEN_MARGIN) || farther_than(
            y,
            0,
            WINDOW_HEIGHT / 2 + OFFSCREEN_MARGIN,
        );
        if !gone {
            kept.push(next);
        }
        i = i + 1;
    }
    assert(moved.take(n as int) =~= moved);
    world.stars = kept;
}

} // verus!
