//! Chance. A rule that needs chance takes its draws as plain values, so that
//! it is a function of its arguments. The draws are made here, but for the
//! directions: a direction is a cosine and a sine, which this arithmetic
//! cannot compute, so whoever runs the game supplies them.

use vstd::prelude::*;
use rand::Rng;
use crate::constants::EXPLOSION_PARTICLES;
use crate::fixed::{fixed_add, fixed_mul, fixed_sub, sat_add, sat_mul, sat_sub, Fixed, ONE};

verus! {

/// A direction in the plane: the cosine and the sine of its angle.
#[derive(Clone, Copy, Debug, PartialEq, Eq, Structural)]
pub struct Direction {
    pub cos: Fixed,
    pub sin: Fixed,
}

/// The draws for one star: a direction of uniform angle, and two uniform
/// draws from `[0, 1)` that set its speed and how far from the centre it
/// appears.
#[derive(Clone, Copy, Debug, PartialEq, Eq, Structural)]
pub struct StarRoll {
    pub direction: Direction,
    pub speed: Fixed,
    pub offset: Fixed,
}

/// The draws for one particle of an explosion: a direction of uniform angle,
/// and four uniform draws from `[0, 1)` that set its speed, its size, the
/// tint of its colour and how long it lives.
#[derive(Clone, Copy, Debug, PartialEq, Eq, Structural)]
pub struct ParticleRoll {
    pub direction: Direction,
    pub speed: Fixed,
    pub size: Fixed,
    pub tint: Fixed,
    pub lifetime: Fixed,
}

/// The draws that one frame may use: those for the star that may appear, and
/// those for the particles of an explosion.
#[derive(Clone, Copy, Debug)]
pub struct Rolls {
    pub star: StarRoll,
    pub particles: [ParticleRoll; 20],
}

/// The directions that one frame may use, each of uniform angle: one for the
/// star that may appear, and one for each particle of an explosion.
#[derive(Clone, Copy, Debug)]
pub struct Directions {
    pub star: Direction,
    pub particles: [Direction; 20],
}

/// Whether a number lies in `[0, 1)`.
pub open spec fn unit(draw: Fixed) -> bool {
    0 <= draw < ONE
}

/// Whether the draws for a star keep to `direction` and to `[0, 1)`.
pub open spec fn star_roll_fits(roll: StarRoll, direction: Direction) -> bool {
    &&& roll.direction == direction
    &&& unit(roll.speed)
    &&& unit(roll.offset)
}

/// Whether the draws for a particle keep to `direction` and to `[0, 1)`.
pub open spec fn particle_roll_fits(roll: ParticleRoll, direction: Direction) -> bool {
    &&& roll.direction == direction
    &&& unit(roll.speed)
    &&& unit(roll.size)
    &&& unit(roll.tint)
    &&& unit(roll.lifetime)
}

/// Whether the draws of a frame keep to the given directions and to `[0, 1)`.
pub open spec fn rolls_fit(rolls: Rolls, directions: Directions) -> bool {
    &&& star_roll_fits(rolls.star, directions.star)
    &&& forall|i: int|
        0 <= i < EXPLOSION_PARTICLES ==> particle_roll_fits(
            #[trigger] rolls.particles@[i],
            directions.particles@[i],
        )
}

/// The point of `[low, high)` that a draw from `[0, 1)` picks.
pub open spec fn spread(low: Fixed, high: Fixed, draw: Fixed) -> Fixed {
    sat_add(low, sat_mul(sat_sub(high, low), draw))
}

/// The point of `[low, high)` that a draw from `[0, 1)` picks.
pub fn spread_draw(low: Fixed, high: Fixed, draw: Fixed) -> (value: Fixed)
    ensures
        value == spread(low, high, draw),
{
    fixed_add(low, fixed_mul(fixed_sub(high, low), draw))
}

/// Calls `rand::thread_rng` and, on the generator that it returns,
/// `rand::Rng::gen_range` with the range `0..bound`. Trusted: the number that
/// comes back lies in that range. Nothing is claimed about which number it
/// is. An empty range is left out, as `gen_range` panics on it.
#[verifier::external_body]
pub(crate) fn random_below(bound: usize) -> (number: usize)
    requires
        bound > 0,
    ensures
        number < bound,
{
    rand::thread_rng().gen_range(0..bound)
}

/// A draw from `[0, 1)`, to the millionth.
pub fn draw_unit() -> (draw: Fixed)
    ensures
        unit(draw),
{
    random_below(1_000_000) as i64
}

/// The draws for one star that flies in `direction`.
pub fn draw_star_roll(direction: Direction) -> (roll: StarRoll)
    ensures
        star_roll_fits(roll, direction),
{
    StarRoll { direction, speed: draw_unit(), offset: draw_unit() }
}

/// The draws for one particle that flies in `direction`.
pub fn draw_particle_roll(direction: Direction) -> (roll: ParticleRoll)
    ensures
        particle_roll_fits(roll, direction),
{
    ParticleRoll {
        direction,
        speed: draw_unit(),
        size: draw_unit(),
        tint: draw_unit(),
        lifetime: draw_unit(),
    }
}

/// The draws of one frame, for the given directions.
pub fn draw_rolls(directions: &Directions) -> (rolls: Rolls)
    ensures
        rolls_fit(rolls, *directions),
{
    let star = draw_star_roll(directions.star);
    let mut particles = [draw_particle_roll(directions.particles[0]);20];
    let mut i: usize = 1;
    while i < EXPLOSION_PARTICLES
        invariant
            1 <= i <= EXPLOSION_PARTICLES,
            forall|j: int|
                0 <= j < i ==> particle_roll_fits(#[trigger] particles@[j], directions.particles@[j]),
        decreases EXPLOSION_PARTICLES - i,
    {
        particles[i] = draw_particle_roll(directions.particles[i]);
        i = i + 1;
    }
    Rolls { star, particles }
}

} // verus!
