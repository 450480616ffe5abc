//! Explosions: a burst of particles that fly apart and fade.

use vstd::prelude::*;
use crate::components::{Color, ExplosionParticle, Position, Velocity};
use crate::constants::{
    EXPLOSION_LIFETIME, EXPLOSION_PARTICLES, EXPLOSION_PARTICLE_SIZE, EXPLOSION_PARTICLE_SPEED,
};
use crate::fixed::{
    fixed_add, fixed_div, fixed_min, fixed_mul, fixed_sub, fixed_travel, lesser, sat_add, sat_div,
    sat_mul, sat_sub, travel, Fixed, ONE,
};
use crate::random::{spread, spread_draw, ParticleRoll};
use crate::world::{lemma_filter_next, World, WorldView};

verus! {

/// `color` with each part but the opacity scaled by `tint`, none above one.
pub open spec fn tinted(color: Color, tint: Fixed) -> Color {
    Color {
        red: lesser(sat_mul(color.red, tint), ONE),
        green: lesser(sat_mul(color.green, tint), ONE),
        blue: lesser(sat_mul(color.blue, tint), ONE),
        alpha: ONE,
    }
}

/// The speed of the particle that `roll` makes: the standard speed, half of
/// it less or more.
pub open spec fn particle_speed(roll: ParticleRoll) -> Fixed {
    sat_mul(EXPLOSION_PARTICLE_SPEED, spread(500_000, 1_500_000, roll.speed))
}

/// The life span of the particle that `roll` makes: the standard life span,
/// a fifth of it less or more.
pub open spec fn particle_life(roll: ParticleRoll) -> Fixed {
    sat_mul(EXPLOSION_LIFETIME, spread(800_000, 1_200_000, roll.lifetime))
}

/// The particle that `roll` makes of an explosion of colour `color` at
/// `position`: it starts there, flies in the drawn direction, and its size
/// and its colour vary with the draws.
pub open spec fn particle_from(position: Position, color: Color, roll: ParticleRoll)
    -> ExplosionParticle {
    ExplosionParticle {
        position,
        velocity: Velocity {
            x: sat_mul(particle_speed(roll), roll.direction.cos),
            y: sat_mul(particle_speed(roll), roll.direction.sin),
        },
        lifetime: 0,
        max_lifetime: particle_life(roll),
        size: sat_mul(EXPLOSION_PARTICLE_SIZE, spread(500_000, 1_500_000, roll.size)),
        color: tinted(color, spread(800_000, 1_200_000, roll.tint)),
    }
}

/// The particles of one explosion: one for each roll, in their order.
pub open spec fn burst(position: Position, color: Color, rolls: Seq<ParticleRoll>) -> Seq<
    ExplosionParticle,
> {
    Seq::new(rolls.len(), |i: int| particle_from(position, color, rolls[i]))
}

/// The world with one more explosion.
pub open spec fn with_explosion(
    w: WorldView,
    position: Position,
    color: Color,
    rolls: Seq<ParticleRoll>,
) -> WorldView {
    WorldView { particles: w.particles + burst(position, color, rolls), ..w }
}

/// Spawns an explosion at `position`: twenty particles, one for each roll.
pub fn spawn_explosion(
    world: &mut World,
    position: Position,
    color: Color,
    rolls: &[ParticleRoll; 20],
)
    ensures
        final(world)@ == with_explosion(old(world)@, position, color, rolls@),
        final(world)@.particles.len() == old(world)@.particles.len() + EXPLOSION_PARTICLES,
{
    let ghost sparks = burst(position, color, rolls@);
    let mut i: usize = 0;
    while i < EXPLOSION_PARTICLES
        invariant
            i <= EXPLOSION_PARTICLES,
            sparks == burst(position, color, rolls@),
            world@ == (WorldView {
                particles: old(world)@.particles + sparks.take(i as int),
                ..old(world)@
            }),
        decreases EXPLOSION_PARTICLES - i,
    {
        let roll = rolls[i];
        let speed = fixed_mul(EXPLOSION_PARTICLE_SPEED, spread_draw(500_000, 1_500_000, roll.speed));
        let size = fixed_mul(EXPLOSION_PARTICLE_SIZE, spread_draw(500_000, 1_500_000, roll.size));
        let tint = spread_draw(800_000, 1_200_000, roll.tint);
        let particle_color = Color {
            red: fixed_min(fixed_mul(color.red, tint), ONE),
            green: fixed_min(fixed_mul(color.green, tint), ONE),
            blue: fixed_min(fixed_mul(color.blue, tint), ONE),
            alpha: ONE,
        };
        world.particles.push(
            ExplosionParticle {
                position,
                velocity: Velocity {
                    x: fixed_mul(speed, roll.direction.cos),
                    y: fixed_mul(speed, roll.direction.sin),
                },
                lifetime: 0,
                max_lifetime: fixed_mul(
                    EXPLOSION_LIFETIME,
                    spread_draw(800_000, 1_200_000, roll.lifetime),
                ),
                size,
                color: particle_color,
            },
        );
        assert(world@.particles =~= old(world)@.particles + sparks.take(i + 1));
        i = i + 1;
    }
    assert(sparks.take(EXPLOSION_PARTICLES as int) =~= sparks);
}

/// A particle `dt` seconds later: older, further along, and fainter by the
/// share of its life that is spent.
pub open spec fn aged(p: ExplosionParticle, dt: Fixed) -> ExplosionParticle {
    let lifetime = sat_add(p.lifetime, dt);
    ExplosionParticle {
        position: Position {
            x: travel(p.position.x, p.velocity.x, dt),
            y: travel(p.position.y, p.velocity.y, dt),
        },
        lifetime,
        color: Color { alpha: sat_sub(ONE, sat_div(lifetime, p.max_lifetime)), ..p.color },
        ..p
    }
}

/// The rule that ages every particle by `dt`.
pub open spec fn aging(dt: Fixed) -> spec_fn(ExplosionParticle) -> ExplosionParticle {
    |p: ExplosionParticle| aged(p, dt)
}

/// The particles that have life left.
pub open spec fn glowing() -> spec_fn(ExplosionParticle) -> bool {
    |p: ExplosionParticle| p.lifetime < p.max_lifetime
}

/// The particles `dt` seconds later: each has aged, and those whose life is
/// spent are gone.
pub open spec fn particles_after(particles: Seq<ExplosionParticle>, dt: Fixed) -> Seq<
    ExplosionParticle,
> {
    particles.map_values(aging(dt)).filter(glowing())
}

/// The world after its particles aged by `dt`.
pub open spec fn after_fading(w: WorldView, dt: Fixed) -> WorldView {
    WorldView { particles: particles_after(w.particles, dt), ..w }
}

/// Ages every particle by `dt` and removes those whose life is spent.
pub fn update_explosions(world: &mut World, dt: Fixed)
    ensures
        final(world)@ == after_fading(old(world)@, dt),
{
    let ghost before = world.particles@;
    let ghost older = before.map_values(aging(dt));
    let n = world.particles.len();
    let mut kept: Vec<ExplosionParticle> = Vec::new();
    let mut i: usize = 0;
    while i < n
        invariant
            i <= n,
            n == before.len(),
            world@ == old(world)@,
            before == old(world)@.particles,
            older == before.map_values(aging(dt)),
            kept@ == older.take(i as int).filter(glowing()),
        decreases n - i,
    {
        let p = world.particles[i];
        let lifetime = fixed_add(p.lifetime, dt);
        let alpha = fixed_sub(ONE, fixed_div(lifetime, p.max_lifetime));
        let next = ExplosionParticle {
            position: Position {
                x: fixed_travel(p.position.x, p.velocity.x, dt),
                y: fixed_travel(p.position.y, p.velocity.y, dt),
            },
            velocity: p.velocity,
            lifetime,
            max_lifetime: p.max_lifetime,
            size: p.size,
            color: Color { red: p.color.red, green: p.color.green, blue: p.color.blue, alpha },
        };
        proof {
            assert(older[i as int] == next);
            lemma_filter_next(older, glowing(), i as int);
        }
        if !(next.lifetime >= next.max_lifetime) {
            kept.push(next);
        }
        i = i + 1;
    }
    assert(older.take(n as int) =~= older);
    world.particles = kept;
}

} // verus!
