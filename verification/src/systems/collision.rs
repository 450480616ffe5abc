//! Collisions: bullets of the player against invaders, and bullets of the
//! invaders against the player.

use vstd::prelude::*;
use crate::components::{
    Bullet, Color, Enemy, EnemyBullet, ExplosionParticle, Player, Position, Sound,
};
use crate::constants::{BULLET_SIZE, ENEMY_REWARD, ENEMY_SIZE, PLAYER_SIZE};
use crate::fixed::{fixed_add, fixed_half, half, sat_add, Fixed, ONE};
use crate::random::ParticleRoll;
use crate::resources::{GamePhase, GameState, NextState};
use crate::systems::explosion::{burst, spawn_explosion};
use crate::world::{lemma_filter_next, World, WorldView};

verus! {

/// Whether two points lie less than `reach` apart.
pub open spec fn near(a: Position, b: Position, reach: Fixed) -> bool {
    &&& reach > 0
    &&& (a.x - b.x) * (a.x - b.x) + (a.y - b.y) * (a.y - b.y) < reach * reach
}

/// Whether two points lie less than `reach` apart.
pub fn within(a: Position, b: Position, reach: Fixed) -> (close: bool)
    ensures
        close == near(a, b, reach),
{
    if reach <= 0 {
        return false;
    }
    let r: i128 = reach as i128;
    let dx: i128 = a.x as i128 - b.x as i128;
    let dy: i128 = a.y as i128 - b.y as i128;
    if dx >= r || dx <= -r || dy >= r || dy <= -r {
        assert(dx * dx + dy * dy >= r * r) by (nonlinear_arith)
            requires
                r > 0,
                dx >= r || dx <= -r || dy >= r || dy <= -r,
        ;
        return false;
    }
    assert(0 <= dx * dx < 0x4000_0000_0000_0000_0000_0000_0000_0000 && 0 <= dy * dy
        < 0x4000_0000_0000_0000_0000_0000_0000_0000 && 0 <= r * r
        < 0x4000_0000_0000_0000_0000_0000_0000_0000) by (nonlinear_arith)
        requires
            0 < r < 0x8000_0000_0000_0000,
            -r < dx < r,
            -r < dy < r,
    ;
    dx * dx + dy * dy < r * r
}

/// How close the centres of a bullet and an invader come when they touch.
pub open spec fn enemy_reach() -> Fixed {
    half(sat_add(BULLET_SIZE, ENEMY_SIZE))
}

/// How close the centres of a bullet and the ship come when they touch.
pub open spec fn player_reach() -> Fixed {
    half(sat_add(BULLET_SIZE, PLAYER_SIZE))
}

/// Whether a bullet of the player touches an invader.
pub open spec fn hits(bullet: Bullet, enemy: Enemy) -> bool {
    near(bullet.position, enemy.position, enemy_reach())
}

/// Whether the bullet touches one of the first `count` invaders.
pub open spec fn hits_any(bullet: Bullet, enemies: Seq<Enemy>, count: int) -> bool {
    exists|j: int| 0 <= j < count && hits(bullet, #[trigger] enemies[j])
}

/// Whether one of the first `count` bullets touches the invader.
pub open spec fn hit_by_any(bullets: Seq<Bullet>, enemy: Enemy, count: int) -> bool {
    exists|i: int| 0 <= i < count && hits(#[trigger] bullets[i], enemy)
}

/// The bullets that touch no invader.
pub open spec fn missing(enemies: Seq<Enemy>) -> spec_fn(Bullet) -> bool {
    |bullet: Bullet| !hits_any(bullet, enemies, enemies.len() as int)
}

/// The invaders that no bullet touches.
pub open spec fn unhurt(bullets: Seq<Bullet>) -> spec_fn(Enemy) -> bool {
    |enemy: Enemy| !hit_by_any(bullets, enemy, bullets.len() as int)
}

/// Where the invaders that one bullet touches stand, in the order of the
/// invaders.
pub open spec fn struck_by(bullet: Bullet, enemies: Seq<Enemy>) -> Seq<Position>
    decreases enemies.len(),
{
    if enemies.len() == 0 {
        Seq::empty()
    } else {
        let rest = struck_by(bullet, enemies.drop_last());
        if hits(bullet, enemies.last()) {
            rest.push(enemies.last().position)
        } else {
            rest
        }
    }
}

/// One place for every pair of a bullet and an invader that touch: where the
/// invader stands. The pairs are taken bullet by bullet and, for each
/// bullet, in the order of the invaders.
pub open spec fn hit_sites(bullets: Seq<Bullet>, enemies: Seq<Enemy>) -> Seq<Position>
    decreases bullets.len(),
{
    if bullets.len() == 0 {
        Seq::empty()
    } else {
        hit_sites(bullets.drop_last(), enemies) + struck_by(bullets.last(), enemies)
    }
}

/// The particles of one explosion at each of the places, in their order.
pub open spec fn bursts(sites: Seq<Position>, color: Color, rolls: Seq<ParticleRoll>) -> Seq<
    ExplosionParticle,
>
    decreases sites.len(),
{
    if sites.len() == 0 {
        Seq::empty()
    } else {
        bursts(sites.drop_last(), color, rolls) + burst(sites.last(), color, rolls)
    }
}

/// The score after `count` invaders were hit: `ENEMY_REWARD` for each, up to
/// the highest score that can be told.
pub open spec fn rewarded(score: u32, count: nat) -> u32 {
    if score + ENEMY_REWARD * count > u32::MAX {
        u32::MAX
    } else {
        (score + ENEMY_REWARD * count) as u32
    }
}

/// The clip of a destroyed invader, `count` times.
pub open spec fn crashes(count: nat) -> Seq<Sound> {
    Seq::new(count, |i: int| Sound::EnemyDestroyed)
}

/// The colour of an exploding invader.
pub open spec fn enemy_blast() -> Color {
    Color::opaque(ONE, 600_000, 0)
}

/// The colour of the exploding ship.
pub open spec fn player_blast() -> Color {
    Color::opaque(ONE, 300_000, 0)
}

/// The world after the bullets of the player met the invaders: every bullet
/// that touches an invader and every invader that a bullet touches is gone,
/// and for every pair that touches there is an explosion where the invader
/// stood and the clip of a destroyed invader.
pub open spec fn after_enemy_hits(w: WorldView, rolls: Seq<ParticleRoll>) -> WorldView {
    let sites = hit_sites(w.bullets, w.enemies);
    WorldView {
        bullets: w.bullets.filter(missing(w.enemies)),
        enemies: w.enemies.filter(unhurt(w.bullets)),
        particles: w.particles + bursts(sites, enemy_blast(), rolls),
        sounds: w.sounds + crashes(sites.len()),
        ..w
    }
}

/// The state after the bullets of the player met the invaders: the score has
/// grown by `ENEMY_REWARD` for every pair that touches.
pub open spec fn scored(state: GameState, w: WorldView) -> GameState {
    GameState { score: rewarded(state.score, hit_sites(w.bullets, w.enemies).len()), ..state }
}

/// Tests every bullet of the player against every invader. Each pair that
/// touches scores `ENEMY_REWARD`, sets off an explosion where the invader
/// stands and the clip of a destroyed invader, and both are removed. A
/// bullet that touches several invaders scores for each of them.
pub fn check_bullet_enemy_collision(
    world: &mut World,
    state: &mut GameState,
    rolls: &[ParticleRoll; 20],
)
    ensures
        final(world)@ == after_enemy_hits(old(world)@, rolls@),
        *final(state) == scored(*old(state), old(world)@),
{
    let reach = fixed_half(fixed_add(BULLET_SIZE, ENEMY_SIZE));
    let ghost bullets = world.bullets@;
    let ghost enemies = world.enemies@;
    let n = world.bullets.len();
    let m = world.enemies.len();

    let mut hurt: Vec<bool> = Vec::new();
    let mut j: usize = 0;
    while j < m
        invariant
            j <= m,
            hurt@.len() == j,
            forall|t: int| 0 <= t < j ==> !hurt@[t],
        decreases m - j,
    {
        hurt.push(false);
        j = j + 1;
    }

    let mut sites: Vec<Position> = Vec::new();
    let mut kept: Vec<Bullet> = Vec::new();
    let mut i: usize = 0;
    while i < n
        invariant
            i <= n,
            n == bullets.len(),
            m == enemies.len(),
            world@ == old(world)@,
            bullets == world@.bullets,
            enemies == world@.enemies,
            reach == enemy_reach(),
            sites@ == hit_sites(bullets.take(i as int), enemies),
            kept@ == bullets.take(i as int).filter(missing(enemies)),
            hurt@.len() == m,
            forall|t: int|
                0 <= t < m ==> #[trigger] hurt@[t] == hit_by_any(bullets, enemies[t], i as int),
        decreases n - i,
    {
        let bullet = world.bullets[i];
        let ghost earlier = sites@;
        let ghost marks = hurt@;
        let mut any = false;
        let mut k: usize = 0;
        while k < m
            invariant
                k <= m,
                i < n,
                n == bullets.len(),
                m == enemies.len(),
                world@ == old(world)@,
                bullets == world@.bullets,
                enemies == world@.enemies,
                bullet == bullets[i as int],
                reach == enemy_reach(),
                sites@ == earlier + struck_by(bullet, enemies.take(k as int)),
                any == hits_any(bullet, enemies, k as int),
                hurt@.len() == m,
                marks.len() == m,
                forall|t: int|
                    0 <= t < k ==> #[trigger] hurt@[t] == (marks[t] || hits(bullet, enemies[t])),
                forall|t: int| k <= t < m ==> #[trigger] hurt@[t] == marks[t],
            decreases m - k,
        {
            let enemy = world.enemies[k];
            proof {
                assert(enemies.take(k + 1).drop_last() =~= enemies.take(k as int));
                assert(enemies.take(k + 1).last() == enemy);
            }
            if within(bullet.position, enemy.position, reach) {
                sites.push(enemy.position);
                hurt.set(k, true);
                any = true;
                assert(hits(bullet, enemies[k as int]));
            } else {
                assert(!hits(bullet, enemies[k as int]));
            }
            assert(sites@ =~= earlier + struck_by(bullet, enemies.take(k + 1)));
            k = k + 1;
        }
        proof {
            assert(enemies.take(m as int) =~= enemies);
            assert(bullets.take(i + 1).drop_last() =~= bullets.take(i as int));
            assert(bullets.take(i + 1).last() == bullet);
            lemma_filter_next(bullets, missing(enemies), i as int);
            assert forall|t: int| 0 <= t < m implies #[trigger] hurt@[t] == hit_by_any(
                bullets,
                enemies[t],
                i + 1,
            ) by {
                if hit_by_any(bullets, enemies[t], i + 1) {
                    let w = choose|w: int| 0 <= w < i + 1 && hits(#[trigger] bullets[w], enemies[t]);
                    if w < i {
                        assert(hit_by_any(bullets, enemies[t], i as int));
                    }
                }
                if marks[t] {
                    let w = choose|w: int| 0 <= w < i && hits(#[trigger] bullets[w], enemies[t]);
                    assert(hits(bullets[w], enemies[t]));
                }
                if hits(bullet, enemies[t]) {
                    assert(hits(bullets[i as int], enemies[t]));
                }
            }
        }
        if !any {
            kept.push(bullet);
        }
        i = i + 1;
    }
    assert(bullets.take(n as int) =~= bullets);

    let mut alive: Vec<Enemy> = Vec::new();
    let mut e: usize = 0;
    while e < m
        invariant
            e <= m,
            n == bullets.len(),
            m == enemies.len(),
            world@ == old(world)@,
            bullets == world@.bullets,
            enemies == world@.enemies,
            hurt@.len() == m,
            forall|t: int|
                0 <= t < m ==> #[trigger] hurt@[t] == hit_by_any(bullets, enemies[t], n as int),
            alive@ == enemies.take(e as int).filter(unhurt(bullets)),
        decreases m - e,
    {
        proof {
            lemma_filter_next(enemies, unhurt(bullets), e as int);
        }
        if !hurt[e] {
            alive.push(world.enemies[e]);
        }
        e = e + 1;
    }
    assert(enemies.take(m as int) =~= enemies);

    world.bullets = kept;
    world.enemies = alive;

    let count = sites.len();
    let mut s: usize = 0;
    while s < count
        invariant
            s <= count,
            count == sites@.len(),
            sites@ == hit_sites(bullets, enemies),
            bullets == old(world)@.bullets,
            enemies == old(world)@.enemies,
            world@ == (WorldView {
                bullets: bullets.filter(missing(enemies)),
                enemies: enemies.filter(unhurt(bullets)),
                particles: old(world)@.particles + bursts(
                    sites@.take(s as int),
                    enemy_blast(),
                    rolls@,
                ),
                sounds: old(world)@.sounds + crashes(s as nat),
                ..old(world)@
            }),
            *state == (GameState { score: rewarded(old(state).score, s as nat), ..*old(state) }),
        decreases count - s,
    {
        let site = sites[s];
        proof {
            assert(sites@.take(s + 1).drop_last() =~= sites@.take(s as int));
            assert(sites@.take(s + 1).last() == site);
        }
        spawn_explosion(world, site, Color::srgb(ONE, 600_000, 0), rolls);
        world.sounds.push(Sound::EnemyDestroyed);
        state.score = if state.score <= u32::MAX - ENEMY_REWARD {
            state.score + ENEMY_REWARD
        } else {
            u32::MAX
        };
        assert(world@.particles =~= old(world)@.particles + bursts(
            sites@.take(s + 1),
            enemy_blast(),
            rolls@,
        ));
        assert(world@.sounds =~= old(world)@.sounds + crashes((s + 1) as nat));
        s = s + 1;
    }
    assert(sites@.take(count as int) =~= sites@);
}

/// Whether a bullet of an invader touches the ship.
pub open spec fn strikes(bullet: EnemyBullet, player: Player) -> bool {
    near(bullet.position, player.position, player_reach())
}

/// The index of the first bullet that touches the ship, or the number of
/// bullets if none does.
pub open spec fn first_strike(bullets: Seq<EnemyBullet>, player: Player) -> int
    decreases bullets.len(),
{
    if bullets.len() == 0 || strikes(bullets[0], player) {
        0
    } else {
        1 + first_strike(bullets.drop_first(), player)
    }
}

/// The first strike is the index before which no bullet touches the ship and
/// at which, if there is a bullet, it does.
pub proof fn lemma_first_strike(bullets: Seq<EnemyBullet>, player: Player, k: int)
    requires
        0 <= k <= bullets.len(),
        forall|i: int| 0 <= i < k ==> !strikes(#[trigger] bullets[i], player),
        k < bullets.len() ==> strikes(bullets[k], player),
    ensures
        first_strike(bullets, player) == k,
    decreases bullets.len(),
{
    if k > 0 {
        let rest = bullets.drop_first();
        assert(!strikes(bullets[0], player));
        assert forall|i: int| 0 <= i < k - 1 implies !strikes(#[trigger] rest[i], player) by {
            assert(rest[i] == bullets[i + 1]);
        }
        lemma_first_strike(rest, player, k - 1);
    }
}

/// Whether the ship is hit: there is a ship, and a bullet touches it.
pub open spec fn player_struck(w: WorldView) -> bool {
    match w.player {
        Some(player) => first_strike(w.enemy_bullets, player) < w.enemy_bullets.len(),
        None => false,
    }
}

/// The world after the bullets of the invaders met the ship: if one touches
/// it, the first that does is gone and so is the ship, with an explosion
/// where it stood and the clip of the destroyed ship.
pub open spec fn after_player_hit(w: WorldView, rolls: Seq<ParticleRoll>) -> WorldView {
    match w.player {
        Some(player) if player_struck(w) => WorldView {
            player: None,
            enemy_bullets: w.enemy_bullets.remove(first_strike(w.enemy_bullets, player)),
            particles: w.particles + burst(player.position, player_blast(), rolls),
            sounds: w.sounds.push(Sound::PlayerDestroyed),
            ..w
        },
        _ => w,
    }
}

/// What a hit on the ship asks for: the game-over phase.
pub open spec fn strike_request(w: WorldView, next_state: NextState) -> NextState {
    if player_struck(w) {
        NextState::Pending(GamePhase::GameOver)
    } else {
        next_state
    }
}

/// Tests the bullets of the invaders against the ship, if there is one. The
/// first that touches it is removed with the ship, sets off an explosion
/// where the ship stood and the clip of the destroyed ship, and the game-over
/// phase is asked for. Later bullets are not looked at.
pub fn check_bullet_player_collision(
    world: &mut World,
    next_state: &mut NextState,
    rolls: &[ParticleRoll; 20],
)
    ensures
        final(world)@ == after_player_hit(old(world)@, rolls@),
        *final(next_state) == strike_request(old(world)@, *old(next_state)),
{
    if let Some(player) = world.player {
        let reach = fixed_half(fixed_add(BULLET_SIZE, PLAYER_SIZE));
        let n = world.enemy_bullets.len();
        let mut i: usize = 0;
        while i < n
            invariant
                i <= n,
                n == world@.enemy_bullets.len(),
                world@ == old(world)@,
                reach == player_reach(),
                forall|j: int| 0 <= j < i ==> !strikes(#[trigger] world@.enemy_bullets[j], player),
            ensures
                i < n ==> strikes(world@.enemy_bullets[i as int], player),
            decreases n - i,
        {
            if within(world.enemy_bullets[i].position, player.position, reach) {
                break ;
            }
            i = i + 1;
        }
        proof {
            lemma_first_strike(world@.enemy_bullets, player, i as int);
        }
        if i < n {
            world.enemy_bullets.remove(i);
            world.player = None;
            spawn_explosion(world, player.position, Color::srgb(ONE, 300_000, 0), rolls);
            world.sounds.push(Sound::PlayerDestroyed);
            next_state.set(GamePhase::GameOver);
        }
    }
}

} // verus!
