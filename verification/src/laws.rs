//! What holds of every session, proved from the rules.

use vstd::prelude::*;
use crate::components::{Color, Enemy, EnemyBullet, Position};
use crate::constants::{
    EXPLOSION_LIFETIME, EXPLOSION_PARTICLE_SIZE, EXPLOSION_PARTICLE_SPEED, FORMATION_DROP,
    STAR_BASE_SPEED, STAR_SPAWN_RADIUS,
};
use crate::fixed::{lemma_sat_mul_grows, sat_mul, sat_neg, sat_sub, Fixed};
use crate::game::{adorned, entered, exited, flown, fought, invaded, played, ticked, GameView};
use crate::random::{spread, unit, ParticleRoll, Rolls, StarRoll};
use crate::resources::{
    descending, ledger_ok, lemma_place_bounds, lemma_with_score_keeps_order, makes_the_board,
    marked, place_of, ranked, unmarked, with_score, GamePhase, GameState, Keys, ScoreEntry,
};
use crate::systems::background::{star_offset, star_speed};
use crate::systems::bullet::{
    above_bottom, after_bullet_flight, after_enemy_bullet_flight, below_top, bottom_limit,
    top_limit,
};
use crate::systems::collision::{after_enemy_hits, first_strike, missing, player_struck};
use crate::systems::enemy::{bomb_from, fires, formation_after, turns};
use crate::systems::explosion::{particle_from, particle_speed};
use crate::systems::player::{after_player_fire, after_steering};
use crate::systems::screens::timer_after;
use crate::world::WorldView;

verus! {

/// The ledger never holds more than five entries, and its entries never
/// rise: a ledger in order is in order after any game is recorded.
pub proof fn law_ledger_stays_in_order(s: Seq<ScoreEntry>, score: u32)
    requires
        ledger_ok(s),
    ensures
        ledger_ok(with_score(s, score)),
        with_score(s, score).len() <= 5,
        descending(with_score(s, score)),
{
    lemma_with_score_keeps_order(s, score);
}

/// Recording a game sorts the ledger: the entries as they stood, unmarked,
/// and the new one are put highest first, the old entries keep their order
/// among themselves, and the new entry stands behind every old entry with
/// the same score.
pub proof fn law_recording_is_a_stable_sort(s: Seq<ScoreEntry>, score: u32)
    requires
        ledger_ok(s),
    ensures
        descending(ranked(s, score)),
        ranked(s, score).remove(place_of(s, score) as int) == unmarked(s),
        ranked(s, score)[place_of(s, score) as int] == (ScoreEntry { score, is_current: true }),
        forall|i: int| 0 <= i < place_of(s, score) ==> ranked(s, score)[i].score >= score,
        forall|i: int|
            place_of(s, score) < i < ranked(s, score).len() ==> ranked(s, score)[i].score < score,
{
    let k = place_of(s, score) as int;
    let all = ranked(s, score);
    lemma_place_bounds(s, score);
    assert(all.remove(k) =~= unmarked(s));
    assert forall|i: int, j: int| 0 <= i <= j < all.len() implies all[i].score
        >= all[j].score by {
        if j < k {
            assert(all[i].score == s[i].score && all[j].score == s[j].score);
        } else if j == k {
            if i < k {
                assert(all[i].score == s[i].score);
            }
        } else {
            assert(all[j].score == s[j - 1].score);
            assert(s[k].score >= s[j - 1].score);
            if i < k {
                assert(all[i].score == s[i].score);
            } else if i > k {
                assert(all[i].score == s[i - 1].score);
            }
        }
    }
    assert forall|i: int| k < i < all.len() implies all[i].score < score by {
        assert(all[i].score == s[i - 1].score);
        assert(s[k].score >= s[i - 1].score);
    }
    assert forall|i: int| 0 <= i < k implies all[i].score >= score by {
        assert(all[i].score == s[i].score);
    }
}

/// After a game is recorded whose score finds room in the ledger, exactly
/// one entry is marked, and it holds that score.
pub proof fn law_one_entry_is_current(s: Seq<ScoreEntry>, score: u32)
    requires
        ledger_ok(s),
        makes_the_board(s, score),
    ensures
        marked(with_score(s, score)) == 1,
        forall|i: int|
            0 <= i < with_score(s, score).len() ==> ((#[trigger] with_score(
                s,
                score,
            )[i]).is_current <==> i == place_of(s, score)),
        place_of(s, score) < with_score(s, score).len(),
        with_score(s, score)[place_of(s, score) as int].score == score,
{
    lemma_with_score_keeps_order(s, score);
}

/// After a game is recorded whose score finds no room in the ledger, the
/// scores of the ledger are as they were and no entry is marked.
pub proof fn law_low_score_leaves_no_mark(s: Seq<ScoreEntry>, score: u32)
    requires
        ledger_ok(s),
        !makes_the_board(s, score),
    ensures
        with_score(s, score) == unmarked(s),
        marked(with_score(s, score)) == 0,
{
    lemma_with_score_keeps_order(s, score);
    lemma_place_bounds(s, score);
    assert(with_score(s, score) =~= unmarked(s));
}

/// The ledger is in order after every frame.
pub proof fn law_tick_keeps_ledger(g: GameView, keys: Keys, dt: Fixed, rolls: Rolls, pick: int)
    requires
        ledger_ok(g.high_scores),
    ensures
        ledger_ok(ticked(g, keys, dt, rolls, pick).high_scores),
{
    lemma_with_score_keeps_order(g.high_scores, played(g, keys, dt, rolls, pick).state.score);
    lemma_with_score_keeps_order(g.high_scores, g.state.score);
}

/// In a frame of play the heading of the formation is reversed once if the
/// frame begins with an invader too far from its anchor, and not otherwise.
pub proof fn law_formation_turns_once(
    g: GameView,
    keys: Keys,
    dt: Fixed,
    rolls: Rolls,
    pick: int,
)
    requires
        g.phase == GamePhase::Playing,
    ensures
        ticked(g, keys, dt, rolls, pick).state.enemy_direction == if turns(g.world.enemies) {
            sat_neg(g.state.enemy_direction)
        } else {
            g.state.enemy_direction
        },
{
}

/// When the formation turns every invader drops by `FORMATION_DROP`, and
/// when it does not none changes its height.
pub proof fn law_formation_drops_together(
    enemies: Seq<Enemy>,
    direction: Fixed,
    dt: Fixed,
    i: int,
)
    requires
        0 <= i < enemies.len(),
    ensures
        formation_after(enemies, direction, dt).len() == enemies.len(),
        formation_after(enemies, direction, dt)[i].position.y == if turns(enemies) {
            sat_sub(enemies[i].position.y, FORMATION_DROP)
        } else {
            enemies[i].position.y
        },
{
}

/// Whether the ship, if there is one, is inside the window: no more than
/// 380 units from the middle.
pub open spec fn ship_inside(w: WorldView) -> bool {
    match w.player {
        Some(player) => -380_000_000 <= player.position.x <= 380_000_000,
        None => true,
    }
}

/// A ship that is inside the window is inside it after every frame, whatever
/// keys are held and however long the frame lasts.
pub proof fn law_ship_stays_inside(g: GameView, keys: Keys, dt: Fixed, rolls: Rolls, pick: int)
    requires
        ship_inside(g.world),
    ensures
        ship_inside(ticked(g, keys, dt, rolls, pick).world),
{
}

/// After a frame of play the ship is inside the window, wherever it was
/// before.
pub proof fn law_play_brings_ship_inside(
    g: GameView,
    keys: Keys,
    dt: Fixed,
    rolls: Rolls,
    pick: int,
)
    requires
        g.phase == GamePhase::Playing,
    ensures
        ship_inside(ticked(g, keys, dt, rolls, pick).world),
{
}

/// The bullet that the invader at index `pick` fires in the frame of play
/// that begins in `g`.
pub open spec fn bomb_of_frame(g: GameView, keys: Keys, dt: Fixed, pick: int) -> EnemyBullet {
    bomb_from(formation_after(g.world.enemies, g.state.enemy_direction, dt)[pick])
}

/// After a frame of play no bullet of the player is above the top limit, and
/// no bullet of the invaders is below the bottom limit but, at most, the one
/// that was fired in this frame. So a bullet that has passed its limit is
/// gone one frame later.
pub proof fn law_lost_bullets_are_removed(
    g: GameView,
    keys: Keys,
    dt: Fixed,
    rolls: Rolls,
    pick: int,
)
    requires
        g.phase == GamePhase::Playing,
    ensures
        forall|i: int|
            0 <= i < ticked(g, keys, dt, rolls, pick).world.bullets.len() ==> (#[trigger] ticked(
                g,
                keys,
                dt,
                rolls,
                pick,
            ).world.bullets[i]).position.y <= top_limit(g.window),
        forall|i: int|
            0 <= i < ticked(g, keys, dt, rolls, pick).world.enemy_bullets.len() ==> {
                let bullet = #[trigger] ticked(g, keys, dt, rolls, pick).world.enemy_bullets[i];
                bullet.position.y >= bottom_limit(g.window) || (fires(g.world, g.state, dt)
                    && bullet == bomb_of_frame(g, keys, dt, pick))
            },
{
    let after = ticked(g, keys, dt, rolls, pick);
    let first = flown(g, keys, dt);
    let second = invaded(first, dt, pick);
    let third = fought(second, rolls);
    let last = adorned(third, dt, rolls);
    assert(last == played(g, keys, dt, rolls, pick));
    assert(after.world.bullets.len() > 0 ==> after.world.bullets == third.world.bullets);
    assert(after.world.enemy_bullets.len() > 0 ==> after.world.enemy_bullets
        == third.world.enemy_bullets);
    assert(first.world.enemies == g.world.enemies);
    assert forall|i: int| 0 <= i < after.world.bullets.len() implies (
    #[trigger] after.world.bullets[i]).position.y <= top_limit(g.window) by {
        let shots = first.world.bullets;
        let kept = shots.filter(missing(second.world.enemies));
        assert(after.world.bullets == kept);
        shots.lemma_filter_contains_rev(missing(second.world.enemies), kept[i]);
        let j = choose|j: int| 0 <= j < shots.len() && shots[j] == kept[i];
        lemma_cleaned_bullets(g, keys, dt, j);
    }
    assert forall|i: int| 0 <= i < after.world.enemy_bullets.len() implies {
        let bullet = #[trigger] after.world.enemy_bullets[i];
        bullet.position.y >= bottom_limit(g.window) || (fires(g.world, g.state, dt) && bullet
            == bomb_of_frame(g, keys, dt, pick))
    } by {
        let bombs = second.world.enemy_bullets;
        let left = after.world.enemy_bullets;
        assert(left == third.world.enemy_bullets);
        let hit = after_enemy_hits(second.world, rolls.particles@);
        assert(hit.enemy_bullets == bombs);
        let j = if player_struck(hit) && i >= first_strike(bombs, hit.player.unwrap()) {
            i + 1
        } else {
            i
        };
        assert(left[i] == bombs[j]);
        if j < first.world.enemy_bullets.len() {
            assert(bombs[j] == first.world.enemy_bullets[j]);
            lemma_cleaned_enemy_bullets(g, keys, dt, j);
        }
    }
}

/// Right after the cleanup no bullet of the player is above the top limit.
proof fn lemma_cleaned_bullets(g: GameView, keys: Keys, dt: Fixed, j: int)
    requires
        0 <= j < flown(g, keys, dt).world.bullets.len(),
    ensures
        flown(g, keys, dt).world.bullets[j].position.y <= top_limit(g.window),
{
    let steered = after_player_fire(after_steering(g.world, keys, dt), keys);
    let moved = after_bullet_flight(steered, dt);
    moved.bullets.lemma_filter_pred(below_top(g.window), j);
}

/// Right after the cleanup no bullet of the invaders is below the bottom
/// limit.
proof fn lemma_cleaned_enemy_bullets(g: GameView, keys: Keys, dt: Fixed, j: int)
    requires
        0 <= j < flown(g, keys, dt).world.enemy_bullets.len(),
    ensures
        flown(g, keys, dt).world.enemy_bullets[j].position.y >= bottom_limit(g.window),
{
    let steered = after_player_fire(after_steering(g.world, keys, dt), keys);
    let moved = after_enemy_bullet_flight(after_bullet_flight(steered, dt), dt);
    moved.enemy_bullets.lemma_filter_pred(above_bottom(g.window), j);
}

/// A frame of play that ends with no invader left is a victory, and the
/// session is in the game-over phase when the frame is over.
pub proof fn law_last_invader_ends_the_game(
    g: GameView,
    keys: Keys,
    dt: Fixed,
    rolls: Rolls,
    pick: int,
)
    requires
        g.phase == GamePhase::Playing,
        played(g, keys, dt, rolls, pick).world.enemies.len() == 0,
    ensures
        ticked(g, keys, dt, rolls, pick).phase == GamePhase::GameOver,
        ticked(g, keys, dt, rolls, pick).state.victory,
        ticked(g, keys, dt, rolls, pick).game_over_timer.elapsed == 0,
{
}

/// On the game-over screen the space bar starts a new game if and only if
/// the restart delay has passed by the end of the frame. The new game begins
/// in the state in which every game begins.
pub proof fn law_restart_waits_for_the_delay(
    g: GameView,
    keys: Keys,
    dt: Fixed,
    rolls: Rolls,
    pick: int,
)
    requires
        g.phase == GamePhase::GameOver,
    ensures
        ticked(g, keys, dt, rolls, pick).phase == if keys.space_just_pressed && timer_after(
            g.game_over_timer,
            dt,
        ).ready() {
            GamePhase::Playing
        } else {
            GamePhase::GameOver
        },
        ticked(g, keys, dt, rolls, pick).phase == GamePhase::Playing ==> ticked(
            g,
            keys,
            dt,
            rolls,
            pick,
        ).state == GameState::initial(),
        ticked(g, keys, dt, rolls, pick).phase == GamePhase::GameOver ==> ticked(
            g,
            keys,
            dt,
            rolls,
            pick,
        ).state == g.state,
{
}

/// A star made of draws from `[0, 1)` flies at the base speed, half of it
/// less or more, and appears no more than `STAR_SPAWN_RADIUS` from the
/// centre along its direction.
pub proof fn law_star_draws_keep_to_their_ranges(roll: StarRoll)
    requires
        unit(roll.speed),
        unit(roll.offset),
    ensures
        75_000_000 <= star_speed(roll) < 225_000_000,
        -10_000_000 <= star_offset(roll) < 10_000_000,
{
    lemma_spread_keeps_to_its_range(500_000, 1_500_000, roll.speed);
    lemma_spread_keeps_to_its_range(sat_neg(STAR_SPAWN_RADIUS), STAR_SPAWN_RADIUS, roll.offset);
    let speed = spread(500_000, 1_500_000, roll.speed);
    lemma_sat_mul_grows(STAR_BASE_SPEED, 500_000, speed);
    lemma_sat_mul_grows(STAR_BASE_SPEED, speed, 1_499_999);
}

/// A draw from `[0, 1)` picks a point between `low` and `high`.
proof fn lemma_spread_keeps_to_its_range(low: Fixed, high: Fixed, draw: Fixed)
    requires
        -1_000_000_000_000 <= low <= high <= 1_000_000_000_000,
        unit(draw),
    ensures
        low <= spread(low, high, draw) <= high,
        low < high ==> spread(low, high, draw) < high,
{
    let width = sat_sub(high, low);
    assert(width == high - low);
    lemma_sat_mul_grows(width, 0, draw);
    lemma_sat_mul_grows(width, draw, 999_999);
    assert(width * 0 == 0);
    assert(sat_mul(width, 0) == 0);
    assert(width * 999_999 < width * 1_000_000 || width == 0);
    assert(sat_mul(width, 999_999) <= width);
    assert(width > 0 ==> sat_mul(width, 999_999) < width);
}

/// A particle made of draws from `[0, 1)` flies at the standard speed, half
/// of it less or more, has the standard size, half of it less or more, and
/// lives for the standard life span, a fifth of it less or more.
pub proof fn law_particle_draws_keep_to_their_ranges(
    position: Position,
    color: Color,
    roll: ParticleRoll,
)
    requires
        unit(roll.speed),
        unit(roll.size),
        unit(roll.lifetime),
    ensures
        100_000_000 <= particle_speed(roll) < 300_000_000,
        1_500_000 <= particle_from(position, color, roll).size < 4_500_000,
        640_000 <= particle_from(position, color, roll).max_lifetime < 960_000,
        particle_from(position, color, roll).lifetime == 0,
        particle_from(position, color, roll).position == position,
{
    lemma_spread_keeps_to_its_range(500_000, 1_500_000, roll.speed);
    lemma_spread_keeps_to_its_range(500_000, 1_500_000, roll.size);
    lemma_spread_keeps_to_its_range(800_000, 1_200_000, roll.lifetime);
    let speed = spread(500_000, 1_500_000, roll.speed);
    let size = spread(500_000, 1_500_000, roll.size);
    let life = spread(800_000, 1_200_000, roll.lifetime);
    lemma_sat_mul_grows(EXPLOSION_PARTICLE_SPEED, 500_000, speed);
    lemma_sat_mul_grows(EXPLOSION_PARTICLE_SPEED, speed, 1_499_999);
    lemma_sat_mul_grows(EXPLOSION_PARTICLE_SIZE, 500_000, size);
    lemma_sat_mul_grows(EXPLOSION_PARTICLE_SIZE, size, 1_499_999);
    lemma_sat_mul_grows(EXPLOSION_LIFETIME, 800_000, life);
    lemma_sat_mul_grows(EXPLOSION_LIFETIME, life, 1_199_999);
}

/// Entering play and leaving it at once leaves nothing of a game behind: no
/// ship, no invader, no bullet, no score readout, no music. What else was in
/// the world is as it was.
pub proof fn law_play_leaves_nothing_behind(g: GameView)
    ensures
        exited(entered(g, GamePhase::Playing), GamePhase::Playing).world == (WorldView {
            player: None,
            enemies: Seq::empty(),
            bullets: Seq::empty(),
            enemy_bullets: Seq::empty(),
            score_text: None,
            music: None,
            ..g.world
        }),
{
}

} // verus!
