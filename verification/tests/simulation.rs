use vibe_invaders::components::{
    Bullet, Color, Enemy, EnemyBullet, EnemyKind, Player, Position, Score, Sound, TextStyle,
    Velocity,
};
use vibe_invaders::fixed::ONE;
use vibe_invaders::random::{Direction, ParticleRoll};
use vibe_invaders::resources::{GamePhase, GameState, Keys, NextState, WindowDimensions};
use vibe_invaders::systems::bullet::{cleanup_offscreen_bullets, move_bullets, move_enemy_bullets};
use vibe_invaders::systems::collision::{
    check_bullet_enemy_collision, check_bullet_player_collision, within,
};
use vibe_invaders::systems::enemy::{
    check_enemy_reached_bottom, enemy_fire_due, enemy_shoot, enemy_shoot_with, move_enemies,
};
use vibe_invaders::systems::player::{player_movement, player_shoot};
use vibe_invaders::systems::setup::{initialize_window_dimensions, spawn_enemies, spawn_player};
use vibe_invaders::systems::ui::update_score_display;
use vibe_invaders::systems::victory::check_all_enemies_destroyed;
use vibe_invaders::world::World;

fn at(x: i64, y: i64) -> Position {
    Position { x: x * ONE, y: y * ONE }
}

fn enemy_at(x: i64, y: i64) -> Enemy {
    Enemy {
        position: at(x, y),
        velocity: Velocity { x: 50 * ONE, y: 0 },
        original_x: x * ONE,
        kind: EnemyKind::Enemy1,
    }
}

fn bullet_at(x: i64, y: i64) -> Bullet {
    Bullet { position: at(x, y), velocity: Velocity { x: 0, y: 400 * ONE } }
}

fn bomb_at(x: i64, y: i64) -> EnemyBullet {
    EnemyBullet { position: at(x, y), velocity: Velocity { x: 0, y: -400 * ONE } }
}

fn plain_rolls() -> [ParticleRoll; 20] {
    [ParticleRoll {
        direction: Direction { cos: ONE, sin: 0 },
        speed: 500_000,
        size: 500_000,
        tint: 500_000,
        lifetime: 500_000,
    }; 20]
}

fn held(left: bool, right: bool) -> Keys {
    Keys { arrow_left: left, arrow_right: right, ..Keys::default() }
}

fn window() -> WindowDimensions {
    WindowDimensions::default()
}

#[test]
fn window_defaults_to_800_by_600() {
    assert_eq!(window(), WindowDimensions { width: 800 * ONE, height: 600 * ONE });
}

#[test]
fn window_takes_the_measured_size() {
    let mut dims = window();
    initialize_window_dimensions(&mut dims, None);
    assert_eq!(dims, window());
    let measured = WindowDimensions { width: 1024 * ONE, height: 768 * ONE };
    initialize_window_dimensions(&mut dims, Some(measured));
    assert_eq!(dims, measured);
}

#[test]
fn player_spawns_on_the_bottom_line() {
    let mut world = World::new();
    spawn_player(&mut world, &window());
    assert_eq!(world.player, Some(Player { position: at(0, -250) }));
    assert_eq!(
        world.score_text,
        Some(Score {
            value: 0,
            style: TextStyle {
                font_size: 30 * ONE,
                color: Color { red: ONE, green: ONE, blue: ONE, alpha: ONE },
                top: 10 * ONE,
                left: 10 * ONE,
            },
        })
    );
    assert!(world.music.is_some());
}

#[test]
fn formation_has_five_rows_of_eleven() {
    let mut world = World::new();
    spawn_enemies(&mut world, &window());
    assert_eq!(world.enemies.len(), 55);
    assert_eq!(
        world.enemies[0],
        Enemy {
            position: at(-300, 200),
            velocity: Velocity { x: 50 * ONE, y: 0 },
            original_x: -300 * ONE,
            kind: EnemyKind::Enemy3,
        }
    );
    assert_eq!(world.enemies[10].position, at(300, 200));
    assert_eq!(world.enemies[11].position, at(-300, 140));
    assert_eq!(world.enemies[11].kind, EnemyKind::Enemy2);
    assert_eq!(world.enemies[32].kind, EnemyKind::Enemy2);
    assert_eq!(world.enemies[33].kind, EnemyKind::Enemy1);
    assert_eq!(world.enemies[54].position, at(300, -40));
    assert_eq!(world.enemies[54].original_x, 300 * ONE);
    assert_eq!(world.enemies[54].kind, EnemyKind::Enemy1);
}

#[test]
fn formation_follows_the_height_of_the_window() {
    let mut world = World::new();
    spawn_enemies(&mut world, &WindowDimensions { width: 800 * ONE, height: 1000 * ONE });
    assert_eq!(world.enemies[0].position, at(-300, 400));
}

#[test]
fn player_moves_with_the_held_keys() {
    let mut world = World::new();
    world.player = Some(Player { position: at(0, -250) });
    player_movement(&mut world, &held(false, true), 100_000);
    assert_eq!(world.player, Some(Player { position: at(30, -250) }));
    player_movement(&mut world, &held(true, false), 16_667);
    assert_eq!(
        world.player,
        Some(Player { position: Position { x: 30 * ONE - 5_000_100, y: -250 * ONE } })
    );
    player_movement(&mut world, &Keys { key_a: true, ..Keys::default() }, 100_000);
    player_movement(&mut world, &Keys { key_d: true, ..Keys::default() }, 100_000);
    assert_eq!(
        world.player,
        Some(Player { position: Position { x: 30 * ONE - 5_000_100, y: -250 * ONE } })
    );
}

#[test]
fn opposite_keys_cancel() {
    let mut world = World::new();
    world.player = Some(Player { position: at(12, -250) });
    player_movement(&mut world, &held(true, true), 500_000);
    assert_eq!(world.player, Some(Player { position: at(12, -250) }));
    player_movement(&mut world, &Keys::default(), 500_000);
    assert_eq!(world.player, Some(Player { position: at(12, -250) }));
}

#[test]
fn player_never_leaves_the_window() {
    let mut world = World::new();
    world.player = Some(Player { position: at(0, -250) });
    for _ in 0..200 {
        player_movement(&mut world, &held(false, true), 16_667);
        let x = world.player.unwrap().position.x;
        assert!(-380 * ONE <= x && x <= 380 * ONE);
    }
    assert_eq!(world.player.unwrap().position.x, 380 * ONE);
    player_movement(&mut world, &held(true, false), 3_600 * ONE);
    assert_eq!(world.player.unwrap().position.x, -380 * ONE);
    player_movement(&mut world, &held(false, true), i64::MAX);
    assert_eq!(world.player.unwrap().position.x, 380 * ONE);
}

#[test]
fn player_outside_the_window_is_brought_back() {
    let mut world = World::new();
    world.player = Some(Player { position: at(5_000, -250) });
    player_movement(&mut world, &Keys::default(), 0);
    assert_eq!(world.player.unwrap().position.x, 380 * ONE);
}

#[test]
fn movement_without_a_player_does_nothing() {
    let mut world = World::new();
    player_movement(&mut world, &held(false, true), 100_000);
    assert_eq!(world.player, None);
    player_shoot(&mut world, &Keys { space_just_pressed: true, ..Keys::default() });
    assert!(world.bullets.is_empty());
}

#[test]
fn player_fires_from_its_nose() {
    let mut world = World::new();
    world.player = Some(Player { position: at(40, -250) });
    player_shoot(&mut world, &Keys::default());
    assert!(world.bullets.is_empty());
    player_shoot(&mut world, &Keys { space_just_pressed: true, ..Keys::default() });
    assert_eq!(
        world.bullets,
        vec![Bullet { position: at(40, -230), velocity: Velocity { x: 0, y: 400 * ONE } }]
    );
}

#[test]
fn bullets_fly_by_their_own_speed() {
    let mut world = World::new();
    world.bullets.push(bullet_at(5, 0));
    world.bullets.push(Bullet { position: at(7, 10), velocity: Velocity { x: 9, y: -100 * ONE } });
    world.enemy_bullets.push(bomb_at(-5, 0));
    move_bullets(&mut world, 50_000);
    assert_eq!(world.bullets[0].position, at(5, 20));
    assert_eq!(world.bullets[1].position, at(7, 5));
    assert_eq!(world.enemy_bullets[0].position, at(-5, 0));
    move_enemy_bullets(&mut world, 50_000);
    assert_eq!(world.enemy_bullets[0].position, at(-5, -20));
    assert_eq!(world.bullets[0].position, at(5, 20));
}

#[test]
fn bullets_past_the_margin_are_removed() {
    let mut world = World::new();
    world.bullets.push(bullet_at(0, 310));
    world.bullets.push(Bullet {
        position: Position { x: 0, y: 310 * ONE + 1 },
        velocity: Velocity { x: 0, y: 400 * ONE },
    });
    world.bullets.push(bullet_at(1, -400));
    world.enemy_bullets.push(bomb_at(0, -310));
    world.enemy_bullets.push(EnemyBullet {
        position: Position { x: 0, y: -310 * ONE - 1 },
        velocity: Velocity { x: 0, y: -400 * ONE },
    });
    world.enemy_bullets.push(bomb_at(1, 400));
    cleanup_offscreen_bullets(&mut world, &window());
    assert_eq!(world.bullets, vec![bullet_at(0, 310), bullet_at(1, -400)]);
    assert_eq!(world.enemy_bullets, vec![bomb_at(0, -310), bomb_at(1, 400)]);
}

#[test]
fn bullet_that_passes_the_top_is_gone_within_one_frame() {
    let mut world = World::new();
    world.bullets.push(bullet_at(0, 300));
    world.enemy_bullets.push(bomb_at(0, -300));
    move_bullets(&mut world, 50_000);
    move_enemy_bullets(&mut world, 50_000);
    cleanup_offscreen_bullets(&mut world, &window());
    assert!(world.bullets.is_empty());
    assert!(world.enemy_bullets.is_empty());
}

#[test]
fn formation_marches_with_its_heading() {
    let mut world = World::new();
    world.enemies.push(enemy_at(0, 100));
    world.enemies.push(enemy_at(60, 100));
    let mut state = GameState::default();
    move_enemies(&mut world, &mut state, 100_000);
    assert_eq!(state.enemy_direction, ONE);
    assert_eq!(world.enemies[0].position, at(5, 100));
    assert_eq!(world.enemies[1].position, at(65, 100));
    assert_eq!(world.enemies[0].original_x, 0);
    assert_eq!(world.enemies[0].velocity, Velocity { x: 50 * ONE, y: 0 });
}

#[test]
fn formation_turns_and_drops_when_one_invader_strays() {
    let mut world = World::new();
    world.enemies.push(enemy_at(0, 100));
    let mut strayed = enemy_at(60, 40);
    strayed.position.x = 160 * ONE + 1;
    world.enemies.push(strayed);
    let mut state = GameState::default();
    move_enemies(&mut world, &mut state, 100_000);
    assert_eq!(state.enemy_direction, -ONE);
    assert_eq!(world.enemies[0].position, at(-5, 80));
    assert_eq!(world.enemies[1].position, Position { x: 155 * ONE + 1, y: 20 * ONE });
    assert_eq!(world.enemies[1].velocity, Velocity { x: -50 * ONE, y: 0 });

    move_enemies(&mut world, &mut state, 100_000);
    assert_eq!(state.enemy_direction, -ONE);
    assert_eq!(world.enemies[0].position, at(-10, 80));
    assert_eq!(world.enemies[1].position, Position { x: 150 * ONE + 1, y: 20 * ONE });
}

#[test]
fn formation_does_not_turn_at_exactly_the_reach() {
    let mut world = World::new();
    let mut edge = enemy_at(0, 0);
    edge.position.x = -100 * ONE;
    world.enemies.push(edge);
    let mut state = GameState::default();
    move_enemies(&mut world, &mut state, 0);
    assert_eq!(state.enemy_direction, ONE);
    assert_eq!(world.enemies[0].position, at(-100, 0));
    world.enemies[0].position.x = -100 * ONE - 1;
    move_enemies(&mut world, &mut state, 0);
    assert_eq!(state.enemy_direction, -ONE);
    assert_eq!(world.enemies[0].position.y, -20 * ONE);
}

#[test]
fn empty_formation_keeps_its_heading() {
    let mut world = World::new();
    let mut state = GameState::default();
    move_enemies(&mut world, &mut state, 100_000);
    assert_eq!(state, GameState::default());
    assert!(world.enemies.is_empty());
}

#[test]
fn invaders_fire_when_the_cooldown_runs_out() {
    let mut world = World::new();
    world.enemies.push(enemy_at(0, 100));
    world.enemies.push(enemy_at(60, 40));
    let mut state = GameState::default();
    enemy_shoot_with(&mut world, &mut state, 1_999_999, 1);
    assert_eq!(state.enemy_shoot_timer, 1_999_999);
    assert!(world.enemy_bullets.is_empty());
    assert!(!enemy_fire_due(&world, &state, 0));
    assert!(enemy_fire_due(&world, &state, 1));
    enemy_shoot_with(&mut world, &mut state, 1, 1);
    assert_eq!(state.enemy_shoot_timer, 0);
    assert_eq!(
        world.enemy_bullets,
        vec![EnemyBullet { position: at(60, 25), velocity: Velocity { x: 0, y: -400 * ONE } }]
    );
    assert_eq!(world.sounds, vec![Sound::EnemyShoot]);
}

#[test]
fn cooldown_starts_again_when_no_invader_is_left() {
    let mut world = World::new();
    let mut state = GameState::default();
    assert!(!enemy_fire_due(&world, &state, 3 * ONE));
    enemy_shoot(&mut world, &mut state, 3 * ONE);
    assert_eq!(state.enemy_shoot_timer, 0);
    assert!(world.enemy_bullets.is_empty());
    assert!(world.sounds.is_empty());
}

#[test]
fn random_invader_is_one_of_the_formation() {
    for _ in 0..200 {
        let mut world = World::new();
        world.enemies.push(enemy_at(0, 100));
        world.enemies.push(enemy_at(60, 40));
        world.enemies.push(enemy_at(120, -20));
        let mut state = GameState::default();
        enemy_shoot(&mut world, &mut state, 2 * ONE);
        assert_eq!(state.enemy_shoot_timer, 0);
        assert_eq!(world.enemy_bullets.len(), 1);
        let bomb = world.enemy_bullets[0];
        assert!(
            bomb.position == at(0, 85) || bomb.position == at(60, 25) || bomb.position == at(120, -35)
        );
        assert_eq!(bomb.velocity, Velocity { x: 0, y: -400 * ONE });
    }
}

#[test]
fn every_invader_gets_its_turn() {
    let mut seen = [false; 3];
    for _ in 0..500 {
        let mut world = World::new();
        world.enemies.push(enemy_at(0, 0));
        world.enemies.push(enemy_at(60, 0));
        world.enemies.push(enemy_at(120, 0));
        let mut state = GameState::default();
        enemy_shoot(&mut world, &mut state, 2 * ONE);
        let x = world.enemy_bullets[0].position.x / (60 * ONE);
        seen[x as usize] = true;
    }
    assert_eq!(seen, [true; 3]);
}

#[test]
fn points_are_near_below_the_reach_only() {
    assert!(within(at(0, 0), at(0, 0), 1));
    assert!(!within(at(0, 0), at(0, 0), 0));
    assert!(!within(at(0, 0), at(0, 0), -5));
    assert!(within(at(0, 0), at(3, 4), 5 * ONE + 1));
    assert!(!within(at(0, 0), at(3, 4), 5 * ONE));
    assert!(!within(
        Position { x: i64::MIN, y: i64::MIN },
        Position { x: i64::MAX, y: i64::MAX },
        i64::MAX
    ));
    assert!(within(
        Position { x: i64::MAX, y: 0 },
        Position { x: i64::MAX - 10, y: 0 },
        11
    ));
}

#[test]
fn collision_removes_bullet_and_enemy_and_scores() {
    let mut world = World::new();
    world.player = Some(Player { position: at(0, -260) });
    world.enemies.push(enemy_at(0, 0));
    world.bullets.push(bullet_at(0, 0));
    let mut state = GameState::default();
    check_bullet_enemy_collision(&mut world, &mut state, &plain_rolls());
    assert!(world.enemies.is_empty());
    assert!(world.bullets.is_empty());
    assert_eq!(state.score, 10);
    assert_eq!(world.particles.len(), 20);
    for particle in &world.particles {
        assert_eq!(particle.position, at(0, 0));
        assert_eq!(particle.lifetime, 0);
    }
    assert_eq!(world.sounds, vec![Sound::EnemyDestroyed]);
    assert_eq!(world.player, Some(Player { position: at(0, -260) }));
    assert_eq!(state, GameState { score: 10, ..GameState::default() });
}

#[test]
fn collision_needs_less_than_the_sum_of_half_sizes() {
    let mut world = World::new();
    world.enemies.push(enemy_at(0, 0));
    world.bullets.push(Bullet {
        position: Position { x: 17_500_000, y: 0 },
        velocity: Velocity { x: 0, y: 400 * ONE },
    });
    let mut state = GameState::default();
    check_bullet_enemy_collision(&mut world, &mut state, &plain_rolls());
    assert_eq!(world.enemies.len(), 1);
    assert_eq!(world.bullets.len(), 1);
    assert_eq!(state.score, 0);
    assert!(world.particles.is_empty());

    world.bullets[0].position.x = 17_499_999;
    check_bullet_enemy_collision(&mut world, &mut state, &plain_rolls());
    assert!(world.enemies.is_empty());
    assert!(world.bullets.is_empty());
    assert_eq!(state.score, 10);
}

#[test]
fn one_bullet_scores_for_every_enemy_that_it_touches() {
    let mut world = World::new();
    world.enemies.push(enemy_at(0, 0));
    world.enemies.push(enemy_at(200, 0));
    world.enemies.push(enemy_at(10, 0));
    world.bullets.push(bullet_at(5, 0));
    world.bullets.push(bullet_at(-200, 0));
    let mut state = GameState { score: 40, ..GameState::default() };
    check_bullet_enemy_collision(&mut world, &mut state, &plain_rolls());
    assert_eq!(state.score, 60);
    assert_eq!(world.enemies, vec![enemy_at(200, 0)]);
    assert_eq!(world.bullets, vec![bullet_at(-200, 0)]);
    assert_eq!(world.particles.len(), 40);
    assert_eq!(world.particles[0].position, at(0, 0));
    assert_eq!(world.particles[19].position, at(0, 0));
    assert_eq!(world.particles[20].position, at(10, 0));
    assert_eq!(world.particles[39].position, at(10, 0));
    assert_eq!(world.sounds, vec![Sound::EnemyDestroyed, Sound::EnemyDestroyed]);
}

#[test]
fn two_bullets_on_one_enemy_score_twice() {
    let mut world = World::new();
    world.enemies.push(enemy_at(0, 0));
    world.bullets.push(bullet_at(0, 5));
    world.bullets.push(bullet_at(300, 0));
    world.bullets.push(bullet_at(0, -5));
    let mut state = GameState::default();
    check_bullet_enemy_collision(&mut world, &mut state, &plain_rolls());
    assert_eq!(state.score, 20);
    assert!(world.enemies.is_empty());
    assert_eq!(world.bullets, vec![bullet_at(300, 0)]);
    assert_eq!(world.particles.len(), 40);
}

#[test]
fn score_stops_at_the_highest_number() {
    let mut world = World::new();
    world.enemies.push(enemy_at(0, 0));
    world.bullets.push(bullet_at(0, 0));
    let mut state = GameState { score: u32::MAX - 3, ..GameState::default() };
    check_bullet_enemy_collision(&mut world, &mut state, &plain_rolls());
    assert_eq!(state.score, u32::MAX);
}

#[test]
fn first_bullet_that_touches_the_player_ends_the_game() {
    let mut world = World::new();
    world.player = Some(Player { position: at(0, -250) });
    world.enemy_bullets.push(bomb_at(100, -250));
    world.enemy_bullets.push(bomb_at(10, -250));
    world.enemy_bullets.push(bomb_at(-10, -250));
    let mut next_state = NextState::Unchanged;
    check_bullet_player_collision(&mut world, &mut next_state, &plain_rolls());
    assert_eq!(next_state, NextState::Pending(GamePhase::GameOver));
    assert_eq!(world.player, None);
    assert_eq!(world.enemy_bullets, vec![bomb_at(100, -250), bomb_at(-10, -250)]);
    assert_eq!(world.particles.len(), 20);
    assert_eq!(world.particles[7].position, at(0, -250));
    assert_eq!(
        world.particles[7].color,
        Color { red: ONE, green: 300_000, blue: 0, alpha: ONE }
    );
    assert_eq!(world.sounds, vec![Sound::PlayerDestroyed]);
}

#[test]
fn bullet_at_the_reach_of_the_player_misses() {
    let mut world = World::new();
    world.player = Some(Player { position: at(0, -250) });
    world.enemy_bullets.push(EnemyBullet {
        position: Position { x: 0, y: -250 * ONE + 22_500_000 },
        velocity: Velocity { x: 0, y: -400 * ONE },
    });
    let mut next_state = NextState::Unchanged;
    check_bullet_player_collision(&mut world, &mut next_state, &plain_rolls());
    assert_eq!(next_state, NextState::Unchanged);
    assert!(world.player.is_some());
    assert_eq!(world.enemy_bullets.len(), 1);
    world.enemy_bullets[0].position.y -= 1;
    check_bullet_player_collision(&mut world, &mut next_state, &plain_rolls());
    assert_eq!(next_state, NextState::Pending(GamePhase::GameOver));
    assert!(world.player.is_none());
    assert!(world.enemy_bullets.is_empty());
}

#[test]
fn bullets_are_not_tested_without_a_player() {
    let mut world = World::new();
    world.enemy_bullets.push(bomb_at(0, -250));
    let mut next_state = NextState::Unchanged;
    check_bullet_player_collision(&mut world, &mut next_state, &plain_rolls());
    assert_eq!(next_state, NextState::Unchanged);
    assert_eq!(world.enemy_bullets.len(), 1);
    assert!(world.particles.is_empty());
    assert!(world.sounds.is_empty());
}

#[test]
fn invader_below_the_bottom_line_ends_the_game() {
    let mut world = World::new();
    world.enemies.push(enemy_at(0, 100));
    world.enemies.push(enemy_at(0, -250));
    let mut next_state = NextState::Unchanged;
    check_enemy_reached_bottom(&world, &mut next_state);
    assert_eq!(next_state, NextState::Unchanged);
    world.enemies[1].position.y = -250 * ONE - 1;
    check_enemy_reached_bottom(&world, &mut next_state);
    assert_eq!(next_state, NextState::Pending(GamePhase::GameOver));
}

#[test]
fn no_invader_left_is_a_victory() {
    let mut world = World::new();
    world.enemies.push(enemy_at(0, 100));
    let mut state = GameState::default();
    let mut next_state = NextState::Unchanged;
    check_all_enemies_destroyed(&world, &mut next_state, &mut state);
    assert!(!state.victory);
    assert_eq!(next_state, NextState::Unchanged);
    world.enemies.clear();
    check_all_enemies_destroyed(&world, &mut next_state, &mut state);
    assert!(state.victory);
    assert_eq!(next_state, NextState::Pending(GamePhase::GameOver));
}

#[test]
fn score_readout_is_redrawn_only_when_the_score_changed() {
    let mut world = World::new();
    spawn_player(&mut world, &window());
    let mut state = GameState::default();
    assert!(!update_score_display(&mut world, &state));
    state.score = 30;
    assert!(update_score_display(&mut world, &state));
    assert_eq!(world.score_text.unwrap().value, 30);
    assert_eq!(world.score_text.unwrap().style.font_size, 30 * ONE);
    assert!(!update_score_display(&mut world, &state));
    world.score_text = None;
    state.score = 40;
    assert!(!update_score_display(&mut world, &state));
    assert_eq!(world.score_text, None);
}
