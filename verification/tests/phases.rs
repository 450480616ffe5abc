use vibe_invaders::components::{
    Bullet, Color, Enemy, EnemyBullet, EnemyKind, GameOverLine, GameOverUI, Player, Position,
    Sound, StartLine, StartScreenUI, TextStyle, Velocity,
};
use vibe_invaders::fixed::ONE;
use vibe_invaders::game::Game;
use vibe_invaders::random::{Direction, Directions, ParticleRoll, Rolls, StarRoll};
use vibe_invaders::resources::{
    GameOverTimer, GamePhase, GameState, HighScores, Keys, NextState, ScoreEntry,
    WindowDimensions,
};
use vibe_invaders::systems::screens::{
    cleanup_game_entities, cleanup_game_over_screen, cleanup_start_screen,
    game_over_screen_input, setup_game_over_screen, setup_start_screen, start_screen_input,
};
use vibe_invaders::systems::setup::{spawn_enemies, spawn_player};
use vibe_invaders::world::World;

const WHITE: Color = Color { red: ONE, green: ONE, blue: ONE, alpha: ONE };
const GREY: Color = Color { red: 700_000, green: 700_000, blue: 700_000, alpha: ONE };
const MINT: Color = Color { red: 0, green: ONE, blue: 500_000, alpha: ONE };

fn rolls() -> Rolls {
    Rolls {
        star: StarRoll { direction: Direction { cos: ONE, sin: 0 }, speed: 500_000, offset: 500_000 },
        particles: [ParticleRoll {
            direction: Direction { cos: 0, sin: ONE },
            speed: 500_000,
            size: 500_000,
            tint: 500_000,
            lifetime: 500_000,
        }; 20],
    }
}

fn directions() -> Directions {
    Directions {
        star: Direction { cos: 0, sin: -ONE },
        particles: [Direction { cos: -600_000, sin: 800_000 }; 20],
    }
}

fn space() -> Keys {
    Keys { space_just_pressed: true, ..Keys::default() }
}

fn enemy_at(x: i64, y: i64) -> Enemy {
    Enemy {
        position: Position { x: x * ONE, y: y * ONE },
        velocity: Velocity { x: 50 * ONE, y: 0 },
        original_x: x * ONE,
        kind: EnemyKind::Enemy2,
    }
}

fn line(font_size: i64, color: Color, top: i64, left: i64) -> TextStyle {
    TextStyle { font_size: font_size * ONE, color, top: top * ONE, left: left * ONE }
}

fn playing() -> Game {
    let mut game = Game::new(None);
    game.tick_with(&space(), 16_667, &rolls(), 0);
    assert_eq!(game.phase, GamePhase::Playing);
    game
}

fn game_over_after_victory() -> Game {
    let mut game = playing();
    game.world.enemies.clear();
    game.tick_with(&Keys::default(), 0, &rolls(), 0);
    assert_eq!(game.phase, GamePhase::GameOver);
    game
}

#[test]
fn phase_defaults_to_the_start_screen() {
    assert_eq!(GamePhase::default(), GamePhase::StartScreen);
}

#[test]
fn state_defaults() {
    assert_eq!(
        GameState::default(),
        GameState {
            score: 0,
            enemy_direction: ONE,
            enemy_shoot_timer: 0,
            star_spawn_timer: 0,
            victory: false,
        }
    );
    assert_eq!(
        GameOverTimer::default(),
        GameOverTimer { elapsed: 0, required_delay: 1_500_000 }
    );
}

#[test]
fn state_reset_restores_the_defaults() {
    let mut state = GameState {
        score: 70,
        enemy_direction: -ONE,
        enemy_shoot_timer: 5,
        star_spawn_timer: 6,
        victory: true,
    };
    state.reset();
    assert_eq!(state, GameState::default());
}

#[test]
fn timer_allows_restart_from_the_delay_on() {
    let mut timer = GameOverTimer::default();
    assert!(!timer.can_restart());
    timer.elapsed = 1_499_999;
    assert!(!timer.can_restart());
    timer.elapsed = 1_500_000;
    assert!(timer.can_restart());
    timer.reset();
    assert_eq!(timer, GameOverTimer::default());
    let mut slow = GameOverTimer { elapsed: 9 * ONE, required_delay: 3 * ONE };
    slow.reset();
    assert_eq!(slow, GameOverTimer { elapsed: 0, required_delay: 3 * ONE });
}

#[test]
fn later_request_replaces_earlier() {
    let mut next_state = NextState::Unchanged;
    next_state.set(GamePhase::GameOver);
    next_state.set(GamePhase::Playing);
    assert_eq!(next_state, NextState::Pending(GamePhase::Playing));
}

#[test]
fn start_screen_has_three_lines() {
    let mut world = World::new();
    setup_start_screen(&mut world, &WindowDimensions::default());
    assert_eq!(
        world.start_screen,
        vec![
            StartScreenUI { line: StartLine::Title, style: line(60, MINT, 150, 200) },
            StartScreenUI { line: StartLine::Prompt, style: line(30, WHITE, 300, 250) },
            StartScreenUI { line: StartLine::Controls, style: line(20, GREY, 400, 250) },
        ]
    );
    cleanup_start_screen(&mut world);
    assert!(world.start_screen.is_empty());
}

#[test]
fn start_screen_is_centred_in_the_window() {
    let mut world = World::new();
    setup_start_screen(&mut world, &WindowDimensions { width: 1000 * ONE, height: 600 * ONE });
    assert_eq!(world.start_screen[0].style.left, 300 * ONE);
    assert_eq!(world.start_screen[1].style.left, 350 * ONE);
    assert_eq!(world.start_screen[2].style.left, 350 * ONE);
}

#[test]
fn space_on_the_start_screen_asks_for_play() {
    let mut next_state = NextState::Unchanged;
    start_screen_input(&Keys { arrow_left: true, key_d: true, ..Keys::default() }, &mut next_state);
    assert_eq!(next_state, NextState::Unchanged);
    start_screen_input(&space(), &mut next_state);
    assert_eq!(next_state, NextState::Pending(GamePhase::Playing));
}

#[test]
fn game_over_screen_shows_the_ledger() {
    let mut world = World::new();
    let state = GameState { score: 30, ..GameState::default() };
    let mut ledger = HighScores::default();
    ledger.add_score(50);
    ledger.add_score(20);
    let mut timer = GameOverTimer { elapsed: 7 * ONE, required_delay: 1_500_000 };
    setup_game_over_screen(
        &mut world,
        &state,
        &mut ledger,
        &mut timer,
        &WindowDimensions::default(),
    );
    assert_eq!(timer, GameOverTimer::default());
    assert_eq!(
        ledger.get_top_scores().to_vec(),
        vec![
            ScoreEntry { score: 50, is_current: false },
            ScoreEntry { score: 30, is_current: true },
            ScoreEntry { score: 20, is_current: false },
        ]
    );
    let red = Color { red: ONE, green: 0, blue: 0, alpha: ONE };
    let gold = Color { red: ONE, green: 840_000, blue: 0, alpha: ONE };
    assert_eq!(
        world.game_over_screen,
        vec![
            GameOverUI { line: GameOverLine::Banner { victory: false }, style: line(60, red, 50, 220) },
            GameOverUI { line: GameOverLine::FinalScore { score: 30 }, style: line(40, WHITE, 130, 250) },
            GameOverUI { line: GameOverLine::BoardTitle, style: line(35, gold, 200, 300) },
            GameOverUI {
                line: GameOverLine::BoardEntry { place: 1, score: 50 },
                style: line(28, WHITE, 250, 340),
            },
            GameOverUI {
                line: GameOverLine::BoardEntry { place: 2, score: 30 },
                style: line(28, MINT, 290, 340),
            },
            GameOverUI {
                line: GameOverLine::BoardEntry { place: 3, score: 20 },
                style: line(28, WHITE, 330, 340),
            },
            GameOverUI { line: GameOverLine::RestartPrompt, style: line(25, GREY, 520, 250) },
        ]
    );
}

#[test]
fn game_over_screen_after_a_victory() {
    let mut world = World::new();
    let state = GameState { score: 550, victory: true, ..GameState::default() };
    let mut ledger = HighScores::default();
    for score in [600, 700, 800, 900, 1000] {
        ledger.add_score(score);
    }
    let mut timer = GameOverTimer::default();
    setup_game_over_screen(
        &mut world,
        &state,
        &mut ledger,
        &mut timer,
        &WindowDimensions { width: 800 * ONE, height: 700 * ONE },
    );
    let green = Color { red: 0, green: ONE, blue: 0, alpha: ONE };
    assert_eq!(world.game_over_screen.len(), 9);
    assert_eq!(
        world.game_over_screen[0],
        GameOverUI { line: GameOverLine::Banner { victory: true }, style: line(60, green, 50, 220) }
    );
    assert_eq!(
        world.game_over_screen[7],
        GameOverUI {
            line: GameOverLine::BoardEntry { place: 5, score: 600 },
            style: line(28, WHITE, 410, 340),
        }
    );
    assert_eq!(world.game_over_screen[8].style.top, 620 * ONE);
    for shown in &world.game_over_screen[3..8] {
        assert_eq!(shown.style.color, WHITE);
    }
}

#[test]
fn time_runs_on_the_game_over_screen() {
    let mut timer = GameOverTimer::default();
    let mut next_state = NextState::Unchanged;
    game_over_screen_input(&space(), &mut next_state, &mut timer, 1_499_999);
    assert_eq!(timer.elapsed, 1_499_999);
    assert_eq!(next_state, NextState::Unchanged);
    game_over_screen_input(&Keys::default(), &mut next_state, &mut timer, 1);
    assert_eq!(timer.elapsed, 1_500_000);
    assert_eq!(next_state, NextState::Unchanged);
    game_over_screen_input(&space(), &mut next_state, &mut timer, 0);
    assert_eq!(next_state, NextState::Pending(GamePhase::Playing));
}

#[test]
fn leaving_the_game_over_screen_resets_the_state() {
    let mut world = World::new();
    let mut state = GameState { score: 30, victory: true, ..GameState::default() };
    let mut ledger = HighScores::default();
    let mut timer = GameOverTimer::default();
    setup_game_over_screen(&mut world, &state, &mut ledger, &mut timer, &WindowDimensions::default());
    cleanup_game_over_screen(&mut world, &mut state);
    assert!(world.game_over_screen.is_empty());
    assert_eq!(state, GameState::default());
    assert_eq!(ledger.get_top_scores().len(), 1);
}

#[test]
fn entering_and_leaving_play_leaves_nothing_behind() {
    let mut world = World::new();
    let window = WindowDimensions::default();
    spawn_player(&mut world, &window);
    spawn_enemies(&mut world, &window);
    assert!(world.player.is_some());
    assert_eq!(world.enemies.len(), 55);
    cleanup_game_entities(&mut world);
    assert_eq!(world.player, None);
    assert!(world.enemies.is_empty());
    assert!(world.bullets.is_empty());
    assert!(world.enemy_bullets.is_empty());
    assert_eq!(world.score_text, None);
    assert_eq!(world.music, None);
}

#[test]
fn clearing_a_game_keeps_stars_and_particles() {
    let mut game = playing();
    game.world.bullets.push(Bullet {
        position: Position { x: 0, y: 0 },
        velocity: Velocity { x: 0, y: 400 * ONE },
    });
    game.world.enemy_bullets.push(EnemyBullet {
        position: Position { x: 0, y: 0 },
        velocity: Velocity { x: 0, y: -400 * ONE },
    });
    game.tick_with(&Keys::default(), 50_000, &rolls(), 0);
    let stars = game.world.stars.len();
    assert_eq!(stars, 1);
    game.on_exit(GamePhase::Playing);
    assert_eq!(game.world.player, None);
    assert!(game.world.enemies.is_empty());
    assert!(game.world.bullets.is_empty());
    assert!(game.world.enemy_bullets.is_empty());
    assert_eq!(game.world.score_text, None);
    assert_eq!(game.world.music, None);
    assert_eq!(game.world.stars.len(), stars);
}

#[test]
fn session_opens_on_the_start_screen() {
    let game = Game::new(None);
    assert_eq!(game.phase, GamePhase::StartScreen);
    assert_eq!(game.state, GameState::default());
    assert_eq!(game.window, WindowDimensions::default());
    assert_eq!(game.game_over_timer, GameOverTimer::default());
    assert!(game.high_scores.get_top_scores().is_empty());
    assert_eq!(game.world.start_screen.len(), 3);
    assert_eq!(game.world.player, None);
    assert!(game.world.enemies.is_empty());

    let wide = Game::new(Some(WindowDimensions { width: 1200 * ONE, height: 900 * ONE }));
    assert_eq!(wide.window, WindowDimensions { width: 1200 * ONE, height: 900 * ONE });
    assert_eq!(wide.world.start_screen[0].style.left, 400 * ONE);
}

#[test]
fn start_screen_waits_for_space() {
    let mut game = Game::new(None);
    game.tick_with(&Keys { arrow_left: true, ..Keys::default() }, ONE, &rolls(), 0);
    assert_eq!(game.phase, GamePhase::StartScreen);
    assert_eq!(game.world.start_screen.len(), 3);
    assert!(game.world.stars.is_empty());
    game.tick_with(&space(), ONE, &rolls(), 0);
    assert_eq!(game.phase, GamePhase::Playing);
    assert!(game.world.start_screen.is_empty());
    assert_eq!(game.world.player, Some(Player { position: Position { x: 0, y: -250 * ONE } }));
    assert_eq!(game.world.enemies.len(), 55);
    assert!(game.world.score_text.is_some());
    assert!(game.world.music.is_some());
    assert!(game.world.bullets.is_empty());
}

#[test]
fn frame_of_play_runs_the_rules_in_order() {
    let mut game = playing();
    let keys = Keys { arrow_right: true, space_just_pressed: true, ..Keys::default() };
    game.tick_with(&keys, 100_000, &rolls(), 0);
    assert_eq!(game.phase, GamePhase::Playing);
    assert_eq!(game.world.player, Some(Player { position: Position { x: 30 * ONE, y: -250 * ONE } }));
    assert_eq!(
        game.world.bullets,
        vec![Bullet {
            position: Position { x: 30 * ONE, y: -190 * ONE },
            velocity: Velocity { x: 0, y: 400 * ONE },
        }]
    );
    assert_eq!(game.world.enemies[0].position, Position { x: -295 * ONE, y: 200 * ONE });
    assert_eq!(game.state.enemy_shoot_timer, 100_000);
    assert_eq!(game.state.star_spawn_timer, 0);
    assert_eq!(game.world.stars.len(), 1);
    assert_eq!(game.world.stars[0].position, Position { x: 15 * ONE, y: 0 });
    assert_eq!(game.world.stars[0].distance_from_center, 15 * ONE);
}

#[test]
fn invader_of_the_given_index_fires() {
    let mut game = playing();
    game.tick_with(&Keys::default(), 2 * ONE, &rolls(), 54);
    assert_eq!(game.phase, GamePhase::Playing);
    assert_eq!(game.state.enemy_shoot_timer, 0);
    assert_eq!(
        game.world.enemy_bullets,
        vec![EnemyBullet {
            position: Position { x: 400 * ONE, y: -55 * ONE },
            velocity: Velocity { x: 0, y: -400 * ONE },
        }]
    );
    assert_eq!(game.world.sounds, vec![Sound::EnemyShoot]);
}

#[test]
fn frame_with_a_random_invader() {
    let mut game = playing();
    game.tick(&Keys::default(), 2 * ONE, &directions());
    assert_eq!(game.world.enemy_bullets.len(), 1);
    let bomb = game.world.enemy_bullets[0];
    assert!(game
        .world
        .enemies
        .iter()
        .any(|enemy| enemy.position.x == bomb.position.x
            && enemy.position.y - 15 * ONE == bomb.position.y));
    game.tick(&Keys::default(), 100_000, &directions());
    assert_eq!(game.world.enemy_bullets.len(), 1);
    assert_eq!(game.world.enemy_bullets[0].position.y, bomb.position.y - 40 * ONE);
}

#[test]
fn frame_with_random_draws() {
    let mut game = playing();
    game.world.enemies.truncate(2);
    game.world.enemies[0] = enemy_at(0, 0);
    game.world.bullets.push(Bullet {
        position: Position { x: 0, y: 0 },
        velocity: Velocity { x: 0, y: 0 },
    });
    game.tick(&Keys::default(), 0, &directions());
    assert_eq!(game.phase, GamePhase::Playing);
    assert_eq!(game.state.score, 10);
    assert_eq!(game.world.particles.len(), 20);
    for spark in &game.world.particles {
        assert_eq!(spark.position, Position { x: 0, y: 0 });
        assert!(640_000 <= spark.max_lifetime && spark.max_lifetime < 960_000);
        assert!(1_500_000 <= spark.size && spark.size < 4_500_000);
        assert!(80 * ONE <= spark.velocity.y && spark.velocity.y < 240 * ONE);
        assert!(-180 * ONE < spark.velocity.x && spark.velocity.x <= -60 * ONE);
        assert!(800_000 <= spark.color.red && spark.color.red <= ONE);
        assert!(480_000 <= spark.color.green && spark.color.green < 720_000);
        assert_eq!(spark.color.blue, 0);
        assert_eq!(spark.color.alpha, ONE);
    }
    game.tick(&Keys::default(), 50_000, &directions());
    assert_eq!(game.world.stars.len(), 1);
    let star = game.world.stars[0];
    assert_eq!(star.velocity.x, 0);
    assert!(-225 * ONE < star.velocity.y && star.velocity.y <= -75 * ONE);
    assert_eq!(star.position.x, 0);
}

#[test]
fn collision_in_a_frame_of_play() {
    let mut game = playing();
    game.world.player = Some(Player { position: Position { x: 0, y: -260 * ONE } });
    game.world.enemies.clear();
    game.world.enemies.push(enemy_at(0, 0));
    game.world.enemies.push(enemy_at(200, 0));
    game.world.bullets.push(Bullet {
        position: Position { x: 0, y: 0 },
        velocity: Velocity { x: 0, y: 400 * ONE },
    });
    game.tick_with(&Keys::default(), 0, &rolls(), 0);
    assert_eq!(game.phase, GamePhase::Playing);
    assert_eq!(game.world.enemies, vec![enemy_at(200, 0)]);
    assert!(game.world.bullets.is_empty());
    assert_eq!(game.state.score, 10);
    assert_eq!(game.world.score_text.unwrap().value, 10);
    assert_eq!(game.world.particles.len(), 20);
    for spark in &game.world.particles {
        assert_eq!(spark.position, Position { x: 0, y: 0 });
        assert_eq!(spark.color, Color { red: ONE, green: 600_000, blue: 0, alpha: ONE });
    }
    assert_eq!(game.world.sounds, vec![Sound::EnemyDestroyed]);
    assert!(!game.state.victory);
}

#[test]
fn last_invader_destroyed_is_a_victory_in_the_same_frame() {
    let mut game = playing();
    game.world.player = Some(Player { position: Position { x: 0, y: -260 * ONE } });
    game.world.enemies.clear();
    game.world.enemies.push(enemy_at(0, 0));
    game.world.bullets.push(Bullet {
        position: Position { x: 0, y: 0 },
        velocity: Velocity { x: 0, y: 400 * ONE },
    });
    game.tick_with(&Keys::default(), 0, &rolls(), 0);
    assert_eq!(game.phase, GamePhase::GameOver);
    assert!(game.state.victory);
    assert_eq!(game.state.score, 10);
    assert_eq!(game.world.particles.len(), 20);
    assert_eq!(game.world.player, None);
    assert_eq!(game.world.score_text, None);
    assert_eq!(game.world.music, None);
    assert_eq!(
        game.high_scores.get_top_scores().to_vec(),
        vec![ScoreEntry { score: 10, is_current: true }]
    );
    assert_eq!(game.game_over_timer.elapsed, 0);
    assert_eq!(game.world.game_over_screen.len(), 5);
    assert_eq!(game.world.game_over_screen[0].line, GameOverLine::Banner { victory: true });
    assert_eq!(game.world.game_over_screen[1].line, GameOverLine::FinalScore { score: 10 });
    assert_eq!(
        game.world.game_over_screen[3],
        GameOverUI {
            line: GameOverLine::BoardEntry { place: 1, score: 10 },
            style: line(28, MINT, 250, 340),
        }
    );
}

#[test]
fn hit_on_the_player_ends_the_game() {
    let mut game = playing();
    game.world.enemy_bullets.push(EnemyBullet {
        position: Position { x: 5 * ONE, y: -240 * ONE },
        velocity: Velocity { x: 0, y: -400 * ONE },
    });
    game.tick_with(&Keys::default(), 0, &rolls(), 0);
    assert_eq!(game.phase, GamePhase::GameOver);
    assert!(!game.state.victory);
    assert_eq!(game.world.player, None);
    assert!(game.world.enemies.is_empty());
    assert!(game.world.enemy_bullets.is_empty());
    assert_eq!(game.world.particles.len(), 20);
    assert_eq!(game.world.particles[0].position, Position { x: 0, y: -250 * ONE });
    assert_eq!(game.world.sounds, vec![Sound::PlayerDestroyed]);
    assert_eq!(game.world.game_over_screen[0].line, GameOverLine::Banner { victory: false });
}

#[test]
fn invader_at_the_bottom_ends_the_game() {
    let mut game = playing();
    game.world.enemies[54].position.y = -250 * ONE - 1;
    game.tick_with(&Keys::default(), 0, &rolls(), 0);
    assert_eq!(game.phase, GamePhase::GameOver);
    assert!(!game.state.victory);
    assert_eq!(game.high_scores.get_top_scores().len(), 1);
}

#[test]
fn restart_is_ignored_before_the_delay() {
    let mut game = game_over_after_victory();
    assert_eq!(game.game_over_timer.elapsed, 0);
    game.state.score = 40;
    game.tick_with(&space(), ONE, &rolls(), 0);
    assert_eq!(game.phase, GamePhase::GameOver);
    assert_eq!(game.game_over_timer.elapsed, ONE);
    assert!(game.state.victory);
    assert_eq!(game.state.score, 40);
    assert!(!game.world.game_over_screen.is_empty());

    game.tick_with(&space(), 600_000, &rolls(), 0);
    assert_eq!(game.phase, GamePhase::Playing);
    assert_eq!(
        game.state,
        GameState {
            score: 0,
            enemy_direction: ONE,
            enemy_shoot_timer: 0,
            star_spawn_timer: 0,
            victory: false,
        }
    );
    assert!(game.world.game_over_screen.is_empty());
    assert_eq!(game.world.enemies.len(), 55);
    assert!(game.world.player.is_some());
    assert_eq!(game.world.score_text.unwrap().value, 0);
    assert_eq!(game.high_scores.get_top_scores().len(), 1);
}

#[test]
fn restart_needs_the_space_bar() {
    let mut game = game_over_after_victory();
    game.tick_with(&Keys { key_a: true, ..Keys::default() }, 5 * ONE, &rolls(), 0);
    assert_eq!(game.phase, GamePhase::GameOver);
    game.tick_with(&space(), 0, &rolls(), 0);
    assert_eq!(game.phase, GamePhase::Playing);
}

#[test]
fn every_game_enters_the_ledger() {
    let mut game = Game::new(None);
    game.tick_with(&space(), 0, &rolls(), 0);
    for score in [30u32, 10, 50, 20, 40, 60, 5] {
        game.state.score = score;
        game.world.enemies.clear();
        game.tick_with(&Keys::default(), 0, &rolls(), 0);
        assert_eq!(game.phase, GamePhase::GameOver);
        let top = game.high_scores.get_top_scores();
        assert!(top.len() <= 5);
        for pair in top.windows(2) {
            assert!(pair[0].score >= pair[1].score);
        }
        game.tick_with(&space(), 2 * ONE, &rolls(), 0);
        assert_eq!(game.phase, GamePhase::Playing);
        assert_eq!(game.state.score, 0);
    }
    let scores: Vec<u32> = game.high_scores.get_top_scores().iter().map(|e| e.score).collect();
    assert_eq!(scores, vec![60, 50, 40, 30, 20]);
    assert!(game.high_scores.get_top_scores().iter().all(|entry| !entry.is_current));
}

#[test]
fn enter_and_exit_by_hand() {
    let mut game = Game::new(None);
    game.on_exit(GamePhase::StartScreen);
    assert!(game.world.start_screen.is_empty());
    game.on_enter(GamePhase::Playing);
    assert_eq!(game.world.enemies.len(), 55);
    game.on_exit(GamePhase::Playing);
    assert!(game.world.enemies.is_empty());
    game.state.score = 90;
    game.on_enter(GamePhase::GameOver);
    assert_eq!(game.high_scores.get_top_scores()[0], ScoreEntry { score: 90, is_current: true });
    game.on_exit(GamePhase::GameOver);
    assert_eq!(game.state, GameState::default());
    assert!(game.world.game_over_screen.is_empty());
    assert_eq!(game.phase, GamePhase::StartScreen);
}
