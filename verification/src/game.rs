//! The phase controller. It owns the session, runs in every frame the rules
//! of the phase that is active, in a fixed order, and changes the phase when
//! the frame is over.

use vstd::prelude::*;
use crate::fixed::Fixed;
use crate::random::{draw_rolls, random_below, rolls_fit, Directions, Rolls};
use crate::resources::{
    ledger_ok, with_score, GameOverTimer, GamePhase, GameState, HighScores, Keys, NextState,
    ScoreEntry, WindowDimensions,
};
use crate::systems::background::{
    after_star_drift, after_star_spawn, move_stars, spawn_stars, star_cooled,
};
use crate::systems::bullet::{
    after_bullet_flight, after_cleanup, after_enemy_bullet_flight, cleanup_offscreen_bullets,
    move_bullets, move_enemy_bullets,
};
use crate::systems::collision::{
    after_enemy_hits, after_player_hit, check_bullet_enemy_collision,
    check_bullet_player_collision, scored, strike_request,
};
use crate::systems::enemy::{
    after_enemy_fire, after_march, check_enemy_reached_bottom, cooled, enemy_fire_due,
    enemy_shoot_with, fires, headed, landing_request, move_enemies,
};
use crate::systems::explosion::{after_fading, update_explosions};
use crate::systems::player::{after_player_fire, after_steering, player_movement, player_shoot};
use crate::systems::screens::{
    cleanup_game_entities, cleanup_game_over_screen, cleanup_start_screen,
    game_over_screen_input, restart_request, restarted, setup_game_over_screen,
    setup_start_screen, start_request, start_screen_input, timer_after, with_game_over_screen,
    with_start_screen, without_game, without_game_over_screen, without_start_screen,
};
use crate::systems::setup::{
    initialize_window_dimensions, spawn_enemies, spawn_player, with_formation, with_player,
};
use crate::systems::ui::{after_score_update, update_score_display};
use crate::systems::victory::{check_all_enemies_destroyed, judged, victory_request};
use crate::world::{World, WorldView};

verus! {

/// A session: the phase, the running game, the ledger, the restart delay,
/// the window and the world.
#[derive(Debug)]
pub struct Game {
    pub phase: GamePhase,
    pub state: GameState,
    pub high_scores: HighScores,
    pub game_over_timer: GameOverTimer,
    pub window: WindowDimensions,
    pub world: World,
}

/// The content of a [`Game`].
pub struct GameView {
    pub phase: GamePhase,
    pub state: GameState,
    pub high_scores: Seq<ScoreEntry>,
    pub game_over_timer: GameOverTimer,
    pub window: WindowDimensions,
    pub world: WorldView,
}

impl View for Game {
    type V = GameView;

    open spec fn view(&self) -> GameView {
        GameView {
            phase: self.phase,
            state: self.state,
            high_scores: self.high_scores@,
            game_over_timer: self.game_over_timer,
            window: self.window,
            world: self.world@,
        }
    }
}

/// The window of a new session: as measured, or the standard one.
pub open spec fn window_or_standard(measured: Option<WindowDimensions>) -> WindowDimensions {
    match measured {
        Some(window) => window,
        None => WindowDimensions::standard(),
    }
}

/// A session at its start: on the start screen, with an empty ledger.
pub open spec fn opened(measured: Option<WindowDimensions>) -> GameView {
    entered(
        GameView {
            phase: GamePhase::StartScreen,
            state: GameState::initial(),
            high_scores: Seq::empty(),
            game_over_timer: GameOverTimer::fresh(),
            window: window_or_standard(measured),
            world: WorldView::empty(),
        },
        GamePhase::StartScreen,
    )
}

/// What entering a phase does. The start screen goes up; or a ship, the
/// score readout, the music and a fresh formation appear; or the restart
/// delay starts to run, the score enters the ledger and the game-over screen
/// goes up.
pub open spec fn entered(g: GameView, phase: GamePhase) -> GameView {
    match phase {
        GamePhase::StartScreen => GameView { world: with_start_screen(g.world, g.window), ..g },
        GamePhase::Playing => GameView {
            world: with_formation(with_player(g.world, g.window), g.window),
            ..g
        },
        GamePhase::GameOver => GameView {
            game_over_timer: restarted(g.game_over_timer),
            high_scores: with_score(g.high_scores, g.state.score),
            world: with_game_over_screen(
                g.world,
                g.state,
                with_score(g.high_scores, g.state.score),
                g.window,
            ),
            ..g
        },
    }
}

/// What leaving a phase does. The start screen comes down; or the game is
/// cleared away; or the game-over screen comes down and the state is made
/// ready for the next game.
pub open spec fn exited(g: GameView, phase: GamePhase) -> GameView {
    match phase {
        GamePhase::StartScreen => GameView { world: without_start_screen(g.world), ..g },
        GamePhase::Playing => GameView { world: without_game(g.world), ..g },
        GamePhase::GameOver => GameView {
            world: without_game_over_screen(g.world),
            state: GameState::initial(),
            ..g
        },
    }
}

/// The session after a request was honoured: a request for another phase
/// leaves the active phase and enters the other.
pub open spec fn moved_to(g: GameView, next: NextState) -> GameView {
    match next {
        NextState::Pending(phase) if phase != g.phase => entered(
            GameView { phase, ..exited(g, g.phase) },
            phase,
        ),
        _ => g,
    }
}

/// The first part of a frame of play: the ship moves and fires, all bullets
/// fly, and those that have left the window are removed.
pub open spec fn flown(g: GameView, keys: Keys, dt: Fixed) -> GameView {
    let steered = after_player_fire(after_steering(g.world, keys, dt), keys);
    let moved = after_enemy_bullet_flight(after_bullet_flight(steered, dt), dt);
    GameView { world: after_cleanup(moved, g.window), ..g }
}

/// The second part of a frame of play: the formation marches, and an
/// invader, the one at index `pick`, fires if the cooldown has run out.
pub open spec fn invaded(g: GameView, dt: Fixed, pick: int) -> GameView {
    let headed = headed(g.state, g.world.enemies);
    let marched = after_march(g.world, g.state.enemy_direction, dt);
    GameView {
        state: cooled(headed, dt),
        world: after_enemy_fire(marched, headed, dt, pick),
        ..g
    }
}

/// The third part of a frame of play: the bullets of the player meet the
/// invaders, then those of the invaders meet the ship.
pub open spec fn fought(g: GameView, rolls: Rolls) -> GameView {
    GameView {
        state: scored(g.state, g.world),
        world: after_player_hit(
            after_enemy_hits(g.world, rolls.particles@),
            rolls.particles@,
        ),
        ..g
    }
}

/// What the fight asks for: the game-over phase if the ship was hit, if an
/// invader has passed the bottom line, or if no invader is left.
pub open spec fn verdict(before: GameView, after: GameView, rolls: Rolls) -> NextState {
    victory_request(
        after.world.enemies,
        landing_request(
            after.world.enemies,
            strike_request(
                after_enemy_hits(before.world, rolls.particles@),
                NextState::Unchanged,
            ),
        ),
    )
}

/// The last part of a frame of play: the game is won if no invader is left,
/// the score readout is brought up to date, a star may appear, and the stars
/// and the particles move on.
pub open spec fn adorned(g: GameView, dt: Fixed, rolls: Rolls) -> GameView {
    let judged = judged(g.state, g.world.enemies);
    let shown = after_score_update(g.world, judged.score);
    let starred = after_star_spawn(shown, judged, dt, rolls.star);
    GameView {
        state: star_cooled(judged, dt),
        world: after_fading(after_star_drift(starred, dt), dt),
        ..g
    }
}

/// A frame of play, before the phase changes: the four parts in their order.
pub open spec fn played(g: GameView, keys: Keys, dt: Fixed, rolls: Rolls, pick: int) -> GameView {
    adorned(fought(invaded(flown(g, keys, dt), dt, pick), rolls), dt, rolls)
}

/// What a frame of play asks for.
pub open spec fn played_request(g: GameView, keys: Keys, dt: Fixed, rolls: Rolls, pick: int)
    -> NextState {
    let invaded = invaded(flown(g, keys, dt), dt, pick);
    verdict(invaded, fought(invaded, rolls), rolls)
}

/// A frame on the game-over screen, before the phase changes: time runs.
pub open spec fn waited(g: GameView, dt: Fixed) -> GameView {
    GameView { game_over_timer: timer_after(g.game_over_timer, dt), ..g }
}

/// The session one frame later. The rules of the active phase run, with the
/// invader at index `pick` as the one that fires if one does, and then the
/// phase changes if they asked for it.
pub open spec fn ticked(g: GameView, keys: Keys, dt: Fixed, rolls: Rolls, pick: int) -> GameView {
    match g.phase {
        GamePhase::StartScreen => moved_to(g, start_request(keys, NextState::Unchanged)),
        GamePhase::Playing => moved_to(
            played(g, keys, dt, rolls, pick),
            played_request(g, keys, dt, rolls, pick),
        ),
        GamePhase::GameOver => moved_to(
            waited(g, dt),
            restart_request(keys, timer_after(g.game_over_timer, dt), NextState::Unchanged),
        ),
    }
}

/// Whether an invader fires in the frame that begins in `g`.
pub open spec fn enemy_fires(g: GameView, dt: Fixed) -> bool {
    g.phase == GamePhase::Playing && fires(g.world, g.state, dt)
}

impl Game {
    /// A session at its start: on the start screen, in a window of the
    /// measured size, or of the standard size if there is none to measure.
    pub fn new(measured: Option<WindowDimensions>) -> (game: Game)
        ensures
            game@ == opened(measured),
    {
        let mut window = WindowDimensions::default();
        initialize_window_dimensions(&mut window, measured);
        let mut game = Game {
            phase: GamePhase::default(),
            state: GameState::default(),
            high_scores: HighScores::default(),
            game_over_timer: GameOverTimer::default(),
            window,
            world: World::new(),
        };
        game.on_enter(GamePhase::StartScreen);
        game
    }

    /// Does what entering `phase` asks for.
    pub fn on_enter(&mut self, phase: GamePhase)
        ensures
            final(self)@ == entered(old(self)@, phase),
            ledger_ok(final(self)@.high_scores),
    {
        match phase {
            GamePhase::StartScreen => {
                setup_start_screen(&mut self.world, &self.window);
            },
            GamePhase::Playing => {
                spawn_player(&mut self.world, &self.window);
                spawn_enemies(&mut self.world, &self.window);
            },
            GamePhase::GameOver => {
                setup_game_over_screen(
                    &mut self.world,
                    &self.state,
                    &mut self.high_scores,
                    &mut self.game_over_timer,
                    &self.window,
                );
            },
        }
        proof {
            use_type_invariant(&self.high_scores);
            self.high_scores.lemma_in_order();
        }
    }

    /// Does what leaving `phase` asks for.
    pub fn on_exit(&mut self, phase: GamePhase)
        ensures
            final(self)@ == exited(old(self)@, phase),
            ledger_ok(final(self)@.high_scores),
    {
        match phase {
            GamePhase::StartScreen => {
                cleanup_start_screen(&mut self.world);
            },
            GamePhase::Playing => {
                cleanup_game_entities(&mut self.world);
            },
            GamePhase::GameOver => {
                cleanup_game_over_screen(&mut self.world, &mut self.state);
            },
        }
        proof {
            use_type_invariant(&self.high_scores);
            self.high_scores.lemma_in_order();
        }
    }

    /// Honours a request: for another phase, the active one is left and the
    /// other is entered.
    fn transition(&mut self, next_state: NextState)
        ensures
            final(self)@ == moved_to(old(self)@, next_state),
            ledger_ok(final(self)@.high_scores),
    {
        match next_state {
            NextState::Pending(phase) => {
                if phase != self.phase {
                    self.on_exit(self.phase);
                    self.phase = phase;
                    self.on_enter(phase);
                }
            },
            NextState::Unchanged => {},
        }
        proof {
            use_type_invariant(&self.high_scores);
            self.high_scores.lemma_in_order();
        }
    }

    /// The rules of play, in their order. The answer is what they ask for.
    fn play(&mut self, keys: &Keys, dt: Fixed, rolls: &Rolls, pick: usize) -> (next_state:
        NextState)
        requires
            fires(old(self)@.world, old(self).state, dt) ==> pick < old(self)@.world.enemies.len(),
        ensures
            final(self)@ == played(old(self)@, *keys, dt, *rolls, pick as int),
            next_state == played_request(old(self)@, *keys, dt, *rolls, pick as int),
    {
        let mut next_state = NextState::Unchanged;

        player_movement(&mut self.world, keys, dt);
        player_shoot(&mut self.world, keys);
        move_bullets(&mut self.world, dt);
        move_enemy_bullets(&mut self.world, dt);
        cleanup_offscreen_bullets(&mut self.world, &self.window);
        assert(self@ == flown(old(self)@, *keys, dt));

        move_enemies(&mut self.world, &mut self.state, dt);
        enemy_shoot_with(&mut self.world, &mut self.state, dt, pick);
        assert(self@ == invaded(flown(old(self)@, *keys, dt), dt, pick as int));

        check_bullet_enemy_collision(&mut self.world, &mut self.state, &rolls.particles);
        check_bullet_player_collision(&mut self.world, &mut next_state, &rolls.particles);
        check_enemy_reached_bottom(&self.world, &mut next_state);
        assert(self@ == fought(invaded(flown(old(self)@, *keys, dt), dt, pick as int), *rolls));

        check_all_enemies_destroyed(&self.world, &mut next_state, &mut self.state);
        update_score_display(&mut self.world, &self.state);
        spawn_stars(&mut self.world, &mut self.state, dt, &rolls.star);
        move_stars(&mut self.world, dt);
        update_explosions(&mut self.world, dt);
        next_state
    }

    /// Runs one frame of `dt` seconds under the given keys: the rules of the
    /// active phase, and then the change of phase that they asked for. If an
    /// invader fires in this frame, it is the one at index `pick`.
    pub fn tick_with(&mut self, keys: &Keys, dt: Fixed, rolls: &Rolls, pick: usize)
        requires
            enemy_fires(old(self)@, dt) ==> pick < old(self)@.world.enemies.len(),
        ensures
            final(self)@ == ticked(old(self)@, *keys, dt, *rolls, pick as int),
            ledger_ok(final(self)@.high_scores),
    {
        let mut next_state = NextState::Unchanged;
        match self.phase {
            GamePhase::StartScreen => {
                start_screen_input(keys, &mut next_state);
            },
            GamePhase::Playing => {
                next_state = self.play(keys, dt, rolls, pick);
            },
            GamePhase::GameOver => {
                game_over_screen_input(keys, &mut next_state, &mut self.game_over_timer, dt);
            },
        }
        self.transition(next_state);
    }

    /// Runs one frame of `dt` seconds under the given keys: the rules of the
    /// active phase, and then the change of phase that they asked for. The
    /// draws of the frame are made at random for the given directions, and
    /// if an invader fires in this frame, it is one chosen at random.
    pub fn tick(&mut self, keys: &Keys, dt: Fixed, directions: &Directions)
        ensures
            ledger_ok(final(self)@.high_scores),
            exists|rolls: Rolls, pick: int|
                {
                    &&& rolls_fit(rolls, *directions)
                    &&& enemy_fires(old(self)@, dt) ==> 0 <= pick < old(self)@.world.enemies.len()
                    &&& final(self)@ == #[trigger] ticked(old(self)@, *keys, dt, rolls, pick)
                },
    {
        let rolls = draw_rolls(directions);
        let due = match self.phase {
            GamePhase::Playing => enemy_fire_due(&self.world, &self.state, dt),
            _ => false,
        };
        let pick = if due {
            random_below(self.world.enemies.len())
        } else {
            0
        };
        self.tick_with(keys, dt, &rolls, pick);
    }
}

} // verus!
