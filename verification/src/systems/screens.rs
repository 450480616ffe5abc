//! What happens on entering and leaving a phase, and the input that the
//! start screen and the game-over screen take.

use vstd::prelude::*;
use crate::components::{Color, GameOverLine, GameOverUI, StartLine, StartScreenUI, TextStyle};
use crate::fixed::{
    clamp, fixed_add, fixed_half, fixed_sub, half, sat_add, sat_sub, Fixed, ONE,
};
use crate::resources::{
    ledger_ok, with_score, GameOverTimer, GamePhase, GameState, HighScores, Keys, NextState, ScoreEntry,
    WindowDimensions,
};
use crate::world::{World, WorldView};

verus! {

/// A style of text `inset` to the left of the middle of a window of width
/// `width` (to the right, where `inset` is negative).
pub open spec fn centered(font_size: Fixed, color: Color, top: Fixed, width: Fixed, inset: Fixed)
    -> TextStyle {
    TextStyle { font_size, color, top, left: sat_sub(half(width), inset) }
}

fn centered_style(font_size: Fixed, color: Color, top: Fixed, width: Fixed, inset: Fixed) -> (style:
    TextStyle)
    ensures
        style == centered(font_size, color, top, width, inset),
{
    TextStyle { font_size, color, top, left: fixed_sub(fixed_half(width), inset) }
}

/// The three lines of the start screen: the title, the prompt, the controls.
pub open spec fn start_lines(window: WindowDimensions) -> Seq<StartScreenUI> {
    seq![
        StartScreenUI {
            line: StartLine::Title,
            style: centered(
                60_000_000,
                Color::opaque(0, ONE, 500_000),
                150_000_000,
                window.width,
                200_000_000,
            ),
        },
        StartScreenUI {
            line: StartLine::Prompt,
            style: centered(
                30_000_000,
                Color::opaque(ONE, ONE, ONE),
                300_000_000,
                window.width,
                150_000_000,
            ),
        },
        StartScreenUI {
            line: StartLine::Controls,
            style: centered(
                20_000_000,
                Color::opaque(700_000, 700_000, 700_000),
                400_000_000,
                window.width,
                150_000_000,
            ),
        },
    ]
}

/// The world with the start screen put up.
pub open spec fn with_start_screen(w: WorldView, window: WindowDimensions) -> WorldView {
    WorldView { start_screen: w.start_screen + start_lines(window), ..w }
}

/// Puts up the start screen.
pub fn setup_start_screen(world: &mut World, window: &WindowDimensions)
    ensures
        final(world)@ == with_start_screen(old(world)@, *window),
{
    world.start_screen.push(
        StartScreenUI {
            line: StartLine::Title,
            style: centered_style(
                60_000_000,
                Color::srgb(0, ONE, 500_000),
                150_000_000,
                window.width,
                200_000_000,
            ),
        },
    );
    world.start_screen.push(
        StartScreenUI {
            line: StartLine::Prompt,
            style: centered_style(
                30_000_000,
                Color::srgb(ONE, ONE, ONE),
                300_000_000,
                window.width,
                150_000_000,
            ),
        },
    );
    world.start_screen.push(
        StartScreenUI {
            line: StartLine::Controls,
            style: centered_style(
                20_000_000,
                Color::srgb(700_000, 700_000, 700_000),
                400_000_000,
                window.width,
                150_000_000,
            ),
        },
    );
    assert(world@.start_screen =~= old(world)@.start_screen + start_lines(*window));
}

/// What the space bar asks for on the start screen: a game.
pub open spec fn start_request(keys: Keys, next_state: NextState) -> NextState {
    if keys.space_just_pressed {
        NextState::Pending(GamePhase::Playing)
    } else {
        next_state
    }
}

/// On the start screen the space bar starts a game.
pub fn start_screen_input(keys: &Keys, next_state: &mut NextState)
    ensures
        *final(next_state) == start_request(*keys, *old(next_state)),
{
    if keys.space_just_pressed {
        next_state.set(GamePhase::Playing);
    }
}

/// The world without the start screen.
pub open spec fn without_start_screen(w: WorldView) -> WorldView {
    WorldView { start_screen: Seq::empty(), ..w }
}

/// Takes the start screen down.
pub fn cleanup_start_screen(world: &mut World)
    ensures
        final(world)@ == without_start_screen(old(world)@),
{
    world.start_screen.clear();
}

/// The line of the game-over screen for the entry at `index` of the ledger:
/// the entry of the game that just ended is highlighted.
pub open spec fn board_line(entry: ScoreEntry, index: int, window: WindowDimensions)
    -> GameOverUI {
    GameOverUI {
        line: GameOverLine::BoardEntry { place: (index + 1) as usize, score: entry.score },
        style: centered(
            28_000_000,
            if entry.is_current {
                Color::opaque(0, ONE, 500_000)
            } else {
                Color::opaque(ONE, ONE, ONE)
            },
            clamp(250_000_000 + index * 40_000_000),
            window.width,
            60_000_000,
        ),
    }
}

/// The lines of the game-over screen that show the ledger, the best first.
pub open spec fn board_lines(board: Seq<ScoreEntry>, window: WindowDimensions) -> Seq<
    GameOverUI,
> {
    Seq::new(board.len(), |i: int| board_line(board[i], i, window))
}

/// The headline and the final score.
pub open spec fn game_over_head(state: GameState, window: WindowDimensions) -> Seq<GameOverUI> {
    seq![
        GameOverUI {
            line: GameOverLine::Banner { victory: state.victory },
            style: centered(
                60_000_000,
                if state.victory {
                    Color::opaque(0, ONE, 0)
                } else {
                    Color::opaque(ONE, 0, 0)
                },
                50_000_000,
                window.width,
                180_000_000,
            ),
        },
        GameOverUI {
            line: GameOverLine::FinalScore { score: state.score },
            style: centered(
                40_000_000,
                Color::opaque(ONE, ONE, ONE),
                130_000_000,
                window.width,
                150_000_000,
            ),
        },
        GameOverUI {
            line: GameOverLine::BoardTitle,
            style: centered(
                35_000_000,
                Color::opaque(ONE, 840_000, 0),
                200_000_000,
                window.width,
                100_000_000,
            ),
        },
    ]
}

/// The prompt at the foot of the game-over screen.
pub open spec fn restart_line(window: WindowDimensions) -> GameOverUI {
    GameOverUI {
        line: GameOverLine::RestartPrompt,
        style: centered(
            25_000_000,
            Color::opaque(700_000, 700_000, 700_000),
            sat_sub(window.height, 80_000_000),
            window.width,
            150_000_000,
        ),
    }
}

/// The game-over screen: headline, final score, the ledger under its title,
/// and the prompt.
pub open spec fn game_over_lines(
    state: GameState,
    board: Seq<ScoreEntry>,
    window: WindowDimensions,
) -> Seq<GameOverUI> {
    game_over_head(state, window) + board_lines(board, window) + seq![restart_line(window)]
}

/// The world with the game-over screen put up, for the ledger `board`.
pub open spec fn with_game_over_screen(
    w: WorldView,
    state: GameState,
    board: Seq<ScoreEntry>,
    window: WindowDimensions,
) -> WorldView {
    WorldView { game_over_screen: w.game_over_screen + game_over_lines(state, board, window), ..w }
}

/// The restart delay, counting from zero again.
pub open spec fn restarted(timer: GameOverTimer) -> GameOverTimer {
    GameOverTimer { elapsed: 0, ..timer }
}

/// Ends a game: the restart delay starts to run, the score enters the ledger,
/// and the game-over screen goes up with the ledger as it then stands.
pub fn setup_game_over_screen(
    world: &mut World,
    state: &GameState,
    high_scores: &mut HighScores,
    game_over_timer: &mut GameOverTimer,
    window: &WindowDimensions,
)
    ensures
        *final(game_over_timer) == restarted(*old(game_over_timer)),
        final(high_scores)@ == with_score(old(high_scores)@, state.score),
        ledger_ok(old(high_scores)@),
        ledger_ok(final(high_scores)@),
        final(world)@ == with_game_over_screen(
            old(world)@,
            *state,
            with_score(old(high_scores)@, state.score),
            *window,
        ),
{
    game_over_timer.reset();
    high_scores.add_score(state.score);

    let banner_color = if state.victory {
        Color::srgb(0, ONE, 0)
    } else {
        Color::srgb(ONE, 0, 0)
    };
    world.game_over_screen.push(
        GameOverUI {
            line: GameOverLine::Banner { victory: state.victory },
            style: centered_style(60_000_000, banner_color, 50_000_000, window.width, 180_000_000),
        },
    );
    world.game_over_screen.push(
        GameOverUI {
            line: GameOverLine::FinalScore { score: state.score },
            style: centered_style(
                40_000_000,
                Color::srgb(ONE, ONE, ONE),
                130_000_000,
                window.width,
                150_000_000,
            ),
        },
    );
    world.game_over_screen.push(
        GameOverUI {
            line: GameOverLine::BoardTitle,
            style: centered_style(
                35_000_000,
                Color::srgb(ONE, 840_000, 0),
                200_000_000,
                window.width,
                100_000_000,
            ),
        },
    );
    assert(world@.game_over_screen =~= old(world)@.game_over_screen + game_over_head(
        *state,
        *window,
    ));

    let top_scores = high_scores.get_top_scores();
    let ghost board = top_scores@;
    let ghost head = world@.game_over_screen;
    let n = top_scores.len();
    let mut i: usize = 0;
    while i < n
        invariant
            i <= n,
            n == board.len(),
            n <= 5,
            top_scores@ == board,
            world@ == (WorldView {
                game_over_screen: head + board_lines(board, *window).take(i as int),
                ..old(world)@
            }),
        decreases n - i,
    {
        let entry = top_scores[i];
        let color = if entry.is_current {
            Color::srgb(0, ONE, 500_000)
        } else {
            Color::srgb(ONE, ONE, ONE)
        };
        let top: Fixed = 250_000_000 + (i as i64) * 40_000_000;
        world.game_over_screen.push(
            GameOverUI {
                line: GameOverLine::BoardEntry { place: i + 1, score: entry.score },
                style: centered_style(28_000_000, color, top, window.width, 60_000_000),
            },
        );
        assert(world@.game_over_screen =~= head + board_lines(board, *window).take(i + 1));
        i = i + 1;
    }
    assert(board_lines(board, *window).take(n as int) =~= board_lines(board, *window));

    world.game_over_screen.push(
        GameOverUI {
            line: GameOverLine::RestartPrompt,
            style: centered_style(
                25_000_000,
                Color::srgb(700_000, 700_000, 700_000),
                fixed_sub(window.height, 80_000_000),
                window.width,
                150_000_000,
            ),
        },
    );
    assert(world@.game_over_screen =~= old(world)@.game_over_screen + game_over_lines(
        *state,
        board,
        *window,
    ));
}

/// The restart delay after `dt` more seconds.
pub open spec fn timer_after(timer: GameOverTimer, dt: Fixed) -> GameOverTimer {
    GameOverTimer { elapsed: sat_add(timer.elapsed, dt), ..timer }
}

/// What the space bar asks for on the game-over screen: a new game, once the
/// restart delay has passed.
pub open spec fn restart_request(keys: Keys, timer: GameOverTimer, next_state: NextState)
    -> NextState {
    if keys.space_just_pressed && timer.ready() {
        NextState::Pending(GamePhase::Playing)
    } else {
        next_state
    }
}

/// On the game-over screen time runs, and the space bar starts a new game
/// once the restart delay has passed.
pub fn game_over_screen_input(
    keys: &Keys,
    next_state: &mut NextState,
    game_over_timer: &mut GameOverTimer,
    dt: Fixed,
)
    ensures
        *final(game_over_timer) == timer_after(*old(game_over_timer), dt),
        *final(next_state) == restart_request(
            *keys,
            timer_after(*old(game_over_timer), dt),
            *old(next_state),
        ),
{
    game_over_timer.elapsed = fixed_add(game_over_timer.elapsed, dt);

    if keys.space_just_pressed && game_over_timer.can_restart() {
        next_state.set(GamePhase::Playing);
    }
}

/// The world without the game-over screen.
pub open spec fn without_game_over_screen(w: WorldView) -> WorldView {
    WorldView { game_over_screen: Seq::empty(), ..w }
}

/// Takes the game-over screen down and readies the state for the next game.
pub fn cleanup_game_over_screen(world: &mut World, state: &mut GameState)
    ensures
        final(world)@ == without_game_over_screen(old(world)@),
        *final(state) == GameState::initial(),
{
    world.game_over_screen.clear();
    state.reset();
}

/// What a game leaves behind when it is cleared away: the stars, the
/// particles, the screens and the sounds.
pub open spec fn without_game(w: WorldView) -> WorldView {
    WorldView {
        player: None,
        enemies: Seq::empty(),
        bullets: Seq::empty(),
        enemy_bullets: Seq::empty(),
        score_text: None,
        music: None,
        ..w
    }
}

/// Clears a game away: the player, the invaders, all bullets, the score
/// readout and the music.
pub fn cleanup_game_entities(world: &mut World)
    ensures
        final(world)@ == without_game(old(world)@),
{
    world.player = None;
    world.enemies.clear();
    world.bullets.clear();
    world.enemy_bullets.clear();
    world.score_text = None;
    world.music = None;
}

} // verus!
