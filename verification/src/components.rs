//! The kinds of game object, each a plain record of what the rules read.

use vstd::prelude::*;
use crate::fixed::{Fixed, ONE};

verus! {

/// A point of the screen: the origin is the centre of the window, `y` grows
/// upward.
#[derive(Clone, Copy, Debug, PartialEq, Eq, Structural)]
pub struct Position {
    pub x: Fixed,
    pub y: Fixed,
}

/// Displacement per second.
#[derive(Clone, Copy, Debug, PartialEq, Eq, Structural)]
pub struct Velocity {
    pub x: Fixed,
    pub y: Fixed,
}

/// A colour: red, green, blue and opacity, each from 0 to 1.
#[derive(Clone, Copy, Debug, PartialEq, Eq, Structural)]
pub struct Color {
    pub red: Fixed,
    pub green: Fixed,
    pub blue: Fixed,
    pub alpha: Fixed,
}

impl Color {
    /// The opaque colour with the given parts.
    pub open spec fn opaque(red: Fixed, green: Fixed, blue: Fixed) -> Color {
        Color { red, green, blue, alpha: ONE }
    }

    /// The opaque colour with the given parts.
    pub fn srgb(red: Fixed, green: Fixed, blue: Fixed) -> (color: Color)
        ensures
            color == Color::opaque(red, green, blue),
    {
        Color { red, green, blue, alpha: ONE }
    }
}

/// Where and how a line of text is drawn: distances are from the upper left
/// corner of the window.
#[derive(Clone, Copy, Debug, PartialEq, Eq, Structural)]
pub struct TextStyle {
    pub font_size: Fixed,
    pub color: Color,
    pub top: Fixed,
    pub left: Fixed,
}

/// The player's ship.
#[derive(Clone, Copy, Debug, PartialEq, Eq, Structural)]
pub struct Player {
    pub position: Position,
}

/// Which of the three invader pictures an invader wears.
#[derive(Clone, Copy, Debug, PartialEq, Eq, Structural)]
pub enum EnemyKind {
    Enemy1,
    Enemy2,
    Enemy3,
}

/// An invader. `original_x` is where it was spawned: its anchor.
#[derive(Clone, Copy, Debug, PartialEq, Eq, Structural)]
pub struct Enemy {
    pub position: Position,
    pub velocity: Velocity,
    pub original_x: Fixed,
    pub kind: EnemyKind,
}

/// A bullet of the player.
#[derive(Clone, Copy, Debug, PartialEq, Eq, Structural)]
pub struct Bullet {
    pub position: Position,
    pub velocity: Velocity,
}

/// A bullet of an invader.
#[derive(Clone, Copy, Debug, PartialEq, Eq, Structural)]
pub struct EnemyBullet {
    pub position: Position,
    pub velocity: Velocity,
}

/// The score readout: the number that it shows, and where.
#[derive(Clone, Copy, Debug, PartialEq, Eq, Structural)]
pub struct Score {
    pub value: u32,
    pub style: TextStyle,
}

/// The lines of the start screen.
#[derive(Clone, Copy, Debug, PartialEq, Eq, Structural)]
pub enum StartLine {
    Title,
    Prompt,
    Controls,
}

/// One line of text of the start screen.
#[derive(Clone, Copy, Debug, PartialEq, Eq, Structural)]
pub struct StartScreenUI {
    pub line: StartLine,
    pub style: TextStyle,
}

/// The lines of the game-over screen.
#[derive(Clone, Copy, Debug, PartialEq, Eq, Structural)]
pub enum GameOverLine {
    /// The headline: a victory, or a defeat.
    Banner { victory: bool },
    FinalScore { score: u32 },
    BoardTitle,
    /// One entry of the ledger; `place` counts from 1.
    BoardEntry { place: usize, score: u32 },
    RestartPrompt,
}

/// One line of text of the game-over screen.
#[derive(Clone, Copy, Debug, PartialEq, Eq, Structural)]
pub struct GameOverUI {
    pub line: GameOverLine,
    pub style: TextStyle,
}

/// A star of the background.
#[derive(Clone, Copy, Debug, PartialEq, Eq, Structural)]
pub struct Star {
    pub position: Position,
    pub velocity: Velocity,
    pub distance_from_center: Fixed,
    /// Edge of the square that is drawn.
    pub size: Fixed,
    /// Grey level, from 0 to 1.
    pub brightness: Fixed,
}

/// One particle of an explosion.
#[derive(Clone, Copy, Debug, PartialEq, Eq, Structural)]
pub struct ExplosionParticle {
    pub position: Position,
    pub velocity: Velocity,
    pub lifetime: Fixed,
    pub max_lifetime: Fixed,
    /// Edge of the square that is drawn.
    pub size: Fixed,
    pub color: Color,
}

/// The music that loops while a game is played.
#[derive(Clone, Copy, Debug, PartialEq, Eq, Structural)]
pub struct BackgroundMusic;

/// A clip that is played once.
#[derive(Clone, Copy, Debug, PartialEq, Eq, Structural)]
pub enum Sound {
    EnemyShoot,
    EnemyDestroyed,
    PlayerDestroyed,
}

} // verus!
