//! The rules of a small arcade shooter, free of any engine.
//!
//! A [`game::Game`] is a session: a phase machine over a start screen, the
//! play and a game-over screen; the world of live objects; the running score
//! and a ledger of the five best games. [`game::Game::tick`] runs one frame:
//! the rules of the active phase, each a function in [`systems`], in a fixed
//! order, and then the change of phase that they asked for.
//!
//! Every quantity is a fixed-point number ([`fixed::Fixed`]), so that each
//! rule is exact and total. Whoever runs the game supplies the keys, the
//! length of the frame and the directions in which stars and particles fly,
//! and draws and plays what the world holds.

pub mod components;
pub mod constants;
pub mod fixed;
pub mod game;
pub mod laws;
pub mod random;
pub mod resources;
pub mod systems;
pub mod world;
