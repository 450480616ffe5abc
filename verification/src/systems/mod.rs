//! The rules, one function for each.

pub mod background;
pub mod bullet;
pub mod collision;
pub mod enemy;
pub mod explosion;
pub mod player;
pub mod screens;
pub mod setup;
pub mod ui;
pub mod victory;
