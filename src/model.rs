//! Models of the game's content.

pub mod brawler;
pub mod game_mode;
pub mod trophy_road;
