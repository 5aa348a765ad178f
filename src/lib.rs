//! Turn-based 1v1 brawls between two players, with verified combat formulas
//! and game mode state machines.

pub mod error;
pub mod gameplay;
pub mod model;
pub mod resource;
pub mod utils;
