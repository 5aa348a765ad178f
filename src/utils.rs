//! Utilities used throughout the library.

pub mod rng;
pub mod tiers;
