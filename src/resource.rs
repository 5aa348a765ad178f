//! Resources: power points and Brawl Boxes.

pub mod bs_box;
pub mod power_points;
